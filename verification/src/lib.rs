pub mod armor;
pub mod attempts;
pub mod bridge;
pub mod closing;
pub mod command;
pub mod completion;
pub mod config;
pub mod contract;
pub mod conversion;
pub mod dispatch;
pub mod driver;
pub mod endings;
pub mod entity;
pub mod entity_events;
pub mod events;
pub mod execution;
pub mod facade;
pub mod frame;
pub mod guarantees;
pub mod handle;
pub mod lanes;
pub mod lifecycle;
pub mod light;
pub mod movement;
pub mod number;
pub mod observation;
pub mod ownership;
pub mod producers;
pub mod promises;
pub mod reconnect;
pub mod session;
pub mod shutdown;
pub mod snapshot;
pub mod state;
pub mod text;
pub mod time;
pub mod timers;
pub mod tracking;
pub mod wire;
pub mod words;
