[package]
name = "mineintent_backend"
version = "0.1.0"
edition = "2021"
publish = false

[dependencies]
azalea = { version = "=0.15.1", default-features = false }
bevy_ecs = { version = "0.18", default-features = false }
chrono = "=0.4.45"
parking_lot = "=0.12.5"
serde = { version = "=1.0.229", features = ["derive"] }
serde_json = "=1.0.154"
tokio = { version = "=1.54.1", features = ["rt", "rt-multi-thread", "sync", "time", "macros"] }
tracing = "=0.1.44"
