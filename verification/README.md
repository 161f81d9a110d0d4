# mineintent_backend

The runtime of a Minecraft backend: it follows the attempts of a game client to
reach a server, hands commands to the client that owns the current attempt,
keeps the frame that observers read, and delivers events through bounded lanes
without losing the ones that matter.

`src/` is a Verus library. Every item of it is verified, apart from three calls
into `chrono` in `src/time.rs`, whose contracts are stated there. The runtime is
one plain value: time, randomness and floating-point results come in as
arguments, and what has to be done outside (timers, callbacks, disconnects) goes
out as a list of effects.

- Values: `number`, `time`, `text`, `config`, `contract`, `snapshot`, `wire`.
- Events: `lanes`, `bridge`, `dispatch`, `events`, `entity_events`, `entity`.
- The runtime: `state`, `attempts`, `ownership`, `producers`, `lifecycle`,
  `closing`, `reconnect`, `timers`, `shutdown`, `driver`.
- Commands: `command`, `completion`, `movement`, `execution`, `handle`.
- The frame: `frame`, `tracking`, `armor`, `light`, `conversion`, `observation`.
- The public face: `session`, `facade`.

Transitions are spec functions on `RuntimeView`; each executable function states
that it makes one. What follows from several of them together stands in proof
functions named `law_..`, many of them in `guarantees`.

`app/` is ordinary Rust around it: the clock, the lock and the timers, JSON, the
threads behind the facade, and the client itself. `tests/` runs the library.
