//! A lockstep multi-agent simulation core.
//!
//! Many independent agents ("bots") advance in discrete time steps. A
//! double-barrier tick lock keeps the agents and the coordinating world in
//! step, a mailbox relay bridges the synchronous tick loop to a slower
//! external process, and a thread coordinator supervises worker outcomes.
//! The library holds the synchronization protocol, the command validation
//! rules and the controller state machines; the thread, process and stream
//! plumbing around them lives with the caller.

pub mod config;
pub mod ctl;
pub mod math;
pub mod relay;
pub mod render;
pub mod robo;
pub mod robo_controller;
pub mod rpc;
pub mod std_robo;
pub mod threading;
pub mod user;
pub mod world;

pub use math::Clamped;
pub use math::Vector2;
