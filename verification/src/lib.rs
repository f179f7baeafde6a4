//! Core of a tick-based multiplayer simulation: an authoritative fixed-step
//! server loop, client-side prediction with rollback reconciliation, input
//! buffering, tick-clock synchronization, and the message contracts that bind
//! them. Rendering, transport I/O and process control live outside this crate;
//! collision resolution is consumed as an external capability.

pub mod assoc;
pub mod backend;
pub mod buffer;
pub mod client;
pub mod game;
pub mod instance;
pub mod message;
pub mod net_obj;
pub mod physics;
pub mod player;
pub mod server;
pub mod tick;
pub mod vec2;
