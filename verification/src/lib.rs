//! The session engine of a real-time multiplayer game: the authoritative
//! simulation of one lobby, the state machine of the actor that owns it, and
//! the rules by which a connection hands client commands to that actor.
//!
//! Every quantity is a fixed-point integer, so that two runs of the same
//! inputs always agree: lengths are counted in millionths of a world unit,
//! speeds in thousandths of a world unit per second, and time in milliseconds.
//! One millisecond at speed one therefore moves a body by exactly one step of
//! length.

pub mod fixed;
pub mod geometry;
pub mod entity;
pub mod game_state;
pub mod laws;
pub mod handler;
pub mod session;
pub mod ws;

pub use session::SetupMessage;
