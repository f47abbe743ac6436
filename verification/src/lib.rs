//! Connection lifecycle core of a streaming headset client.
//!
//! The crate holds the decisions of one client: how a host is searched for,
//! how a session is negotiated, what each streaming worker does with what it
//! receives, and how a session is torn down. Sockets, devices, clocks and
//! threads stay with the caller, which reports what happened and performs what
//! the functions here answer.

pub mod control;
pub mod endpoint;
pub mod hud;
pub mod negotiation;
pub mod presets;
pub mod session;
pub mod video;
pub mod workers;
