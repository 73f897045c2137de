//! Wake a single device on the local network segment and report whether it
//! is reachable.
//!
//! The crate decides; its caller performs. Each operation is split into a
//! function that says what is to be sent, and one that turns what came back
//! into the reply and the device's status. Sockets, clocks and the request
//! layer belong to the caller.

pub mod address;
pub mod cli;
pub mod ping;
pub mod reply;
pub mod settings;
pub mod status;
pub mod wake;
