//! Fan and platform-profile control for HP Omen laptops: the daemon's
//! decision logic, its request protocol, and the client side of that protocol.

pub mod text;
pub mod types;
pub mod config;
pub mod daemon;
pub mod protocol;
pub mod monitor;
pub mod client;
pub mod laws;
