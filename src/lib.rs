//! A glucose-status relay: a session manager for a remote glucose-monitoring
//! service, the rules that turn a reading into a status line, and the framing
//! of the presence-service update that carries it.
pub mod clock;
pub mod dexcom;
pub mod discord;
pub mod json;
pub mod status;
