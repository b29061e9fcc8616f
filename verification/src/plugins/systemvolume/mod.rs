//! Volume control, in both roles.
//!
//! As a controller we keep track of the sinks of a desktop that we are connected
//! to. As a provider we offer the sinks of this desktop to a phone: we answer
//! its requests, and tell it what changed. The provider's side is only offered
//! where there is a sound server to speak of.

pub mod backend;
pub mod laws;
pub mod plugin;
pub mod sinks;
pub mod state_laws;
pub mod supervisor;
