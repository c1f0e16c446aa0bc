//! Decision logic of a dynamic-DNS updater: keeps one A record in step with
//! the caller's public address, and waits for the provider to confirm a change.
//! The logic is a state machine; the driver performs the network calls that it
//! asks for and hands back what came of them.

pub mod text;
pub mod reconciler;
pub mod laws;
