//! A power-management daemon's core: the policy that decides which limits
//! to enforce, the requested-profile store written by clients, the client
//! session state machine, and the latest-value channel that carries state
//! snapshots to clients.

pub mod actuator;
pub mod broadcast;
pub mod config;
pub mod control;
pub mod laws;
pub mod profile;
pub mod session;
