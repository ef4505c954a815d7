//! Core logic of a command-line client for a federated messaging protocol:
//! room-identifier resolution, session persistence, the login-vs-restore
//! decision, command dispatch, the synchronization loop's retry policy, and
//! the exit policy of the run coordinator.
//!
//! All network and file traffic is performed by a thin unverified shell; the
//! decisions that drive it are made here, as verified step functions from
//! state and event to the next protocol operation.

pub mod auth;
pub mod dispatch;
pub mod errors;
pub mod foreign;
pub mod ident;
pub mod resolve;
pub mod run;
pub mod session;
pub mod sync;
