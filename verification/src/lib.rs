//! Supervision of long-lived worker processes ("bridges"), one per named
//! service, that speak a newline-delimited JSON protocol on their standard
//! streams.
//!
//! The crate holds the decisions of that supervision and proves them: how a
//! protocol message changes a bridge's status, what the registry of live
//! bridges records, what a supervisor does on each event of its worker, and
//! what the command gateway answers. Spawning processes, reading their
//! output, sleeping and emitting events are left to the caller, which hands
//! each outcome back as a plain value.

pub mod classifier;
pub mod error;
pub mod gateway;
pub mod json;
pub mod registry;
pub mod status;
pub mod supervisor;
pub mod text;
pub mod trace;

pub use error::BridgeError;
pub use registry::{BridgeManager, BridgeProcess};
pub use status::BridgeStatus;
pub use supervisor::{Phase, Supervisor, SupervisorAction, WorkerEvent};
