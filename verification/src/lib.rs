//! Development-stack orchestrator core: process supervision, readiness
//! probing, deployment discovery, event broadcasting, backend rebuilding and
//! request routing, modelled as explicit state with verified contracts.
//!
//! The surrounding binary performs the actual I/O (spawning processes,
//! opening sockets, reading files) and drives these components with the
//! outcomes; every decision the orchestrator makes is taken here.

use vstd::prelude::*;

pub mod accounts;
pub mod block;
pub mod broker;
pub mod config;
pub mod manifest;
pub mod orchestrator;
pub mod prober;
pub mod proxy;
pub mod rebuild;
pub mod supervisor;
pub mod text;

verus! {

/// Errors raised while discovering the deployed world contract.
#[derive(Clone, Copy, Debug, PartialEq, Eq, Structural)]
pub enum KeikoError {
    /// The migration step could not run or its manifest was unreadable.
    SozoMigrateFailed,
    /// The manifest was read but held no world address.
    WorldAddressNotFound,
}

impl KeikoError {
    /// A human-readable description of the error.
    pub fn message(&self) -> (m: String)
        ensures
            *self is SozoMigrateFailed ==> m@ == "sozo migrate failed"@,
            *self is WorldAddressNotFound ==> m@ == "world address not found"@,
    {
        match self {
            KeikoError::SozoMigrateFailed => String::from_str("sozo migrate failed"),
            KeikoError::WorldAddressNotFound => String::from_str("world address not found"),
        }
    }
}

/// Failure taxonomy of the orchestration layer.
#[derive(Clone, Copy, Debug, PartialEq, Eq, Structural)]
pub enum OrchestratorError {
    /// An executable could not be launched; fatal during startup.
    SpawnFailed,
    /// The deployment manifest was missing, malformed, or held no address.
    DiscoveryFailed,
    /// No fresh address could be bound for a rebuild; the previous
    /// instance is retained.
    BindFailed,
    /// A configured backend could not be reached for one request.
    BackendUnreachable,
    /// A blocking wait was aborted by shutdown; a clean exit path.
    Cancelled,
}

} // verus!
