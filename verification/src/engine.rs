//! Selecting the container engine backend.
//!
//! A pure mapping from the script's declared engine kind and connection
//! endpoint to a concrete handle; no connection is attempted here — the
//! connectivity probe is an I/O action performed by the surrounding program.

use vstd::prelude::*;

use crate::schema::{ContainerConfig, ContainerEngineKind};

verus! {

/// The handle through which the rest of the pipeline talks to whichever
/// backend is configured; exactly one variant is instantiated per run.
#[derive(Clone, Debug)]
pub enum ContainerEngineHandle {
    Docker { connection_uri: String },
    Podman { connection_uri: String },
}

/// The handle backs the configured kind and carries the configured endpoint.
pub open spec fn engine_matches(config: ContainerConfig, h: ContainerEngineHandle) -> bool {
    match config.engine {
        ContainerEngineKind::Docker => {
            h matches ContainerEngineHandle::Docker { connection_uri }
                && connection_uri@ == config.connection_uri@
        },
        ContainerEngineKind::Podman => {
            h matches ContainerEngineHandle::Podman { connection_uri }
                && connection_uri@ == config.connection_uri@
        },
    }
}

/// Map the configured engine kind to its handle, wired to the configured
/// connection endpoint.
pub fn select_engine(config: &ContainerConfig) -> (r: ContainerEngineHandle)
    ensures
        engine_matches(*config, r),
{
    match config.engine {
        ContainerEngineKind::Docker => ContainerEngineHandle::Docker {
            connection_uri: config.connection_uri.clone(),
        },
        ContainerEngineKind::Podman => ContainerEngineHandle::Podman {
            connection_uri: config.connection_uri.clone(),
        },
    }
}

impl ContainerEngineHandle {
    /// The connection endpoint the handle was wired with.
    pub fn connection_uri(&self) -> (r: &String)
        ensures
            match *self {
                ContainerEngineHandle::Docker { connection_uri } => r@ == connection_uri@,
                ContainerEngineHandle::Podman { connection_uri } => r@ == connection_uri@,
            },
    {
        match self {
            ContainerEngineHandle::Docker { connection_uri } => connection_uri,
            ContainerEngineHandle::Podman { connection_uri } => connection_uri,
        }
    }
}

} // verus!
