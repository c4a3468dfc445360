//! Deployment orchestrator for a single application on a single remote host.
//!
//! The library holds the verified core: the versioned descriptor and its
//! rendering, the manifest generator, the remote command batch semantics,
//! and the deploy pipeline state machine.  All I/O (secure shell, local
//! subprocesses, the filesystem) is performed by a thin unverified driver
//! that executes the actions the pipeline emits and feeds the outcomes back.

pub mod text;
pub mod config;
pub mod commands;
pub mod docker;
pub mod secrets;
pub mod deploy;
pub mod setup;
