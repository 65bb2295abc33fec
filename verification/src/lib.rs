//! A local process supervisor: keeps a fixed list of external service
//! executables running, restarting each one found absent from the OS process
//! table, and terminates every managed service on shutdown.
//!
//! The supervision logic — the liveness heuristic, the per-cycle restart
//! decisions, and the shutdown orchestration — is verified here. The
//! surrounding environment (spawning processes, sleeping, signal handling,
//! configuration parsing) carries the decisions out.

pub mod config;
pub mod cycle;
pub mod probe;
pub mod shutdown;
pub mod sysquery;
pub mod text;
