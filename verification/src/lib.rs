//! Verified core of a backup orchestrator.
//!
//! The library selects, from a prioritized list of remote backup
//! destinations, the first one that is currently reachable, and drives that
//! destination through a snapshot-rotation protocol that keeps an
//! incremental, hard-linked history of backups under the destination's root.
//! All I/O (the remote shell transport, configuration loading, notification)
//! lives with the surrounding application; this crate holds the decisions,
//! the command construction, and the models of the remote state, each with a
//! proved contract.

pub mod errors;
pub mod text;
pub mod timestamp;
pub mod target;
pub mod config;
pub mod snapshot;
pub mod selector;
pub mod runner;
