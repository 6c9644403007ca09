//! A supervised child-process launcher for a bundled sidecar executable.
//!
//! The library holds the decision logic of the launcher: which candidate
//! file names to search for, which candidate is selected, how the child
//! process is to be spawned, how its output lines are turned into log
//! records, and how its exit status is reported.  All filesystem probing,
//! process spawning and stream pumping is performed by a thin unverified
//! shell around the library, which hands the results back as plain values.

pub mod events;
pub mod launch;
pub mod paths;
pub mod platform;
pub mod resolve;
