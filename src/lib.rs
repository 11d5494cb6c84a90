//! Translation of container resource limits into cgroup settings.
//!
//! Controllers turn a resource specification into backend-neutral settings,
//! which are then emitted either into a property sink (unit properties of a
//! service manager) or into an ordered plan of cgroup file writes.

pub mod error;
pub mod property;
pub mod memory;
pub mod options;
pub mod testable;
pub mod plan;
pub mod freezer;
pub mod manager;
