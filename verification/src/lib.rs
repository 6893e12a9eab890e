//! Per-panel state registry and event-delegating table panel for a terminal
//! dashboard.
//!
//! A dashboard may show several instances of the same panel kind at once. The
//! [`disk::DiskState`] registry keeps the interface state of each instance
//! apart, keyed by the instance's identifier, and [`disk::DiskTable`] presents
//! a table primitive to the application shell as a [`component::Component`].

pub mod component;
pub mod disk;
pub mod state;
