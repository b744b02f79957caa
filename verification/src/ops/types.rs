//! Typed results of common query commands.

use vstd::prelude::*;

use crate::types::QmpVersionNumber;

verus! {

/// Response of `query-status`.
///
/// This type models only the most stable fields.
#[derive(Debug, Clone, PartialEq)]
pub struct QueryStatus {
    /// Whether the VM is running.
    pub running: bool,
    /// Single-step mode.
    pub singlestep: bool,
    /// Human-readable status string (e.g. "running", "paused").
    pub status: String,
}

/// Response of `query-version`.
#[derive(Debug, Clone, PartialEq)]
pub struct QueryVersion {
    /// QEMU version numbers.
    pub qemu: QmpVersionNumber,
    /// Package string.
    pub package: String,
}

} // verus!
