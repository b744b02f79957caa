use vstd::prelude::*;

verus! {

/// QMP greeting message.
///
/// QMP sends this as the very first JSON object after the socket is connected.
#[derive(Debug, Clone, PartialEq, Eq)]
pub struct Greeting {
    /// QMP meta information (the wire field `QMP`).
    pub qmp: QmpInfo,
}

/// `QMP` section in the greeting.
#[derive(Debug, Clone, PartialEq, Eq)]
pub struct QmpInfo {
    /// Server version.
    pub version: QmpVersion,
    /// Supported capabilities.
    pub capabilities: Vec<String>,
}

/// QEMU version information.
#[derive(Debug, Clone, PartialEq, Eq)]
pub struct QmpVersion {
    /// QEMU package version.
    pub qemu: QmpVersionNumber,
    /// Package string (when available).
    pub package: String,
}

/// Numeric version.
#[derive(Debug, Clone, Copy, PartialEq, Eq, Structural)]
pub struct QmpVersionNumber {
    /// Major version.
    pub major: u64,
    /// Minor version.
    pub minor: u64,
    /// Micro version.
    pub micro: u64,
}

} // verus!
