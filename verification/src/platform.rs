//! The supported operating-system / architecture targets. Detected
//! once at startup by the shell and passed in as a value, so that
//! every path and URL below is a pure lookup in a platform table.

use vstd::prelude::*;

verus! {

/// One supported target.
#[derive(Debug, Clone, Copy, PartialEq, Eq, Structural)]
pub enum Platform {
    /// Windows on x86-64.
    Windows,
    /// macOS on x86-64.
    MacX64,
    /// macOS on AArch64.
    MacArm,
    /// Linux on x86-64.
    LinuxX64,
}

/// Any of the two macOS targets.
pub open spec fn is_mac(p: Platform) -> bool {
    p == Platform::MacX64 || p == Platform::MacArm
}

/// Whether this platform is one of the macOS targets.
pub fn platform_is_mac(p: Platform) -> (r: bool)
    ensures
        r == is_mac(p),
{
    match p {
        Platform::MacX64 => true,
        Platform::MacArm => true,
        _ => false,
    }
}

} // verus!
