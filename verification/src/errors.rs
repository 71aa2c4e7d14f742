//! Error taxonomy shared by every component of the backend.

use vstd::prelude::*;

verus! {

/// The ways an operation of this layer can fail.
///
/// Decode failures carry the offending field so a caller can log a
/// precise diagnostic: the unsupported delivery mode, or the non-zero
/// high half of an MSI address (all routed MSIs are assumed to target
/// the low 4 GiB APIC window).
#[derive(Clone, Copy, Debug, PartialEq, Eq, Structural)]
pub enum HvError {
    /// A guest-virtual address with no entry in the software TLB.
    UnmappedAddress,
    /// An MSI delivery mode the decoder cannot map to an interrupt type.
    UnsupportedInterruptMode(u8),
    /// An MSI whose high address word is not zero.
    UnsupportedInterruptGeometry(u32),
    /// An emulation context used for a vCPU other than the one it is bound to.
    CpuIdentityMismatch,
    /// The memory-mapped I/O callback or an event notifier failed.
    IoAccessFailure,
    /// Unregistering an address or GSI that has no active registration.
    RegistrationNotFound,
    /// The underlying backend reported an error.
    BackendFailure,
}

} // verus!
