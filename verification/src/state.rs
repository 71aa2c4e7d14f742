//! Hypervisor-specific VM state surfaced to save/restore, and the
//! construction of guest-physical memory region descriptors.

use vstd::prelude::*;

verus! {

/// The backend state persisted for a VM: the guest address of the
/// hypercall page. Read and written as a unit.
#[derive(Debug, Default, Copy, Clone, PartialEq, Eq, Structural)]
pub struct HvState {
    pub hypercall_page: u64,
}

pub type VmState = HvState;

impl HvState {
    /// The initial state of a fresh VM: no hypercall page configured.
    pub fn new() -> (r: HvState)
        ensures
            r.hypercall_page == 0,
    {
        HvState { hypercall_page: 0 }
    }

    /// The whole state, as one record.
    pub fn state(&self) -> (r: HvState)
        ensures
            r == *self,
    {
        *self
    }

    /// Replaces the state with the given record.
    pub fn set_state(&mut self, state: &HvState)
        ensures
            final(self).hypercall_page == state.hypercall_page,
    {
        self.hypercall_page = state.hypercall_page;
    }
}

/// Pages are 4 KiB: a guest-physical address shifts right by this to
/// its page frame number.
pub const PAGE_SHIFT: u64 = 12;

/// Mapping flag: the region is readable by the guest.
pub const HV_MAP_GPA_READABLE: u32 = 1;

/// Mapping flag: the region is writable by the guest.
pub const HV_MAP_GPA_WRITABLE: u32 = 2;

/// Mapping flag: the region is executable by the guest.
pub const HV_MAP_GPA_EXECUTABLE: u32 = 12;

/// One guest-physical memory region as the mapping call takes it:
/// access flags, the first page frame number, the byte size and the
/// backing userspace address.
#[derive(Clone, Copy, Debug, PartialEq, Eq, Structural)]
pub struct UserMemoryRegion {
    pub flags: u32,
    pub guest_pfn: u64,
    pub size: u64,
    pub userspace_addr: u64,
}

/// The flags a region is mapped with: always readable and executable,
/// and writable exactly when it is not read-only.
pub open spec fn spec_region_flags(readonly: bool) -> u32 {
    if readonly {
        HV_MAP_GPA_READABLE | HV_MAP_GPA_EXECUTABLE
    } else {
        HV_MAP_GPA_READABLE | HV_MAP_GPA_EXECUTABLE | HV_MAP_GPA_WRITABLE
    }
}

/// Builds the descriptor of one guest-physical memory region:
/// readable and executable always, writable unless read-only, placed
/// at the page frame of its guest-physical address.
pub fn make_user_memory_region(
    guest_phys_addr: u64,
    memory_size: u64,
    userspace_addr: u64,
    readonly: bool,
) -> (r: UserMemoryRegion)
    ensures
        r.flags == spec_region_flags(readonly),
        r.guest_pfn == guest_phys_addr >> PAGE_SHIFT,
        r.size == memory_size,
        r.userspace_addr == userspace_addr,
{
    let mut flags: u32 = HV_MAP_GPA_READABLE | HV_MAP_GPA_EXECUTABLE;
    if !readonly {
        flags = flags | HV_MAP_GPA_WRITABLE;
    }
    UserMemoryRegion {
        flags,
        guest_pfn: guest_phys_addr >> PAGE_SHIFT,
        size: memory_size,
        userspace_addr,
    }
}

} // verus!
