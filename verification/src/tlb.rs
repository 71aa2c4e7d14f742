//! A software-emulated TLB: a per-vCPU cache of guest-virtual to
//! guest-physical translations, filled by whatever component learns a
//! translation and consulted by the instruction emulator. A mapping is
//! authoritative until the whole cache is flushed; there is no
//! eviction and no fallback translation path here.

use vstd::prelude::*;
use std::collections::HashMap;
use crate::errors::HvError;

verus! {

broadcast use vstd::std_specs::hash::group_hash_axioms;

/// What translating an address on a given cache yields: the mapped
/// guest-physical address, or an unmapped-address error.
pub open spec fn spec_translate(m: Map<u64, u64>, gva: u64) -> Result<u64, HvError> {
    if m.contains_key(gva) {
        Ok(m[gva])
    } else {
        Err(HvError::UnmappedAddress)
    }
}

/// The software TLB. Owned by one vCPU's emulation path and never
/// shared across threads.
#[derive(Clone)]
pub struct SoftTLB {
    addr_map: HashMap<u64, u64>,
}

impl View for SoftTLB {
    type V = Map<u64, u64>;

    closed spec fn view(&self) -> Map<u64, u64> {
        self.addr_map@
    }
}

impl SoftTLB {
    /// An empty cache.
    pub fn new() -> (r: SoftTLB)
        ensures
            r@ == Map::<u64, u64>::empty(),
    {
        SoftTLB { addr_map: HashMap::new() }
    }

    /// Adds a gva -> gpa mapping: an insert-or-overwrite that always
    /// succeeds, so adding the same mapping again changes nothing.
    pub fn add_mapping(&mut self, gva: u64, gpa: u64) -> (r: Result<(), HvError>)
        ensures
            final(self)@ == old(self)@.insert(gva, gpa),
            r == Ok::<(), HvError>(()),
    {
        self.addr_map.insert(gva, gpa);
        Ok(())
    }

    /// The gva -> gpa translation itself: exactly the cached mapping,
    /// or an unmapped-address error when none exists.
    pub fn translate(&self, gva: u64) -> (r: Result<u64, HvError>)
        ensures
            r == spec_translate(self@, gva),
    {
        match self.addr_map.get(&gva) {
            Some(gpa) => Ok(*gpa),
            None => Err(HvError::UnmappedAddress),
        }
    }

    /// Flushes the cache: all mappings are removed. Used on context
    /// switches and guest TLB-invalidating events.
    pub fn flush(&mut self) -> (r: Result<(), HvError>)
        ensures
            final(self)@ == Map::<u64, u64>::empty(),
            r == Ok::<(), HvError>(()),
    {
        self.addr_map.clear();
        Ok(())
    }
}

/// Law: inserting a mapping and immediately translating it round
/// trips — the translation returns exactly the inserted gpa — and on
/// a flushed cache every translation fails with the unmapped-address
/// error.
pub proof fn lemma_tlb_round_trip(m: Map<u64, u64>, gva: u64, gpa: u64)
    ensures
        spec_translate(m.insert(gva, gpa), gva) == Ok::<u64, HvError>(gpa),
        spec_translate(Map::<u64, u64>::empty(), gva) == Err::<u64, HvError>(
            HvError::UnmappedAddress,
        ),
{
}

} // verus!
