//! GSI routing: the mapping from a Global System Interrupt number to
//! the MSI route that delivers it. The whole table is replaced as a
//! snapshot on every routing update; there is no partial-update path.

use vstd::prelude::*;
use std::collections::HashMap;
use crate::errors::HvError;

verus! {

broadcast use vstd::std_specs::hash::group_hash_axioms;

/// The MSI message of one route: the 32-bit address pair and the data
/// word a device would write to signal the interrupt.
#[derive(Clone, Copy, Debug, PartialEq, Eq, Structural)]
pub struct MshvIrqRoutingMsi {
    pub address_lo: u32,
    pub address_hi: u32,
    pub data: u32,
}

/// The kinds of route a GSI can carry. MSI is the only kind this
/// backend emulates.
#[derive(Clone, Copy, Debug, PartialEq, Eq, Structural)]
pub enum MshvIrqRouting {
    Msi(MshvIrqRoutingMsi),
}

/// One routing-table entry: a GSI number and its route.
#[derive(Clone, Copy, Debug, PartialEq, Eq, Structural)]
pub struct MshvIrqRoutingEntry {
    pub gsi: u32,
    pub route: MshvIrqRouting,
}

pub type IrqRoutingEntry = MshvIrqRoutingEntry;

/// The table a list of routing entries denotes: entries are folded in
/// order, so the last entry for a duplicate GSI wins. The result
/// depends on the list alone, never on any earlier table contents.
pub open spec fn spec_routes_of(entries: Seq<MshvIrqRoutingEntry>) -> Map<u32, MshvIrqRoutingEntry>
    decreases entries.len(),
{
    if entries.len() == 0 {
        Map::empty()
    } else {
        spec_routes_of(entries.drop_last()).insert(entries.last().gsi, entries.last())
    }
}

/// What a lookup returns on a given table.
pub open spec fn spec_lookup(m: Map<u32, MshvIrqRoutingEntry>, gsi: u32) -> Option<MshvIrqRoutingEntry> {
    if m.contains_key(gsi) {
        Some(m[gsi])
    } else {
        None
    }
}

/// The GSI routing table. Shared readers and the exclusive writer are
/// arbitrated by the caller (a reader-writer lock in the surrounding
/// process); this type holds the table itself.
pub struct GsiRoutingTable {
    routes: HashMap<u32, MshvIrqRoutingEntry>,
}

impl View for GsiRoutingTable {
    type V = Map<u32, MshvIrqRoutingEntry>;

    closed spec fn view(&self) -> Map<u32, MshvIrqRoutingEntry> {
        self.routes@
    }
}

impl GsiRoutingTable {
    /// An empty table.
    pub fn new() -> (r: GsiRoutingTable)
        ensures
            r@ == Map::<u32, MshvIrqRoutingEntry>::empty(),
    {
        GsiRoutingTable { routes: HashMap::new() }
    }

    /// Replaces the whole table with the given entries: stale routes
    /// are dropped, and for a duplicate GSI the last entry wins. The
    /// resulting table is a function of `entries` alone.
    pub fn replace(&mut self, entries: &[MshvIrqRoutingEntry]) -> (r: Result<(), HvError>)
        ensures
            final(self)@ == spec_routes_of(entries@),
            r == Ok::<(), HvError>(()),
    {
        self.routes.clear();
        let n = entries.len();
        assert(entries@.take(0) =~= Seq::<MshvIrqRoutingEntry>::empty());
        for i in 0..n
            invariant
                n == entries@.len(),
                self.routes@ == spec_routes_of(entries@.take(i as int)),
        {
            let e = entries[i];
            self.routes.insert(e.gsi, e);
            proof {
                let t = entries@.take(i + 1);
                assert(t.drop_last() =~= entries@.take(i as int));
                assert(t.last() == entries@[i as int]);
            }
        }
        proof {
            assert(entries@.take(n as int) =~= entries@);
        }
        Ok(())
    }

    /// Looks a GSI up, returning its entry if one is routed.
    pub fn lookup(&self, gsi: u32) -> (r: Option<MshvIrqRoutingEntry>)
        ensures
            r == spec_lookup(self@, gsi),
    {
        match self.routes.get(&gsi) {
            Some(e) => Some(*e),
            None => None,
        }
    }
}

/// The greatest index at which `entries` routes `gsi`, on lists that
/// route it somewhere.
pub open spec fn spec_last_index_for(entries: Seq<MshvIrqRoutingEntry>, gsi: u32) -> int
    decreases entries.len(),
{
    if entries.len() == 0 {
        -1
    } else if entries.last().gsi == gsi {
        entries.len() - 1
    } else {
        spec_last_index_for(entries.drop_last(), gsi)
    }
}

/// Law: a replace is an atomic snapshot, functionally. The table built
/// from a list of entries contains a GSI exactly when some entry of
/// that list routes it, and the route it holds is the entry at the
/// last such position — so every route in the table comes from this
/// list, never from an earlier one, and duplicates resolve last-wins.
pub proof fn lemma_replace_last_wins(entries: Seq<MshvIrqRoutingEntry>, gsi: u32)
    ensures
        spec_routes_of(entries).contains_key(gsi) <==> exists|i: int|
            0 <= i < entries.len() && entries[i].gsi == gsi,
        spec_routes_of(entries).contains_key(gsi) ==> {
            let j = spec_last_index_for(entries, gsi);
            &&& 0 <= j < entries.len()
            &&& entries[j].gsi == gsi
            &&& spec_routes_of(entries)[gsi] == entries[j]
            &&& forall|i: int| j < i < entries.len() ==> entries[i].gsi != gsi
        },
    decreases entries.len(),
{
    if entries.len() == 0 {
    } else {
        lemma_replace_last_wins(entries.drop_last(), gsi);
        if entries.last().gsi == gsi {
        } else {
            assert(forall|i: int|
                0 <= i < entries.len() - 1 ==> entries.drop_last()[i] == entries[i]);
            if spec_routes_of(entries).contains_key(gsi) {
                let j = spec_last_index_for(entries.drop_last(), gsi);
                assert(spec_last_index_for(entries, gsi) == j);
            }
        }
    }
}

} // verus!
