//! The I/O event registry: a shared mapping from a guest I/O address
//! to an optional data-match value and a notification descriptor.
//! Consulted during emulated MMIO writes so a matching write signals
//! userspace instead of trapping to the kernel backend. At most one
//! registration per address; registering again replaces it.

use vstd::prelude::*;
use std::collections::HashMap;
use crate::errors::HvError;
use crate::notify::EventNotifier;

verus! {

broadcast use vstd::std_specs::hash::group_hash_axioms;

/// A guest I/O address: a port-mapped or a memory-mapped location.
#[derive(Clone, Copy, Debug, PartialEq, Eq, Structural)]
pub enum IoEventAddress {
    Pio(u64),
    Mmio(u64),
}

/// The value a registration fires on, with its access width: only a
/// write of this width whose bytes encode this value signals the
/// notifier.
#[derive(Clone, Copy, Debug, PartialEq, Eq, Structural)]
pub enum DataMatch {
    DataMatch32(u32),
    DataMatch64(u64),
}

/// One active registration: the optional match value and the
/// notifier, a descriptor this registry owns independently of the
/// caller's original.
#[derive(Debug)]
pub struct IoEventRegistration {
    pub data_match: Option<DataMatch>,
    pub notifier: EventNotifier,
}

/// Whether a write of the given bytes fires a registration with the
/// given match value: always, when no value is registered; otherwise
/// exactly when the access width matches and the bytes, read as a
/// little-endian value, equal the registered value.
pub open spec fn spec_write_fires(data_match: Option<DataMatch>, bytes: Seq<u8>) -> bool {
    match data_match {
        None => true,
        Some(DataMatch::DataMatch32(v)) => bytes.len() == 4 && spec_le32(bytes) == v,
        Some(DataMatch::DataMatch64(v)) => bytes.len() == 8 && spec_le64(bytes) == v,
    }
}

/// The value four bytes encode, little endian.
pub open spec fn spec_le32(b: Seq<u8>) -> u32
    recommends
        b.len() == 4,
{
    (b[0] as u32) | (b[1] as u32) << 8 | (b[2] as u32) << 16 | (b[3] as u32) << 24
}

/// The value eight bytes encode, little endian.
pub open spec fn spec_le64(b: Seq<u8>) -> u64
    recommends
        b.len() == 8,
{
    (b[0] as u64) | (b[1] as u64) << 8 | (b[2] as u64) << 16 | (b[3] as u64) << 24 | (
    b[4] as u64) << 32 | (b[5] as u64) << 40 | (b[6] as u64) << 48 | (b[7] as u64) << 56
}

/// Reads four bytes as a little-endian value.
pub fn le32(b: &[u8]) -> (r: u32)
    requires
        b@.len() == 4,
    ensures
        r == spec_le32(b@),
{
    (b[0] as u32) | (b[1] as u32) << 8 | (b[2] as u32) << 16 | (b[3] as u32) << 24
}

/// Reads eight bytes as a little-endian value.
pub fn le64(b: &[u8]) -> (r: u64)
    requires
        b@.len() == 8,
    ensures
        r == spec_le64(b@),
{
    (b[0] as u64) | (b[1] as u64) << 8 | (b[2] as u64) << 16 | (b[3] as u64) << 24 | (
    b[4] as u64) << 32 | (b[5] as u64) << 40 | (b[6] as u64) << 48 | (b[7] as u64) << 56
}

/// Decides whether a write of the given bytes fires a registration's
/// match value.
pub fn write_fires(data_match: &Option<DataMatch>, bytes: &[u8]) -> (r: bool)
    ensures
        r == spec_write_fires(*data_match, bytes@),
{
    match data_match {
        None => true,
        Some(DataMatch::DataMatch32(v)) => bytes.len() == 4 && le32(bytes) == *v,
        Some(DataMatch::DataMatch64(v)) => bytes.len() == 8 && le64(bytes) == *v,
    }
}

/// The registry of active I/O event registrations, one map per
/// address space. Shared readers and the exclusive writer are
/// arbitrated by the caller (a reader-writer lock in the surrounding
/// process).
pub struct IoEventRegistry {
    pio: HashMap<u64, IoEventRegistration>,
    mmio: HashMap<u64, IoEventRegistration>,
}

impl IoEventRegistry {
    /// The registered match value at each port-mapped address. The
    /// notifier a registration holds is an opaque OS resource, so the
    /// model of the registry is what it decides with: which addresses
    /// are registered, with which match values.
    pub closed spec fn pio_model(self) -> Map<u64, Option<DataMatch>> {
        self.pio@.map_values(|r: IoEventRegistration| r.data_match)
    }

    /// The registered match value at each memory-mapped address.
    pub closed spec fn mmio_model(self) -> Map<u64, Option<DataMatch>> {
        self.mmio@.map_values(|r: IoEventRegistration| r.data_match)
    }

    /// The model of one address, whichever space it lies in.
    pub open spec fn model_at(self, addr: IoEventAddress) -> Option<Option<DataMatch>> {
        match addr {
            IoEventAddress::Pio(a) => if self.pio_model().contains_key(a) {
                Some(self.pio_model()[a])
            } else {
                None
            },
            IoEventAddress::Mmio(a) => if self.mmio_model().contains_key(a) {
                Some(self.mmio_model()[a])
            } else {
                None
            },
        }
    }

    /// An empty registry.
    pub fn new() -> (r: IoEventRegistry)
        ensures
            r.pio_model() == Map::<u64, Option<DataMatch>>::empty(),
            r.mmio_model() == Map::<u64, Option<DataMatch>>::empty(),
    {
        let r = IoEventRegistry { pio: HashMap::new(), mmio: HashMap::new() };
        proof {
            assert(r.pio_model() =~= Map::<u64, Option<DataMatch>>::empty());
            assert(r.mmio_model() =~= Map::<u64, Option<DataMatch>>::empty());
        }
        r
    }

    /// Registers `fd` for an address: duplicates the caller's
    /// notifier, so the registration's lifetime is independent of the
    /// caller's descriptor, and inserts or replaces the entry for that
    /// address — the latest registration wins. On a duplication
    /// failure the registry is unchanged.
    pub fn register(
        &mut self,
        fd: &EventNotifier,
        addr: &IoEventAddress,
        data_match: Option<DataMatch>,
    ) -> (r: Result<(), HvError>)
        ensures
            match r {
                Ok(()) => match *addr {
                    IoEventAddress::Pio(a) => {
                        &&& final(self).pio_model() == old(self).pio_model().insert(a, data_match)
                        &&& final(self).mmio_model() == old(self).mmio_model()
                    },
                    IoEventAddress::Mmio(a) => {
                        &&& final(self).mmio_model() == old(self).mmio_model().insert(a, data_match)
                        &&& final(self).pio_model() == old(self).pio_model()
                    },
                },
                Err(e) => {
                    &&& e == HvError::BackendFailure
                    &&& final(self).pio_model() == old(self).pio_model()
                    &&& final(self).mmio_model() == old(self).mmio_model()
                },
            },
    {
        let dup = match fd.try_clone() {
            Ok(d) => d,
            Err(_) => {
                return Err(HvError::BackendFailure);
            },
        };
        let reg = IoEventRegistration { data_match, notifier: dup };
        match addr {
            IoEventAddress::Pio(a) => {
                self.pio.insert(*a, reg);
                proof {
                    assert(self.pio_model() =~= old(self).pio_model().insert(*a, data_match));
                }
            },
            IoEventAddress::Mmio(a) => {
                self.mmio.insert(*a, reg);
                proof {
                    assert(self.mmio_model() =~= old(self).mmio_model().insert(*a, data_match));
                }
            },
        }
        Ok(())
    }

    /// Unregisters the entry for an address. Removing an address with
    /// no active registration is an error and leaves the registry
    /// unchanged.
    pub fn unregister(&mut self, addr: &IoEventAddress) -> (r: Result<(), HvError>)
        ensures
            match *addr {
                IoEventAddress::Pio(a) => {
                    &&& final(self).mmio_model() == old(self).mmio_model()
                    &&& old(self).pio_model().contains_key(a) ==> r == Ok::<(), HvError>(())
                        && final(self).pio_model() == old(self).pio_model().remove(a)
                    &&& !old(self).pio_model().contains_key(a) ==> r == Err::<(), HvError>(
                        HvError::RegistrationNotFound,
                    ) && final(self).pio_model() == old(self).pio_model()
                },
                IoEventAddress::Mmio(a) => {
                    &&& final(self).pio_model() == old(self).pio_model()
                    &&& old(self).mmio_model().contains_key(a) ==> r == Ok::<(), HvError>(())
                        && final(self).mmio_model() == old(self).mmio_model().remove(a)
                    &&& !old(self).mmio_model().contains_key(a) ==> r == Err::<(), HvError>(
                        HvError::RegistrationNotFound,
                    ) && final(self).mmio_model() == old(self).mmio_model()
                },
            },
    {
        match addr {
            IoEventAddress::Pio(a) => {
                match self.pio.remove(a) {
                    Some(_) => {
                        proof {
                            assert(self.pio_model() =~= old(self).pio_model().remove(*a));
                        }
                        Ok(())
                    },
                    None => Err(HvError::RegistrationNotFound),
                }
            },
            IoEventAddress::Mmio(a) => {
                match self.mmio.remove(a) {
                    Some(_) => {
                        proof {
                            assert(self.mmio_model() =~= old(self).mmio_model().remove(*a));
                        }
                        Ok(())
                    },
                    None => Err(HvError::RegistrationNotFound),
                }
            },
        }
    }

    /// The registration covering one memory-mapped address, consulted
    /// on the emulated MMIO write path.
    pub fn lookup_mmio(&self, gpa: u64) -> (r: Option<&IoEventRegistration>)
        ensures
            match r {
                Some(reg) => self.mmio_model().contains_key(gpa) && reg.data_match
                    == self.mmio_model()[gpa],
                None => !self.mmio_model().contains_key(gpa),
            },
    {
        let r = self.mmio.get(&gpa);
        proof {
            if self.mmio@.contains_key(gpa) {
                assert(self.mmio_model().contains_key(gpa));
                assert(self.mmio_model()[gpa] == self.mmio@[gpa].data_match);
            } else {
                assert(!self.mmio_model().contains_key(gpa));
            }
        }
        r
    }

    /// The registration covering one address, whichever space it lies in.
    pub fn lookup(&self, addr: &IoEventAddress) -> (r: Option<&IoEventRegistration>)
        ensures
            match r {
                Some(reg) => self.model_at(*addr) == Some(reg.data_match),
                None => self.model_at(*addr) is None,
            },
    {
        match addr {
            IoEventAddress::Pio(a) => {
                let r = self.pio.get(a);
                proof {
                    if self.pio@.contains_key(*a) {
                        assert(self.pio_model().contains_key(*a));
                        assert(self.pio_model()[*a] == self.pio@[*a].data_match);
                    } else {
                        assert(!self.pio_model().contains_key(*a));
                    }
                }
                r
            },
            IoEventAddress::Mmio(a) => self.lookup_mmio(*a),
        }
    }
}

/// Law: registering the same address twice leaves exactly one active
/// registration, the latest — at the model, a second insert of the
/// same key supersedes the first entirely.
pub proof fn lemma_register_latest_wins(
    m: Map<u64, Option<DataMatch>>,
    a: u64,
    first: Option<DataMatch>,
    second: Option<DataMatch>,
)
    ensures
        m.insert(a, first).insert(a, second) == m.insert(a, second),
{
    assert(m.insert(a, first).insert(a, second) =~= m.insert(a, second));
}

} // verus!
