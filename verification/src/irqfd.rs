//! Irqfd forwarding: each registered descriptor gets a dedicated
//! control loop that waits on the descriptor and a private kill
//! signal. The waiting itself is the surrounding process's work; this
//! module holds the registration bookkeeping and the whole decision
//! the loop takes on each wakeup — from the raw wakeup word to the
//! virtual interrupt to inject, or the reason not to.

use vstd::prelude::*;
use std::collections::HashMap;
use crate::errors::HvError;
use crate::msi::{spec_decode_entry, decode_entry, VirtualInterrupt};
use crate::notify::EventNotifier;
use crate::routing::MshvIrqRoutingEntry;

verus! {

broadcast use vstd::std_specs::hash::group_hash_axioms;

/// The wakeup tag registered for the kill descriptor.
pub const KILL_EVENT: u16 = 1;

/// The wakeup tag registered for the guest-signal descriptor.
pub const IRQFD_EVENT: u16 = 2;

/// What one wakeup of a control loop means.
#[derive(Clone, Copy, Debug, PartialEq, Eq, Structural)]
pub enum IrqfdWake {
    /// The private kill descriptor is ready: the loop must stop.
    Kill,
    /// The guest-signal descriptor is ready: an interrupt is requested.
    Signal,
    /// A tag this loop never registered.
    Unknown,
}

/// The meaning of a wakeup word: its low 16 bits are the tag the
/// descriptor was registered under.
pub open spec fn spec_classify_wake(data: u64) -> IrqfdWake {
    if (data & 0xffff) as u16 == KILL_EVENT {
        IrqfdWake::Kill
    } else if (data & 0xffff) as u16 == IRQFD_EVENT {
        IrqfdWake::Signal
    } else {
        IrqfdWake::Unknown
    }
}

/// Classifies one wakeup word.
pub fn classify_wake(data: u64) -> (r: IrqfdWake)
    ensures
        r == spec_classify_wake(data),
{
    match (data & 0xffff) as u16 {
        KILL_EVENT => IrqfdWake::Kill,
        IRQFD_EVENT => IrqfdWake::Signal,
        _ => IrqfdWake::Unknown,
    }
}

/// What a control loop does after one wakeup.
#[derive(Clone, Copy, Debug, PartialEq, Eq, Structural)]
pub enum IrqfdAction {
    /// Stop: the registration was torn down. Only the kill descriptor
    /// ever causes this.
    Shutdown,
    /// Ask the hypervisor to inject this interrupt, then keep waiting.
    Deliver(VirtualInterrupt),
    /// No route for this GSI: drop the event with a diagnostic and
    /// keep waiting. An expected race with a routing update, not an
    /// error.
    DropNoRoute,
    /// The route exists but cannot be decoded: abort delivery of this
    /// event loudly, and keep waiting.
    Reject(HvError),
    /// A wakeup this loop never registered: ignore it.
    Ignore,
}

/// The decision a signal wakeup leads to, given the route the table
/// holds for this loop's GSI at that moment.
pub open spec fn spec_signal_decision(route: Option<MshvIrqRoutingEntry>) -> IrqfdAction {
    match route {
        None => IrqfdAction::DropNoRoute,
        Some(e) => match spec_decode_entry(e) {
            Ok(vi) => IrqfdAction::Deliver(vi),
            Err(err) => IrqfdAction::Reject(err),
        },
    }
}

/// The whole decision of one wakeup.
pub open spec fn spec_irqfd_step(data: u64, route: Option<MshvIrqRoutingEntry>) -> IrqfdAction {
    match spec_classify_wake(data) {
        IrqfdWake::Kill => IrqfdAction::Shutdown,
        IrqfdWake::Signal => spec_signal_decision(route),
        IrqfdWake::Unknown => IrqfdAction::Ignore,
    }
}

/// Decides what one wakeup of a control loop does: a kill wakeup
/// stops the loop; a signal wakeup delivers the decoded route of this
/// loop's GSI, or drops the event when the table holds none, or
/// rejects it when the route does not decode; anything else is
/// ignored. The caller drains the signalled descriptor and performs
/// the action; a failed injection never stops the loop.
pub fn irqfd_step(data: u64, route: Option<MshvIrqRoutingEntry>) -> (r: IrqfdAction)
    ensures
        r == spec_irqfd_step(data, route),
{
    match classify_wake(data) {
        IrqfdWake::Kill => IrqfdAction::Shutdown,
        IrqfdWake::Signal => match route {
            None => IrqfdAction::DropNoRoute,
            Some(e) => match decode_entry(&e) {
                Ok(vi) => IrqfdAction::Deliver(vi),
                Err(err) => IrqfdAction::Reject(err),
            },
        },
        IrqfdWake::Unknown => IrqfdAction::Ignore,
    }
}

/// One active irqfd registration: the duplicated guest-signal
/// descriptor and the private kill descriptor whose signalling stops
/// the forwarding loop.
#[derive(Debug)]
pub struct IrqfdRegistration {
    pub signal: EventNotifier,
    pub kill: EventNotifier,
}

/// What a forwarding loop needs: its GSI and its own handles on the
/// two descriptors it waits on.
#[derive(Debug)]
pub struct IrqfdWorker {
    pub gsi: u32,
    pub irqfd: EventNotifier,
    pub kill: EventNotifier,
}

/// The bookkeeping of active irqfd registrations, keyed by GSI: one
/// forwarding loop per registered GSI.
pub struct IrqfdRegistry {
    irqfds: HashMap<u32, IrqfdRegistration>,
}

impl IrqfdRegistry {
    /// The set of GSIs with an active registration.
    pub closed spec fn gsis(self) -> Set<u32> {
        self.irqfds@.dom()
    }

    /// An empty registry.
    pub fn new() -> (r: IrqfdRegistry)
        ensures
            r.gsis() == Set::<u32>::empty(),
    {
        let r = IrqfdRegistry { irqfds: HashMap::new() };
        proof {
            assert(r.gsis() =~= Set::<u32>::empty());
        }
        r
    }

    /// Registers `fd` to forward `gsi`: duplicates the descriptor,
    /// creates the private kill descriptor, records both, and returns
    /// the handles a forwarding loop runs on. Registering a GSI again
    /// replaces its record. On any descriptor failure the registry is
    /// unchanged.
    pub fn register(&mut self, fd: &EventNotifier, gsi: u32) -> (r: Result<IrqfdWorker, HvError>)
        ensures
            match r {
                Ok(w) => w.gsi == gsi && final(self).gsis() == old(self).gsis().insert(gsi),
                Err(e) => e == HvError::BackendFailure && final(self).gsis() == old(self).gsis(),
            },
    {
        let dup_fd = match fd.try_clone() {
            Ok(d) => d,
            Err(_) => {
                return Err(HvError::BackendFailure);
            },
        };
        let kill_fd = match EventNotifier::new_nonblocking() {
            Ok(k) => k,
            Err(_) => {
                return Err(HvError::BackendFailure);
            },
        };
        let worker_kill = match kill_fd.try_clone() {
            Ok(k) => k,
            Err(_) => {
                return Err(HvError::BackendFailure);
            },
        };
        let worker_irqfd = match fd.try_clone() {
            Ok(d) => d,
            Err(_) => {
                return Err(HvError::BackendFailure);
            },
        };
        self.irqfds.insert(gsi, IrqfdRegistration { signal: dup_fd, kill: kill_fd });
        proof {
            assert(self.gsis() =~= old(self).gsis().insert(gsi));
        }
        Ok(IrqfdWorker { gsi, irqfd: worker_irqfd, kill: worker_kill })
    }

    /// Unregisters `gsi`: removes its record and signals the kill
    /// descriptor, which stops the forwarding loop on its next wakeup.
    /// This does not wait for the loop to exit. Unregistering a GSI
    /// with no active registration is an error and changes nothing.
    pub fn unregister(&mut self, gsi: u32) -> (r: Result<(), HvError>)
        ensures
            old(self).gsis().contains(gsi) ==> final(self).gsis() == old(self).gsis().remove(gsi)
                && (r == Ok::<(), HvError>(()) || r == Err::<(), HvError>(HvError::BackendFailure)),
            !old(self).gsis().contains(gsi) ==> r == Err::<(), HvError>(
                HvError::RegistrationNotFound,
            ) && final(self).gsis() == old(self).gsis(),
    {
        match self.irqfds.remove(&gsi) {
            Some(rec) => {
                proof {
                    assert(self.gsis() =~= old(self).gsis().remove(gsi));
                }
                match rec.kill.write(1) {
                    Ok(()) => Ok(()),
                    Err(_) => Err(HvError::BackendFailure),
                }
            },
            None => {
                proof {
                    assert(self.gsis() =~= old(self).gsis());
                }
                Err(HvError::RegistrationNotFound)
            },
        }
    }
}

} // verus!
