//! Event notifiers: the userspace-signalled descriptors behind both
//! irqfd forwarding and I/O event delivery. The descriptor itself is
//! an OS resource, so every operation on it is a thin trusted wrapper
//! over the eventfd wrapper crate; all decisions about when to signal
//! or drain one are made by verified callers.

use vstd::prelude::*;
use vmm_sys_util::eventfd::EventFd;

verus! {

/// `vmm_sys_util::eventfd::EventFd`, a wrapped Linux eventfd. Opaque
/// here: its counter lives in the kernel.
#[verifier::external_type_specification]
#[verifier::external_body]
pub struct ExEventFd(EventFd);

/// `std::io::Error`, the error the eventfd operations report. Carried
/// through opaquely and mapped by callers to this library's errors.
#[verifier::external_type_specification]
#[verifier::external_body]
pub struct ExIoError(std::io::Error);

/// An event notifier owned by this layer: one eventfd descriptor.
#[derive(Debug)]
pub struct EventNotifier {
    fd: EventFd,
}

impl EventNotifier {
    /// Wraps a descriptor handed in by the surrounding process.
    pub fn from_event_fd(fd: EventFd) -> (r: EventNotifier) {
        EventNotifier { fd }
    }

    /// The underlying descriptor, for the surrounding process to wait on.
    pub fn event_fd(&self) -> (r: &EventFd) {
        &self.fd
    }

    /// Relies on `EventFd::new` with the non-blocking flag: allocates a
    /// fresh eventfd with a zero counter, or reports the OS error.
    #[verifier::external_body]
    pub(crate) fn new_nonblocking() -> (r: Result<EventNotifier, std::io::Error>) {
        Ok(EventNotifier { fd: EventFd::new(libc::EFD_NONBLOCK)? })
    }

    /// Relies on `EventFd::try_clone`: a new descriptor sharing the
    /// same kernel counter, so the clone's lifetime is independent of
    /// the original's.
    #[verifier::external_body]
    pub(crate) fn try_clone(&self) -> (r: Result<EventNotifier, std::io::Error>) {
        Ok(EventNotifier { fd: self.fd.try_clone()? })
    }

    /// Relies on `EventFd::write`: adds `v` to the descriptor's
    /// counter, waking any waiter; fails with the OS error (EAGAIN on
    /// a full non-blocking counter).
    #[verifier::external_body]
    pub(crate) fn write(&self, v: u64) -> (r: Result<(), std::io::Error>) {
        self.fd.write(v)
    }
}

} // verus!
