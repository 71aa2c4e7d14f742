//! Tests of the I/O event registry and the data-match decision.

use mshv_backend::errors::HvError;
use mshv_backend::ioevent::{
    le32, le64, write_fires, DataMatch, IoEventAddress, IoEventRegistry,
};
use mshv_backend::notify::EventNotifier;
use vmm_sys_util::eventfd::EventFd;

fn notifier_pair() -> (EventFd, EventNotifier) {
    let efd = EventFd::new(libc::EFD_NONBLOCK).unwrap();
    let handle = EventNotifier::from_event_fd(efd.try_clone().unwrap());
    (efd, handle)
}

#[test]
fn register_then_lookup_returns_the_match_value() {
    let mut registry = IoEventRegistry::new();
    let (_efd, fd) = notifier_pair();
    registry
        .register(&fd, &IoEventAddress::Mmio(0x100), Some(DataMatch::DataMatch32(7)))
        .unwrap();
    let reg = registry.lookup(&IoEventAddress::Mmio(0x100)).unwrap();
    assert_eq!(reg.data_match, Some(DataMatch::DataMatch32(7)));
    assert!(registry.lookup(&IoEventAddress::Pio(0x100)).is_none());
    assert!(registry.lookup(&IoEventAddress::Mmio(0x101)).is_none());
}

#[test]
fn register_twice_keeps_only_the_latest() {
    let mut registry = IoEventRegistry::new();
    let (first_efd, first) = notifier_pair();
    let (second_efd, second) = notifier_pair();
    let addr = IoEventAddress::Mmio(0x200);
    registry.register(&first, &addr, Some(DataMatch::DataMatch32(1))).unwrap();
    registry.register(&second, &addr, Some(DataMatch::DataMatch64(2))).unwrap();
    let reg = registry.lookup(&addr).unwrap();
    assert_eq!(reg.data_match, Some(DataMatch::DataMatch64(2)));
    // The latest notifier is the active one: signalling it reaches
    // the descriptor the second registration duplicated.
    reg.notifier.event_fd().write(1).unwrap();
    assert_eq!(second_efd.read().unwrap(), 1);
    assert!(first_efd.read().is_err());
}

#[test]
fn unregister_missing_address_fails_and_changes_nothing() {
    let mut registry = IoEventRegistry::new();
    let (_efd, fd) = notifier_pair();
    registry.register(&fd, &IoEventAddress::Pio(0x10), None).unwrap();
    assert_eq!(
        registry.unregister(&IoEventAddress::Pio(0x11)),
        Err(HvError::RegistrationNotFound)
    );
    assert_eq!(
        registry.unregister(&IoEventAddress::Mmio(0x10)),
        Err(HvError::RegistrationNotFound)
    );
    assert!(registry.lookup(&IoEventAddress::Pio(0x10)).is_some());
}

#[test]
fn unregister_removes_the_registration() {
    let mut registry = IoEventRegistry::new();
    let (_efd, fd) = notifier_pair();
    let addr = IoEventAddress::Mmio(0x300);
    registry.register(&fd, &addr, None).unwrap();
    registry.unregister(&addr).unwrap();
    assert!(registry.lookup(&addr).is_none());
    assert_eq!(registry.unregister(&addr), Err(HvError::RegistrationNotFound));
}

#[test]
fn le_reads_are_little_endian() {
    assert_eq!(le32(&[0x78, 0x56, 0x34, 0x12]), 0x1234_5678);
    assert_eq!(le64(&[1, 0, 0, 0, 0, 0, 0, 0x80]), 0x8000_0000_0000_0001);
}

#[test]
fn write_fires_without_a_match_value_on_any_write() {
    assert!(write_fires(&None, &[0]));
    assert!(write_fires(&None, &[]));
    assert!(write_fires(&None, &[1, 2, 3, 4, 5, 6, 7, 8, 9]));
}

#[test]
fn write_fires_compares_value_and_width() {
    let m32 = Some(DataMatch::DataMatch32(0x1234_5678));
    assert!(write_fires(&m32, &[0x78, 0x56, 0x34, 0x12]));
    assert!(!write_fires(&m32, &[0x78, 0x56, 0x34, 0x13]));
    assert!(!write_fires(&m32, &[0x78, 0x56, 0x34, 0x12, 0]));
    assert!(!write_fires(&m32, &[0x78, 0x56]));

    let m64 = Some(DataMatch::DataMatch64(0x01));
    assert!(write_fires(&m64, &[1, 0, 0, 0, 0, 0, 0, 0]));
    assert!(!write_fires(&m64, &[1, 0, 0, 0]));
    assert!(!write_fires(&m64, &[2, 0, 0, 0, 0, 0, 0, 0]));
}
