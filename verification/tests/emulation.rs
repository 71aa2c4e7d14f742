//! Tests of the emulation context: memory accesses through the TLB,
//! I/O event firing on emulated writes, and CPU-state movement.

use std::cell::RefCell;

use mshv_backend::emulator::{CpuOps, EmulatorCpuState, MshvEmulatorContext, VmmOps};
use mshv_backend::errors::HvError;
use mshv_backend::ioevent::{DataMatch, IoEventAddress, IoEventRegistry};
use mshv_backend::notify::EventNotifier;
use vmm_sys_util::eventfd::EventFd;

struct FakeMem {
    backing: RefCell<Vec<(u64, Vec<u8>)>>,
    fill: u8,
    fail: bool,
}

impl FakeMem {
    fn new(fill: u8) -> FakeMem {
        FakeMem { backing: RefCell::new(Vec::new()), fill, fail: false }
    }
}

impl VmmOps for FakeMem {
    fn mmio_read(&self, _gpa: u64, data: &mut Vec<u8>) -> Result<(), HvError> {
        if self.fail {
            return Err(HvError::BackendFailure);
        }
        let n = data.len();
        data.clear();
        data.resize(n, self.fill);
        Ok(())
    }

    fn mmio_write(&self, gpa: u64, data: &[u8]) -> Result<(), HvError> {
        if self.fail {
            return Err(HvError::BackendFailure);
        }
        self.backing.borrow_mut().push((gpa, data.to_vec()));
        Ok(())
    }
}

struct FakeCpu {
    regs: u32,
    sregs: u16,
    fail_get_sregs: bool,
    fail_set_sregs: bool,
    set_regs_seen: RefCell<Vec<u32>>,
    set_sregs_seen: RefCell<Vec<u16>>,
}

impl FakeCpu {
    fn new(regs: u32, sregs: u16) -> FakeCpu {
        FakeCpu {
            regs,
            sregs,
            fail_get_sregs: false,
            fail_set_sregs: false,
            set_regs_seen: RefCell::new(Vec::new()),
            set_sregs_seen: RefCell::new(Vec::new()),
        }
    }
}

impl CpuOps<u32, u16> for FakeCpu {
    fn get_regs(&self) -> Result<u32, HvError> {
        Ok(self.regs)
    }

    fn set_regs(&self, regs: &u32) -> Result<(), HvError> {
        self.set_regs_seen.borrow_mut().push(*regs);
        Ok(())
    }

    fn get_sregs(&self) -> Result<u16, HvError> {
        if self.fail_get_sregs {
            return Err(HvError::BackendFailure);
        }
        Ok(self.sregs)
    }

    fn set_sregs(&self, sregs: &u16) -> Result<(), HvError> {
        if self.fail_set_sregs {
            return Err(HvError::BackendFailure);
        }
        self.set_sregs_seen.borrow_mut().push(*sregs);
        Ok(())
    }
}

fn mapped_context(gva: u64, gpa: u64) -> MshvEmulatorContext {
    let mut ctx = MshvEmulatorContext::new(0);
    ctx.tlb.add_mapping(gva, gpa).unwrap();
    ctx
}

#[test]
fn read_memory_fails_on_an_unmapped_address() {
    let ctx = MshvEmulatorContext::new(0);
    let mem = FakeMem::new(0xab);
    let mut buf = vec![0u8; 4];
    assert_eq!(
        ctx.read_memory(Some(&mem), 0x1000, &mut buf),
        Err(HvError::UnmappedAddress)
    );
    assert_eq!(buf, vec![0u8; 4]);
}

#[test]
fn read_memory_reads_through_the_translated_address() {
    let ctx = mapped_context(0x1000, 0x9000);
    let mem = FakeMem::new(0xab);
    let mut buf = vec![0u8; 4];
    ctx.read_memory(Some(&mem), 0x1000, &mut buf).unwrap();
    assert_eq!(buf, vec![0xab; 4]);
}

#[test]
fn read_memory_surfaces_a_callback_failure() {
    let ctx = mapped_context(0x1000, 0x9000);
    let mut mem = FakeMem::new(0);
    mem.fail = true;
    let mut buf = vec![0u8; 4];
    assert_eq!(
        ctx.read_memory(Some(&mem), 0x1000, &mut buf),
        Err(HvError::IoAccessFailure)
    );
}

#[test]
fn write_memory_delegates_to_the_callback() {
    let ctx = mapped_context(0x1000, 0x9000);
    let mem = FakeMem::new(0);
    let registry = IoEventRegistry::new();
    ctx.write_memory(Some(&mem), &registry, 0x1000, &[1, 2, 3]).unwrap();
    assert_eq!(mem.backing.borrow().as_slice(), &[(0x9000, vec![1, 2, 3])]);
}

#[test]
fn write_memory_fails_on_an_unmapped_address() {
    let ctx = MshvEmulatorContext::new(0);
    let mem = FakeMem::new(0);
    let registry = IoEventRegistry::new();
    assert_eq!(
        ctx.write_memory(Some(&mem), &registry, 0x1000, &[1]),
        Err(HvError::UnmappedAddress)
    );
    assert!(mem.backing.borrow().is_empty());
}

#[test]
fn write_memory_fires_a_matching_ioevent() {
    let ctx = mapped_context(0x1000, 0x9000);
    let mem = FakeMem::new(0);
    let mut registry = IoEventRegistry::new();
    let efd = EventFd::new(libc::EFD_NONBLOCK).unwrap();
    let fd = EventNotifier::from_event_fd(efd.try_clone().unwrap());
    registry
        .register(&fd, &IoEventAddress::Mmio(0x9000), Some(DataMatch::DataMatch32(0x0a0b0c0d)))
        .unwrap();

    ctx.write_memory(Some(&mem), &registry, 0x1000, &[0x0d, 0x0c, 0x0b, 0x0a]).unwrap();
    assert_eq!(efd.read().unwrap(), 1);
}

#[test]
fn write_memory_skips_a_non_matching_ioevent() {
    let ctx = mapped_context(0x1000, 0x9000);
    let mem = FakeMem::new(0);
    let mut registry = IoEventRegistry::new();
    let efd = EventFd::new(libc::EFD_NONBLOCK).unwrap();
    let fd = EventNotifier::from_event_fd(efd.try_clone().unwrap());
    registry
        .register(&fd, &IoEventAddress::Mmio(0x9000), Some(DataMatch::DataMatch32(0x0a0b0c0d)))
        .unwrap();

    // Wrong value, then wrong width, then wrong address: none fires.
    ctx.write_memory(Some(&mem), &registry, 0x1000, &[0, 0, 0, 0]).unwrap();
    ctx.write_memory(Some(&mem), &registry, 0x1000, &[0x0d, 0x0c]).unwrap();
    assert!(efd.read().is_err());

    // A registration without a match value fires on any write there.
    let mut any = IoEventRegistry::new();
    any.register(&fd, &IoEventAddress::Mmio(0x9000), None).unwrap();
    ctx.write_memory(Some(&mem), &any, 0x1000, &[0xff]).unwrap();
    assert_eq!(efd.read().unwrap(), 1);
}

#[test]
fn cpu_state_rejects_the_wrong_vcpu() {
    let ctx = MshvEmulatorContext::new(2);
    let cpu = FakeCpu::new(7, 8);
    assert_eq!(ctx.cpu_state(&cpu, 0), Err(HvError::CpuIdentityMismatch));
    assert_eq!(
        ctx.set_cpu_state(&cpu, 3, &EmulatorCpuState { regs: 1u32, sregs: 2u16 }),
        Err(HvError::CpuIdentityMismatch)
    );
    assert!(cpu.set_regs_seen.borrow().is_empty());
}

#[test]
fn cpu_state_moves_both_register_sets_as_one_unit() {
    let ctx = MshvEmulatorContext::new(2);
    let cpu = FakeCpu::new(7, 8);
    let state = ctx.cpu_state(&cpu, 2).unwrap();
    assert_eq!((state.regs, state.sregs), (7, 8));

    ctx.set_cpu_state(&cpu, 2, &EmulatorCpuState { regs: 5u32, sregs: 6u16 }).unwrap();
    assert_eq!(cpu.set_regs_seen.borrow().as_slice(), &[5]);
    assert_eq!(cpu.set_sregs_seen.borrow().as_slice(), &[6]);
}

#[test]
fn cpu_state_surfaces_a_failure_on_the_second_call() {
    let ctx = MshvEmulatorContext::new(2);
    let mut cpu = FakeCpu::new(7, 8);
    cpu.fail_get_sregs = true;
    assert_eq!(ctx.cpu_state(&cpu, 2), Err(HvError::BackendFailure));

    cpu.fail_set_sregs = true;
    assert_eq!(
        ctx.set_cpu_state(&cpu, 2, &EmulatorCpuState { regs: 5u32, sregs: 6u16 }),
        Err(HvError::BackendFailure)
    );
    // The first write went through before the second failed; the
    // partial update is surfaced, not rolled back.
    assert_eq!(cpu.set_regs_seen.borrow().as_slice(), &[5]);
    assert!(cpu.set_sregs_seen.borrow().is_empty());
}

#[test]
fn gva_to_gpa_translates_without_an_access() {
    let ctx = mapped_context(0x1000, 0x9000);
    assert_eq!(ctx.gva_to_gpa(0x1000), Ok(0x9000));
    assert_eq!(ctx.gva_to_gpa(0x2000), Err(HvError::UnmappedAddress));
}

#[test]
fn fetch_reads_instruction_bytes_through_the_same_cache() {
    let ctx = mapped_context(0xfff0, 0x9000);
    let mem = FakeMem::new(0x90);
    let mut buf = vec![0u8; 2];
    ctx.fetch(Some(&mem), 0xfff0, &mut buf).unwrap();
    assert_eq!(buf, vec![0x90, 0x90]);
    assert_eq!(
        ctx.fetch(Some(&mem), 0x1234, &mut buf),
        Err(HvError::UnmappedAddress)
    );
}
