//! The emulation context: what an external instruction emulator gets
//! to run one emulation episode for one vCPU. Memory accesses go
//! through the software TLB and then out to the surrounding VMM's
//! MMIO callbacks; emulated writes may also fire a registered I/O
//! event; CPU state moves as one logical unit of general and special
//! registers.

use vstd::prelude::*;
use crate::errors::HvError;
use crate::ioevent::{spec_write_fires, write_fires, IoEventRegistry};
use crate::tlb::{spec_translate, SoftTLB};

verus! {

/// The memory-mapped I/O callbacks the surrounding VMM supplies. An
/// implementation may fail any call; it must hand a read buffer back
/// at its original length.
pub trait VmmOps {
    /// Reads `data.len()` bytes of guest memory at a guest-physical
    /// address into `data`.
    fn mmio_read(&self, gpa: u64, data: &mut Vec<u8>) -> (r: Result<(), HvError>)
        ensures
            final(data)@.len() == old(data)@.len(),
    ;

    /// Writes the bytes of `data` to guest memory at a guest-physical
    /// address.
    fn mmio_write(&self, gpa: u64, data: &[u8]) -> (r: Result<(), HvError>);
}

/// The register accessors of the vCPU this context is bound to, as
/// the kernel backend exposes them. `R` and `S` are the backend's
/// general- and special-register sets, carried through unread.
pub trait CpuOps<R, S> {
    /// Returns the vCPU's general purpose registers.
    fn get_regs(&self) -> (r: Result<R, HvError>);

    /// Sets the vCPU's general purpose registers.
    fn set_regs(&self, regs: &R) -> (r: Result<(), HvError>);

    /// Returns the vCPU's special registers.
    fn get_sregs(&self) -> (r: Result<S, HvError>);

    /// Sets the vCPU's special registers.
    fn set_sregs(&self, sregs: &S) -> (r: Result<(), HvError>);
}

/// The CPU state an emulation episode reads and writes: the general
/// and special register sets, moved together.
#[derive(Clone, Copy, Debug, PartialEq, Eq)]
pub struct EmulatorCpuState<R, S> {
    pub regs: R,
    pub sregs: S,
}

/// One vCPU's emulation context: its index and its private software
/// TLB. The shared I/O event registry and the VMM's callbacks are
/// passed into each access, since they belong to the whole VM.
pub struct MshvEmulatorContext {
    pub vp_index: u8,
    pub tlb: SoftTLB,
}

impl MshvEmulatorContext {
    /// A context bound to one vCPU, with an empty translation cache.
    pub fn new(vp_index: u8) -> (r: MshvEmulatorContext)
        ensures
            r.vp_index == vp_index,
            r.tlb@ == Map::<u64, u64>::empty(),
    {
        MshvEmulatorContext { vp_index, tlb: SoftTLB::new() }
    }

    /// Reads guest memory at a guest-virtual address: translates
    /// through the TLB, then delegates to the VMM's MMIO-read
    /// callback at the translated guest-physical address. A
    /// translation miss and a callback failure are reported
    /// distinctly; the buffer keeps its length.
    pub fn read_memory<O: VmmOps>(
        &self,
        ops: Option<&O>,
        gva: u64,
        data: &mut Vec<u8>,
    ) -> (r: Result<(), HvError>)
        ensures
            final(data)@.len() == old(data)@.len(),
            !self.tlb@.contains_key(gva) ==> r == Err::<(), HvError>(HvError::UnmappedAddress)
                && final(data)@ == old(data)@,
            self.tlb@.contains_key(gva) && ops is None ==> r == Ok::<(), HvError>(())
                && final(data)@ == old(data)@,
            self.tlb@.contains_key(gva) && ops is Some ==> (r == Ok::<(), HvError>(()) || r
                == Err::<(), HvError>(HvError::IoAccessFailure)),
    {
        let gpa = match self.tlb.translate(gva) {
            Ok(gpa) => gpa,
            Err(e) => {
                return Err(e);
            },
        };
        match ops {
            Some(o) => match o.mmio_read(gpa, data) {
                Ok(()) => Ok(()),
                Err(_) => Err(HvError::IoAccessFailure),
            },
            None => Ok(()),
        }
    }

    /// Writes guest memory at a guest-virtual address: translates
    /// through the TLB; then, when the I/O event registry covers the
    /// translated address and the written bytes meet its match value,
    /// signals that registration's notifier; then delegates to the
    /// VMM's MMIO-write callback. A translation miss, a notifier
    /// failure and a callback failure are reported, never swallowed.
    pub fn write_memory<O: VmmOps>(
        &self,
        ops: Option<&O>,
        ioevents: &IoEventRegistry,
        gva: u64,
        data: &[u8],
    ) -> (r: Result<(), HvError>)
        ensures
            !self.tlb@.contains_key(gva) ==> r == Err::<(), HvError>(HvError::UnmappedAddress),
            self.tlb@.contains_key(gva) ==> (r == Ok::<(), HvError>(()) || r == Err::<(), HvError>(
                HvError::IoAccessFailure,
            )),
            self.tlb@.contains_key(gva) && ops is None && (ioevents.mmio_model().contains_key(
                self.tlb@[gva],
            ) ==> !spec_write_fires(ioevents.mmio_model()[self.tlb@[gva]], data@)) ==> r == Ok::<
                (),
                HvError,
            >(()),
    {
        let gpa = match self.tlb.translate(gva) {
            Ok(gpa) => gpa,
            Err(e) => {
                return Err(e);
            },
        };
        if let Some(reg) = ioevents.lookup_mmio(gpa) {
            if write_fires(&reg.data_match, data) {
                if reg.notifier.write(1).is_err() {
                    return Err(HvError::IoAccessFailure);
                }
            }
        }
        match ops {
            Some(o) => match o.mmio_write(gpa, data) {
                Ok(()) => Ok(()),
                Err(_) => Err(HvError::IoAccessFailure),
            },
            None => Ok(()),
        }
    }

    /// Reads the bound vCPU's state, general and special registers as
    /// one unit. Asking for any other vCPU is an identity-mismatch
    /// error; a backend failure on either register set fails the whole
    /// read.
    pub fn cpu_state<R, S, C: CpuOps<R, S>>(&self, cpu: &C, cpu_id: usize) -> (r: Result<
        EmulatorCpuState<R, S>,
        HvError,
    >)
        ensures
            cpu_id != self.vp_index as usize ==> r == Err::<EmulatorCpuState<R, S>, HvError>(
                HvError::CpuIdentityMismatch,
            ),
            cpu_id == self.vp_index as usize ==> (r is Ok || r == Err::<
                EmulatorCpuState<R, S>,
                HvError,
            >(HvError::BackendFailure)),
    {
        if cpu_id != self.vp_index as usize {
            return Err(HvError::CpuIdentityMismatch);
        }
        let regs = match cpu.get_regs() {
            Ok(regs) => regs,
            Err(_) => {
                return Err(HvError::BackendFailure);
            },
        };
        let sregs = match cpu.get_sregs() {
            Ok(sregs) => sregs,
            Err(_) => {
                return Err(HvError::BackendFailure);
            },
        };
        Ok(EmulatorCpuState { regs, sregs })
    }

    /// Writes the bound vCPU's state, general registers first, then
    /// special registers only if the first write succeeded. Asking
    /// for any other vCPU is an identity-mismatch error; a failure on
    /// the second write after the first succeeded is surfaced, not
    /// swallowed — the caller must not assume a partial update was
    /// rolled back.
    pub fn set_cpu_state<R, S, C: CpuOps<R, S>>(
        &self,
        cpu: &C,
        cpu_id: usize,
        state: &EmulatorCpuState<R, S>,
    ) -> (r: Result<(), HvError>)
        ensures
            cpu_id != self.vp_index as usize ==> r == Err::<(), HvError>(
                HvError::CpuIdentityMismatch,
            ),
            cpu_id == self.vp_index as usize ==> (r == Ok::<(), HvError>(()) || r == Err::<
                (),
                HvError,
            >(HvError::BackendFailure)),
    {
        if cpu_id != self.vp_index as usize {
            return Err(HvError::CpuIdentityMismatch);
        }
        if cpu.set_regs(&state.regs).is_err() {
            return Err(HvError::BackendFailure);
        }
        match cpu.set_sregs(&state.sregs) {
            Ok(()) => Ok(()),
            Err(_) => Err(HvError::BackendFailure),
        }
    }

    /// Raw translation: the TLB's answer for a guest-virtual address,
    /// with no access performed.
    pub fn gva_to_gpa(&self, gva: u64) -> (r: Result<u64, HvError>)
        ensures
            r == spec_translate(self.tlb@, gva),
    {
        self.tlb.translate(gva)
    }

    /// Instruction fetch: reads `instruction_bytes.len()` bytes at the
    /// instruction pointer, translated through the same cache and read
    /// through the same callback as any other guest read.
    pub fn fetch<O: VmmOps>(
        &self,
        ops: Option<&O>,
        ip: u64,
        instruction_bytes: &mut Vec<u8>,
    ) -> (r: Result<(), HvError>)
        ensures
            final(instruction_bytes)@.len() == old(instruction_bytes)@.len(),
            !self.tlb@.contains_key(ip) ==> r == Err::<(), HvError>(HvError::UnmappedAddress)
                && final(instruction_bytes)@ == old(instruction_bytes)@,
            self.tlb@.contains_key(ip) && ops is None ==> r == Ok::<(), HvError>(())
                && final(instruction_bytes)@ == old(instruction_bytes)@,
            self.tlb@.contains_key(ip) && ops is Some ==> (r == Ok::<(), HvError>(()) || r
                == Err::<(), HvError>(HvError::IoAccessFailure)),
    {
        self.read_memory(ops, ip, instruction_bytes)
    }
}

} // verus!
