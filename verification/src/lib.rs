//! Software support layer for a hardware-assisted hypervisor backend:
//! MSI interrupt decoding, GSI routing, I/O event registration, a
//! per-vCPU software TLB, and the bridging logic an instruction
//! emulator needs to reach guest memory and CPU state.

pub mod errors;
pub mod msi;
pub mod routing;
pub mod tlb;
pub mod notify;
pub mod ioevent;
pub mod irqfd;
pub mod emulator;
pub mod state;
