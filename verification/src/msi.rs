//! Decoding of a Message-Signalled Interrupt into the delivery
//! semantics of the virtual APIC: delivery mode, destination, vector
//! and trigger fields, per the architectural interrupt-command layout.

use vstd::prelude::*;
use crate::errors::HvError;
use crate::routing::{MshvIrqRouting, MshvIrqRoutingEntry, MshvIrqRoutingMsi};

verus! {

/// The interrupt types this backend can ask the hypervisor to inject,
/// one per supported MSI delivery mode.
#[derive(Clone, Copy, Debug, PartialEq, Eq, Structural)]
pub enum InterruptType {
    Fixed,
    LowestPriority,
    Smi,
    Nmi,
    Init,
    ExtInt,
}

impl InterruptType {
    /// The numeric value of this interrupt type in the hypervisor's
    /// injection interface (which reuses the architectural delivery
    /// mode encoding).
    pub open spec fn spec_value(self) -> u8 {
        match self {
            InterruptType::Fixed => 0,
            InterruptType::LowestPriority => 1,
            InterruptType::Smi => 2,
            InterruptType::Nmi => 4,
            InterruptType::Init => 5,
            InterruptType::ExtInt => 7,
        }
    }

    /// Numeric value of this interrupt type, for the injection call.
    pub fn value(self) -> (r: u8)
        ensures
            r == self.spec_value(),
    {
        match self {
            InterruptType::Fixed => 0,
            InterruptType::LowestPriority => 1,
            InterruptType::Smi => 2,
            InterruptType::Nmi => 4,
            InterruptType::Init => 5,
            InterruptType::ExtInt => 7,
        }
    }
}

/// Delivery mode: bits 10..8 of the message data.
pub open spec fn spec_delivery_mode(message_data: u32) -> u8 {
    ((message_data & 0x700) >> 8) as u8
}

/// Destination APIC id: bits 19..12 of the message address.
pub open spec fn spec_destination(message_address: u32) -> u64 {
    ((message_address >> 12) & 0xff) as u64
}

/// Destination mode: bit 2 of the message address; set means logical.
pub open spec fn spec_destination_mode(message_address: u32) -> bool {
    (message_address >> 2) & 0x1 == 0x1
}

/// Redirection hint: bit 3 of the message address.
pub open spec fn spec_redirection_hint(message_address: u32) -> bool {
    (message_address >> 3) & 0x1 == 0x1
}

/// Vector: bits 7..0 of the message data.
pub open spec fn spec_vector(message_data: u32) -> u8 {
    (message_data & 0xff) as u8
}

/// Trigger mode: bit 15 of the message data; set means level triggered.
pub open spec fn spec_trigger_mode(message_data: u32) -> bool {
    (message_data >> 15) & 0x1 == 0x1
}

/// Level polarity: bit 14 of the message data; set means high active.
/// Meaningful only for level-triggered interrupts.
pub open spec fn spec_level(message_data: u32) -> bool {
    (message_data >> 14) & 0x1 == 0x1
}

/// The interrupt type a delivery mode denotes, if it is one of the
/// architectural modes this backend supports. Reserved modes map to
/// nothing rather than to a fabricated default: the caller must treat
/// an unresolved mode as fatal for that interrupt.
pub open spec fn spec_interrupt_type(delivery_mode: u8) -> Option<InterruptType> {
    if delivery_mode == 0 {
        Some(InterruptType::Fixed)
    } else if delivery_mode == 1 {
        Some(InterruptType::LowestPriority)
    } else if delivery_mode == 2 {
        Some(InterruptType::Smi)
    } else if delivery_mode == 4 {
        Some(InterruptType::Nmi)
    } else if delivery_mode == 5 {
        Some(InterruptType::Init)
    } else if delivery_mode == 7 {
        Some(InterruptType::ExtInt)
    } else {
        None
    }
}

pub fn get_interrupt_type(delivery_mode: u8) -> (r: Option<InterruptType>)
    ensures
        r == spec_interrupt_type(delivery_mode),
{
    match delivery_mode {
        0 => Some(InterruptType::Fixed),
        1 => Some(InterruptType::LowestPriority),
        2 => Some(InterruptType::Smi),
        4 => Some(InterruptType::Nmi),
        5 => Some(InterruptType::Init),
        7 => Some(InterruptType::ExtInt),
        _ => None,
    }
}

pub fn get_destination(message_address: u32) -> (r: u64)
    ensures
        r == spec_destination(message_address),
{
    ((message_address >> 12) & 0xff) as u64
}

pub fn get_destination_mode(message_address: u32) -> (r: bool)
    ensures
        r == spec_destination_mode(message_address),
{
    (message_address >> 2) & 0x1 == 0x1
}

pub fn get_redirection_hint(message_address: u32) -> (r: bool)
    ensures
        r == spec_redirection_hint(message_address),
{
    (message_address >> 3) & 0x1 == 0x1
}

pub fn get_vector(message_data: u32) -> (r: u8)
    ensures
        r == spec_vector(message_data),
{
    (message_data & 0xff) as u8
}

pub fn get_trigger_mode(message_data: u32) -> (r: bool)
    ensures
        r == spec_trigger_mode(message_data),
{
    (message_data >> 15) & 0x1 == 0x1
}

pub fn get_delivery_mode(message_data: u32) -> (r: u8)
    ensures
        r == spec_delivery_mode(message_data),
{
    ((message_data & 0x700) >> 8) as u8
}

pub fn get_level(message_data: u32) -> (r: bool)
    ensures
        r == spec_level(message_data),
{
    (message_data >> 14) & 0x1 == 0x1
}

/// One fully decoded virtual-interrupt request, ready for the
/// hypervisor's injection interface.
#[derive(Clone, Copy, Debug, PartialEq, Eq, Structural)]
pub struct VirtualInterrupt {
    pub interrupt_type: InterruptType,
    pub apic_id: u64,
    pub vector: u32,
    pub level_triggered: bool,
    pub logical_destination_mode: bool,
    pub long_mode: bool,
}

/// Everything the decode of an MSI message yields. A non-zero high
/// address word is a configuration error (this backend assumes all
/// routed MSIs target the low 4 GiB APIC window), reported rather
/// than fabricated around; so is a reserved delivery mode.
pub open spec fn spec_decode_msi(msi: MshvIrqRoutingMsi) -> Result<VirtualInterrupt, HvError> {
    if msi.address_hi != 0 {
        Err(HvError::UnsupportedInterruptGeometry(msi.address_hi))
    } else {
        match spec_interrupt_type(spec_delivery_mode(msi.data)) {
            Some(t) => Ok(
                VirtualInterrupt {
                    interrupt_type: t,
                    apic_id: spec_destination(msi.address_lo),
                    vector: spec_vector(msi.data) as u32,
                    level_triggered: spec_trigger_mode(msi.data),
                    logical_destination_mode: spec_destination_mode(msi.address_lo),
                    long_mode: false,
                },
            ),
            None => Err(HvError::UnsupportedInterruptMode(spec_delivery_mode(msi.data))),
        }
    }
}

/// Decodes one MSI message into a virtual-interrupt request.
pub fn decode_msi(msi: &MshvIrqRoutingMsi) -> (r: Result<VirtualInterrupt, HvError>)
    ensures
        r == spec_decode_msi(*msi),
{
    if msi.address_hi != 0 {
        return Err(HvError::UnsupportedInterruptGeometry(msi.address_hi));
    }
    match get_interrupt_type(get_delivery_mode(msi.data)) {
        Some(t) => Ok(
            VirtualInterrupt {
                interrupt_type: t,
                apic_id: get_destination(msi.address_lo),
                vector: get_vector(msi.data) as u32,
                level_triggered: get_trigger_mode(msi.data),
                logical_destination_mode: get_destination_mode(msi.address_lo),
                long_mode: false,
            },
        ),
        None => Err(HvError::UnsupportedInterruptMode(get_delivery_mode(msi.data))),
    }
}

/// What decoding a whole routing entry yields.
pub open spec fn spec_decode_entry(e: MshvIrqRoutingEntry) -> Result<VirtualInterrupt, HvError> {
    match e.route {
        MshvIrqRouting::Msi(msi) => spec_decode_msi(msi),
    }
}

/// Decodes the route of one GSI routing entry.
pub fn decode_entry(e: &MshvIrqRoutingEntry) -> (r: Result<VirtualInterrupt, HvError>)
    ensures
        r == spec_decode_entry(*e),
{
    match &e.route {
        MshvIrqRouting::Msi(msi) => decode_msi(msi),
    }
}

/// Law: the decoder is a pure function of the message words. Two MSI
/// messages with equal address and data decode to equal results, and
/// every individual field function agrees on them — no other state
/// takes part in the decode.
pub proof fn lemma_decoder_deterministic(a: MshvIrqRoutingMsi, b: MshvIrqRoutingMsi)
    requires
        a.address_lo == b.address_lo,
        a.address_hi == b.address_hi,
        a.data == b.data,
    ensures
        spec_decode_msi(a) == spec_decode_msi(b),
        spec_delivery_mode(a.data) == spec_delivery_mode(b.data),
        spec_destination(a.address_lo) == spec_destination(b.address_lo),
        spec_destination_mode(a.address_lo) == spec_destination_mode(b.address_lo),
        spec_redirection_hint(a.address_lo) == spec_redirection_hint(b.address_lo),
        spec_vector(a.data) == spec_vector(b.data),
        spec_trigger_mode(a.data) == spec_trigger_mode(b.data),
        spec_level(a.data) == spec_level(b.data),
{
}

} // verus!
