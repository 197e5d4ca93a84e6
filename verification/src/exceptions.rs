//! Exception-vector dispatch decisions.
//!
//! The installed vector table has sixteen slots — four exception classes for
//! each of four origin contexts — of which only the kernel-context synchronous
//! and IRQ slots lead anywhere; the rest halt. The synchronous handler reads
//! the syndrome register, and a supervisor call resumes past the trapping
//! instruction while every other class is fatal by design. The IRQ handler
//! acknowledges, dispatches by id range — the timer id reloads the timer, the
//! platform-device range goes to the network device, anything else in range is
//! only logged — and always signals exactly one end-of-interrupt.

use vstd::prelude::*;
use crate::gic::IrqSession;

verus! {

/// The four exception classes a vector table distinguishes.
#[derive(Clone, Copy, PartialEq, Eq, Structural, Debug)]
pub enum ExceptionClass {
    Synchronous,
    Irq,
    Fiq,
    SError,
}

/// Which class a vector-table slot (0..16) belongs to: each origin context
/// owns four consecutive slots in this order.
pub fn vector_slot_class(slot: usize) -> (c: ExceptionClass)
    requires
        slot < 16,
    ensures
        c == (match slot % 4 {
            0 => ExceptionClass::Synchronous,
            1 => ExceptionClass::Irq,
            2 => ExceptionClass::Fiq,
            _ => ExceptionClass::SError,
        }),
{
    match slot % 4 {
        0 => ExceptionClass::Synchronous,
        1 => ExceptionClass::Irq,
        2 => ExceptionClass::Fiq,
        _ => ExceptionClass::SError,
    }
}

/// Only the kernel-context (current level, dedicated stack) synchronous and
/// IRQ slots dispatch to a handler; every other slot halts where it lands.
pub fn vector_slot_handled(slot: usize) -> (r: bool)
    requires
        slot < 16,
    ensures
        r == (slot == 4 || slot == 5),
{
    slot == 4 || slot == 5
}

/// A vector base must be 2048-byte aligned for the base-address register.
pub fn vbar_misaligned(vbar: u64) -> (r: bool)
    ensures
        r == (vbar & 0x7FF != 0),
{
    vbar & 0x7FF != 0
}

/// Exception-class field of the syndrome register, bits 31:26.
pub fn exception_class(esr: u64) -> (r: u64)
    ensures
        r == (esr >> 26) & 0x3F,
        r < 0x40,
{
    proof {
        let e = esr;
        assert((e >> 26) & 0x3F < 0x40) by (bit_vector);
    }
    (esr >> 26) & 0x3F
}

/// Exception class of a 64-bit supervisor call.
pub const EC_SVC64: u64 = 0x15;

/// Width of one instruction: how far the return address advances to resume
/// past a trapped instruction.
pub const INSTRUCTION_WIDTH: u64 = 4;

/// What the synchronous handler does with a trap.
#[derive(Clone, Copy, PartialEq, Eq, Structural, Debug)]
pub enum SyncAction {
    /// A supervisor call: resume at the instruction after the trapping one.
    ResumeAt(u64),
    /// Every other synchronous class: dump diagnostics and halt.
    FatalHalt,
}

/// Decides the synchronous handler's action from the syndrome and the saved
/// return address: a supervisor call advances the return address by one
/// instruction and resumes; everything else is fatal.
pub fn sync_action(esr: u64, elr: u64) -> (a: SyncAction)
    requires
        elr + INSTRUCTION_WIDTH <= u64::MAX,
    ensures
        a == (if (esr >> 26) & 0x3F == EC_SVC64 {
            SyncAction::ResumeAt((elr + INSTRUCTION_WIDTH) as u64)
        } else {
            SyncAction::FatalHalt
        }),
{
    let ec = exception_class(esr);
    if ec == EC_SVC64 {
        SyncAction::ResumeAt(elr + INSTRUCTION_WIDTH)
    } else {
        SyncAction::FatalHalt
    }
}

/// The timer's interrupt id.
pub const IRQ_TIMER: u32 = 30;

/// First and last interrupt ids of the platform's VirtIO slots.
pub const IRQ_VIRTIO_FIRST: u32 = 48;

pub const IRQ_VIRTIO_LAST: u32 = 96;

/// What the IRQ handler does for one acknowledged id.
#[derive(Clone, Copy, PartialEq, Eq, Structural, Debug)]
pub enum IrqAction {
    /// The timer fired: reload it with the counter frequency (the heartbeat).
    TimerReload,
    /// A platform-device id: run the network device's interrupt handler.
    NetInterrupt,
    /// Any other id below the spurious threshold: log it, nothing more.
    ExternalLog,
    /// A special id: no device behind it.
    Spurious,
}

/// The id-range dispatch of the IRQ handler.
pub open spec fn spec_classify_irq(irq: u32) -> IrqAction {
    if irq == IRQ_TIMER {
        IrqAction::TimerReload
    } else if IRQ_VIRTIO_FIRST <= irq && irq <= IRQ_VIRTIO_LAST {
        IrqAction::NetInterrupt
    } else if irq < crate::gic::IRQ_ID_LIMIT {
        IrqAction::ExternalLog
    } else {
        IrqAction::Spurious
    }
}

/// Dispatches one interrupt id by numeric range: the timer id reloads the
/// timer and in particular does not go to the network handler; the VirtIO id
/// range goes to the network device; other ordinary ids are logged only.
pub fn classify_irq(irq: u32) -> (a: IrqAction)
    ensures
        a == spec_classify_irq(irq),
{
    if irq == IRQ_TIMER {
        IrqAction::TimerReload
    } else if IRQ_VIRTIO_FIRST <= irq && irq <= IRQ_VIRTIO_LAST {
        IrqAction::NetInterrupt
    } else if irq < crate::gic::IRQ_ID_LIMIT {
        IrqAction::ExternalLog
    } else {
        IrqAction::Spurious
    }
}

/// The verified core of the IRQ handler: acknowledge, dispatch by range, and
/// signal exactly one end-of-interrupt — on every path, whatever the id. The
/// caller performs the returned action and writes the returned id to the
/// end-of-interrupt register.
pub fn dispatch_irq(s: &mut IrqSession, raw_iar: u64) -> (r: (IrqAction, u32))
    requires
        old(s).wf(),
        old(s).in_service is None,
        old(s).acknowledged < u64::MAX,
    ensures
        final(s).wf(),
        final(s).in_service is None,
        final(s).acknowledged == old(s).acknowledged + 1,
        final(s).completed == old(s).completed + 1,
        final(s).completed == final(s).acknowledged,
        r.1 == (raw_iar & 0xFFFFFF) as u32,
        r.0 == spec_classify_irq(r.1),
{
    let irq = s.acknowledge(raw_iar);
    let action = classify_irq(irq);
    s.end_of_interrupt(irq);
    (action, irq)
}

} // verus!
