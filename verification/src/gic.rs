//! Interrupt-controller driver logic: bring-up register values and the
//! acknowledge/end-of-interrupt discipline.
//!
//! Bring-up is two-phase — enable the routed group at the distributor, then
//! wake the redistributor by clearing its sleep request and waiting for the
//! children-asleep bit to clear — followed by per-core interface setup. The
//! values written and the bits tested are computed here; the volatile accesses
//! and the spin-wait live in the hardware layer.
//!
//! `IrqSession` tracks the in-service discipline: every acknowledged interrupt
//! receives exactly one end-of-interrupt before the next acknowledge, and a
//! second end-of-interrupt for the same acknowledge is never enabled.

use vstd::prelude::*;

verus! {

/// Distributor base address on this platform.
pub const GICD_BASE: usize = 0x0800_0000;

/// Redistributor base address of the boot core.
pub const GICR_BASE: usize = 0x080A_0000;

/// Distributor control-register offset.
pub const GICD_CTLR: usize = 0x0000;

/// Redistributor waker-register offset.
pub const GICR_WAKER: usize = 0x0014;

/// Priority-mask value that admits every priority.
pub const PRIORITY_MASK_ALL: u64 = 0xFF;

/// Group-1 enable value for the CPU interface.
pub const GROUP1_ENABLE: u64 = 1;

/// Interrupt ids at or above this are special (spurious) and carry no device.
pub const IRQ_ID_LIMIT: u32 = 1023;

/// Distributor control value: affinity routing (bit 4) plus group-1 enable
/// (bit 1).
pub fn gicd_ctlr_enable() -> (r: u32)
    ensures
        r == (1u32 << 4) | (1u32 << 1),
{
    (1u32 << 4) | (1u32 << 1)
}

/// Clears the processor-sleep request (bit 1) in a waker value, leaving the
/// other bits as read.
pub fn waker_clear_sleep(waker: u32) -> (r: u32)
    ensures
        r == waker & !(1u32 << 1),
        r & (1u32 << 1) == 0,
{
    proof {
        let w = waker;
        assert((w & !(1u32 << 1)) & (1u32 << 1) == 0) by (bit_vector);
    }
    waker & !(1u32 << 1)
}

/// True while the redistributor still reports its children asleep (bit 2);
/// the wake-up spin-wait ends when this clears.
pub fn waker_children_asleep(waker: u32) -> (r: bool)
    ensures
        r == (waker & (1u32 << 2) != 0),
{
    waker & (1u32 << 2) != 0
}

/// Enables system-register access to the interrupt interface: sets the SRE
/// bit, leaving the rest as read.
pub fn icc_sre_enable(sre: u64) -> (r: u64)
    ensures
        r == sre | 1,
        r & 1 == 1,
{
    proof {
        let s = sre;
        assert((s | 1) & 1 == 1) by (bit_vector);
    }
    sre | 1
}

/// The 24-bit interrupt id carried in an acknowledge-register value.
pub fn mask_irq_id(raw: u64) -> (r: u32)
    ensures
        r == (raw & 0xFFFFFF) as u32,
        r < 0x1000000,
{
    proof {
        let x = raw;
        assert((x & 0xFFFFFF) < 0x1000000 && (x & 0xFFFFFF) as u32 == (x
            & 0xFFFFFF)) by (bit_vector);
    }
    (raw & 0xFFFFFF) as u32
}

/// The acknowledge/end-of-interrupt bookkeeping of one core: how many
/// interrupts were acknowledged and completed, and which one is in service.
pub struct IrqSession {
    pub acknowledged: u64,
    pub completed: u64,
    pub in_service: Option<u32>,
}

/// What acknowledging does: masks the 24-bit id out of the raw register
/// value, puts it in service and counts it.
pub open spec fn ack_rel(pre: IrqSession, post: IrqSession, raw: u64, irq: u32) -> bool {
    &&& irq == (raw & 0xFFFFFF) as u32
    &&& post.in_service == Some(irq)
    &&& post.acknowledged == pre.acknowledged + 1
    &&& post.completed == pre.completed
}

/// What ending an interrupt does: retires the in-service id and counts the
/// completion.
pub open spec fn eoi_rel(pre: IrqSession, post: IrqSession, irq: u32) -> bool {
    &&& pre.in_service == Some(irq)
    &&& post.in_service == None::<u32>
    &&& post.acknowledged == pre.acknowledged
    &&& post.completed == pre.completed + 1
}

impl IrqSession {
    /// The protocol invariant: the only imbalance between acknowledges and
    /// completions is the one interrupt currently in service.
    pub open spec fn wf(self) -> bool {
        self.acknowledged == self.completed + (if self.in_service is Some {
            1int
        } else {
            0int
        })
    }

    pub fn new() -> (r: IrqSession)
        ensures
            r.wf(),
            r.acknowledged == 0,
            r.completed == 0,
            r.in_service is None,
    {
        IrqSession { acknowledged: 0, completed: 0, in_service: None }
    }

    /// Acknowledges one interrupt from the raw acknowledge-register value;
    /// nothing may already be in service.
    pub fn acknowledge(&mut self, raw: u64) -> (irq: u32)
        requires
            old(self).wf(),
            old(self).in_service is None,
            old(self).acknowledged < u64::MAX,
        ensures
            final(self).wf(),
            ack_rel(*old(self), *final(self), raw, irq),
            irq < 0x1000000,
    {
        let irq = mask_irq_id(raw);
        self.in_service = Some(irq);
        self.acknowledged = self.acknowledged + 1;
        irq
    }

    /// Signals end-of-interrupt for the id in service; the returned value is
    /// what the end-of-interrupt register takes. Only the acknowledged id can
    /// be ended, and only once.
    pub fn end_of_interrupt(&mut self, irq: u32) -> (r: u64)
        requires
            old(self).wf(),
            old(self).in_service == Some(irq),
        ensures
            final(self).wf(),
            eoi_rel(*old(self), *final(self), irq),
            final(self).completed == final(self).acknowledged,
            r == irq as u64,
    {
        self.in_service = None;
        self.completed = self.completed + 1;
        irq as u64
    }
}

/// Each acknowledge is followed by exactly one end-of-interrupt: after the
/// acknowledge exactly one completion is outstanding, after the
/// end-of-interrupt the counts balance, and no end-of-interrupt is enabled
/// for any id until the next acknowledge.
pub proof fn lemma_ack_then_single_eoi(
    s0: IrqSession,
    s1: IrqSession,
    s2: IrqSession,
    raw: u64,
    irq: u32,
)
    requires
        s0.wf(),
        s0.in_service is None,
        ack_rel(s0, s1, raw, irq),
        eoi_rel(s1, s2, irq),
    ensures
        s1.acknowledged == s1.completed + 1,
        s2.completed == s2.acknowledged,
        s2.acknowledged == s0.acknowledged + 1,
        forall|j: u32| s2.in_service != Some(j),
{
}

} // verus!
