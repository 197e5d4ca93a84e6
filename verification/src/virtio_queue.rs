//! VirtIO descriptor-ring model.
//!
//! A virtqueue is three exclusively owned regions: a descriptor table, an
//! available ring the driver fills, and a used ring the device fills, plus the
//! negotiated size and a locally tracked last-consumed index. Here each region
//! is a fixed-capacity array owned by the `VirtQueue` aggregate, and every
//! cross-reference (a slot id in either ring) is a plain integer index, so
//! ring arithmetic is bounds-checked data access rather than pointer chasing.
//!
//! The central liveness invariant is that `last_used_idx` only ever advances
//! forward and never overtakes the device-published used index: the number of
//! completions the driver has not yet consumed, `pending`, stays between 0 and
//! the ring size.

use vstd::prelude::*;

verus! {

/// Marks a descriptor as device-writable (an RX buffer).
pub const VIRTQ_DESC_F_WRITE: u16 = 2;

/// One descriptor-table entry: a buffer's address (an arena offset here), its
/// length, its flags and a chain link.
#[derive(Clone, Copy, PartialEq, Eq, Structural, Debug)]
pub struct VirtqDesc {
    pub addr: u64,
    pub len: u32,
    pub flags: u16,
    pub next: u16,
}

/// The available ring: the driver publishes descriptor indices here and
/// advances `idx` past them.
pub struct VirtqAvail {
    pub flags: u16,
    pub idx: u16,
    pub ring: Vec<u16>,
}

/// One used-ring entry: the id of a completed descriptor and how many bytes
/// the device wrote or read.
#[derive(Clone, Copy, PartialEq, Eq, Structural, Debug)]
pub struct VirtqUsedElem {
    pub id: u32,
    pub len: u32,
}

/// The used ring: the device publishes completions here and advances `idx`.
pub struct VirtqUsed {
    pub flags: u16,
    pub idx: u16,
    pub ring: Vec<VirtqUsedElem>,
}

/// True when `a` is a nonzero power of two; ring sizes must be, so that
/// free-running 16-bit indices reduce to ring slots by `% size`.
pub open spec fn is_power_of_two_u16(a: u16) -> bool {
    a > 0 && (a & ((a - 1) as u16)) == 0
}

/// A whole virtqueue, owned by the driver. The device's side of the protocol
/// (writing used entries) is played by whatever completes buffers: hardware in
/// the firmware, or a loopback harness in tests.
pub struct VirtQueue {
    pub desc: Vec<VirtqDesc>,
    pub avail: VirtqAvail,
    pub used: VirtqUsed,
    pub queue_idx: u16,
    pub last_used_idx: u16,
    pub size: u16,
}

impl VirtQueue {
    /// Structural well-formedness: each ring has exactly `size` entries and
    /// the size is a nonzero power of two no larger than the ring-capacity
    /// bound.
    pub open spec fn wf(self) -> bool {
        &&& is_power_of_two_u16(self.size)
        &&& self.size <= 128
        &&& self.desc@.len() == self.size
        &&& self.avail.ring@.len() == self.size
        &&& self.used.ring@.len() == self.size
    }

    /// How many completions the device has published that the driver has not
    /// yet consumed: the forward distance from `last_used_idx` to the
    /// device-published `used.idx` in the free-running 16-bit index space.
    pub open spec fn pending(self) -> int {
        (self.used.idx - self.last_used_idx) % 0x10000
    }

    /// The liveness bound: the driver's consumed index never overtakes the
    /// device-published index, and the device never gets more than one ring's
    /// worth ahead.
    pub open spec fn live(self) -> bool {
        self.pending() <= self.size
    }

    /// A fresh, zeroed queue of `size` slots.
    pub fn new(queue_idx: u16, size: u16) -> (r: VirtQueue)
        requires
            is_power_of_two_u16(size),
            size <= 128,
        ensures
            r.wf(),
            r.live(),
            r.queue_idx == queue_idx,
            r.size == size,
            r.last_used_idx == 0,
            r.avail.idx == 0,
            r.avail.flags == 0,
            r.used.idx == 0,
            r.used.flags == 0,
            forall|i: int| 0 <= i < size ==> r.desc@[i] == (VirtqDesc { addr: 0, len: 0, flags: 0, next: 0 }),
            forall|i: int| 0 <= i < size ==> r.avail.ring@[i] == 0u16,
            forall|i: int|
                0 <= i < size ==> r.used.ring@[i] == (VirtqUsedElem { id: 0, len: 0 }),
    {
        let mut desc: Vec<VirtqDesc> = Vec::new();
        let mut avail_ring: Vec<u16> = Vec::new();
        let mut used_ring: Vec<VirtqUsedElem> = Vec::new();
        let mut i: usize = 0;
        while i < size as usize
            invariant
                i <= size,
                desc@.len() == i,
                avail_ring@.len() == i,
                used_ring@.len() == i,
                forall|j: int|
                    0 <= j < i ==> desc@[j] == (VirtqDesc { addr: 0, len: 0, flags: 0, next: 0 }),
                forall|j: int| 0 <= j < i ==> avail_ring@[j] == 0u16,
                forall|j: int| 0 <= j < i ==> used_ring@[j] == (VirtqUsedElem { id: 0, len: 0 }),
            decreases size - i,
        {
            desc.push(VirtqDesc { addr: 0, len: 0, flags: 0, next: 0 });
            avail_ring.push(0u16);
            used_ring.push(VirtqUsedElem { id: 0, len: 0 });
            i += 1;
        }
        VirtQueue {
            desc,
            avail: VirtqAvail { flags: 0, idx: 0, ring: avail_ring },
            used: VirtqUsed { flags: 0, idx: 0, ring: used_ring },
            queue_idx,
            last_used_idx: 0,
            size,
        }
    }

    /// Fills descriptor slot `i` with a fresh, unchained entry, leaving every
    /// other slot alone.
    pub fn add_desc(&mut self, i: u16, addr: u64, len: u32, flags: u16)
        requires
            i < old(self).desc@.len(),
        ensures
            final(self).desc@ == old(self).desc@.update(
                i as int,
                VirtqDesc { addr, len, flags, next: 0 },
            ),
            final(self).avail == old(self).avail,
            final(self).used == old(self).used,
            final(self).queue_idx == old(self).queue_idx,
            final(self).last_used_idx == old(self).last_used_idx,
            final(self).size == old(self).size,
    {
        let d = VirtqDesc { addr, len, flags, next: 0 };
        self.desc.set(i as usize, d);
    }
}

/// Nothing is pending exactly when the two free-running indices agree.
pub proof fn lemma_pending_zero_iff_equal(q: VirtQueue)
    ensures
        q.pending() == 0 <==> q.last_used_idx == q.used.idx,
{
    let l = q.last_used_idx as int;
    let u = q.used.idx as int;
    if l == u {
        assert((u - l) % 0x10000 == 0);
    } else if l < u {
        vstd::arithmetic::div_mod::lemma_small_mod((u - l) as nat, 0x10000);
    } else {
        assert((u - l) % 0x10000 == (u - l + 0x10000) % 0x10000) by {
            vstd::arithmetic::div_mod::lemma_mod_add_multiples_vanish(u - l, 0x10000);
        }
        vstd::arithmetic::div_mod::lemma_small_mod((u - l + 0x10000) as nat, 0x10000);
    }
}

/// A device-side delivery moves `used.idx` forward by exactly one and raises
/// the backlog by exactly one.
pub proof fn lemma_deliver_advances(pre: VirtQueue, post: VirtQueue)
    requires
        pre.pending() < 0xffff,
        post.used.idx == (pre.used.idx + 1) % 0x10000,
        post.last_used_idx == pre.last_used_idx,
    ensures
        post.pending() == pre.pending() + 1,
{
    let l = pre.last_used_idx as int;
    let u = pre.used.idx as int;
    assert(((u + 1) % 0x10000 - l) % 0x10000 == (u - l) % 0x10000 + 1) by {
        if u + 1 == 0x10000 {
            assert((u + 1) % 0x10000 == 0);
            assert(u == 0xffff);
        }
    };
}

/// Consuming one completion moves `last_used_idx` forward by exactly one in
/// the free-running index space and brings the backlog down by exactly one:
/// the consumed index is monotonically non-decreasing modulo the index space
/// and never overtakes the device-published used index.
pub proof fn lemma_consume_advances_monotonically(pre: VirtQueue, post: VirtQueue)
    requires
        pre.live(),
        pre.pending() > 0,
        post.last_used_idx == (pre.last_used_idx + 1) % 0x10000,
        post.used.idx == pre.used.idx,
        post.size == pre.size,
    ensures
        post.pending() == pre.pending() - 1,
        0 <= post.pending() < pre.size,
        post.live(),
{
    let l = pre.last_used_idx as int;
    let u = pre.used.idx as int;
    assert((u - (l + 1) % 0x10000) % 0x10000 == (u - l) % 0x10000 - 1) by {
        if l + 1 == 0x10000 {
            assert((l + 1) % 0x10000 == 0);
            assert(l == 0xffff);
            assert((u - l) % 0x10000 == (u + 1) % 0x10000);
        }
    };
}

} // verus!
