//! Network device adapter: the token-based send/receive interface the
//! external protocol stack consumes.
//!
//! The device owns one RX and one TX virtqueue. A packet is available for
//! receive exactly when the device-published used index is ahead of the
//! locally consumed one; consuming a completion maps the used-ring entry back
//! to its descriptor, copies the payload out past the fixed device header,
//! advances the consumed index and republishes the slot. Transmission writes
//! the payload into the single reserved TX descriptor, publishes it and rings
//! the device's notify register.
//!
//! A software loopback harness (`loopback_deliver`) plays the device's side of
//! the protocol, so the full publish/complete/consume round trip is both
//! provable and testable without hardware.

use vstd::prelude::*;
use crate::allocator::{align_up, allocate_aligned, Arena};
use crate::mmio::RegWrite;
use crate::virtio_net::{NET_HEADER_SIZE, REG_QUEUE_NOTIFY, RX_BUFFER_SIZE};
use crate::virtio_queue::{VirtQueue, VirtqDesc, VirtqUsedElem};

verus! {

/// Largest payload the adapter accepts: one Ethernet frame.
pub const MTU: usize = 1514;

/// The network device: its MMIO base and its two rings.
pub struct VirtioNetDevice {
    pub base: usize,
    pub rx: VirtQueue,
    pub tx: VirtQueue,
}

/// The right to consume one completed RX buffer, at the ring position the
/// driver is about to read.
pub struct VirtioRxToken {
    pub slot: u16,
}

/// The right to fill and publish the reserved TX descriptor.
pub struct VirtioTxToken {
    pub queue_idx: u16,
}

/// The used-ring entry the driver consumes next.
pub open spec fn rx_used_elem(q: VirtQueue) -> VirtqUsedElem {
    q.used.ring@[q.last_used_idx as int % q.size as int]
}

/// The payload bytes of the completion the driver consumes next: the bytes of
/// the completed descriptor's buffer, past the device header, up to the length
/// the device reported.
pub open spec fn rx_payload(q: VirtQueue, mem: Seq<u8>) -> Seq<u8> {
    let e = rx_used_elem(q);
    let d = q.desc@[e.id as int];
    mem.subrange(d.addr + NET_HEADER_SIZE, d.addr + e.len)
}

/// The completion the driver consumes next is well-formed: its descriptor id
/// is in range, the reported length covers at least the device header, and
/// the buffer lies inside the arena.
pub open spec fn rx_completion_ok(q: VirtQueue, mem: Seq<u8>) -> bool {
    let e = rx_used_elem(q);
    &&& e.id < q.size
    &&& e.len >= NET_HEADER_SIZE
    &&& q.desc@[e.id as int].addr + e.len <= mem.len()
}

/// How consuming one completion changes the queue: both free-running indices
/// step forward by one and nothing else moves.
pub open spec fn rx_advance(pre: VirtQueue, post: VirtQueue) -> bool {
    &&& post.last_used_idx == (pre.last_used_idx + 1) % 0x10000
    &&& post.avail.idx == (pre.avail.idx + 1) % 0x10000
    &&& post.avail.flags == pre.avail.flags
    &&& post.avail.ring@ == pre.avail.ring@
    &&& post.desc@ == pre.desc@
    &&& post.used.idx == pre.used.idx
    &&& post.used.flags == pre.used.flags
    &&& post.used.ring@ == pre.used.ring@
    &&& post.queue_idx == pre.queue_idx
    &&& post.size == pre.size
}

/// How one transmit changes the TX queue and the arena: the payload stands in
/// the reserved descriptor's buffer past the header, the descriptor's length
/// covers header plus payload, slot 0 is published, and nothing else moves.
pub open spec fn tx_consume_rel(
    pre: VirtQueue,
    pre_mem: Seq<u8>,
    post: VirtQueue,
    post_mem: Seq<u8>,
    payload: Seq<u8>,
) -> bool {
    let d0 = pre.desc@[0];
    let start = d0.addr + NET_HEADER_SIZE;
    &&& post.desc@ == pre.desc@.update(
        0,
        VirtqDesc {
            addr: d0.addr,
            len: (payload.len() + NET_HEADER_SIZE) as u32,
            flags: 0,
            next: 0,
        },
    )
    &&& post.avail.ring@ == pre.avail.ring@.update(0, 0u16)
    &&& post.avail.idx == (pre.avail.idx + 1) % 0x10000
    &&& post.avail.flags == pre.avail.flags
    &&& post.used.idx == pre.used.idx
    &&& post.used.flags == pre.used.flags
    &&& post.used.ring@ == pre.used.ring@
    &&& post.last_used_idx == pre.last_used_idx
    &&& post.queue_idx == pre.queue_idx
    &&& post.size == pre.size
    &&& post_mem.len() == pre_mem.len()
    &&& (forall|j: int|
        start <= j < start + payload.len() ==> post_mem[j] == payload[j - start])
    &&& (forall|j: int|
        0 <= j < pre_mem.len() && !(start <= j < start + payload.len()) ==> post_mem[j]
            == pre_mem[j])
}

/// The reserved TX descriptor can take a payload of `plen` bytes: its buffer
/// lies in the arena and is large enough for header plus payload.
pub open spec fn tx_buffer_ok(q: VirtQueue, mem: Seq<u8>, plen: int) -> bool {
    let d0 = q.desc@[0];
    &&& d0.addr + NET_HEADER_SIZE + plen <= mem.len()
    &&& d0.len >= NET_HEADER_SIZE + plen
}

impl VirtioNetDevice {
    pub open spec fn wf(self) -> bool {
        &&& self.rx.wf()
        &&& self.tx.wf()
    }

    /// A packet is available exactly when the device-published used index has
    /// moved past the locally consumed one; the pair of tokens borrows the
    /// ring position to consume and the TX queue to answer on.
    pub fn receive(&self) -> (r: Option<(VirtioRxToken, VirtioTxToken)>)
        requires
            self.wf(),
        ensures
            r is Some <==> self.rx.pending() != 0,
            r is Some ==> r->Some_0.0.slot == self.rx.last_used_idx as int % self.rx.size as int,
            r is Some ==> r->Some_0.1.queue_idx == self.tx.queue_idx,
    {
        proof {
            crate::virtio_queue::lemma_pending_zero_iff_equal(self.rx);
        }
        if self.rx.last_used_idx != self.rx.used.idx {
            Some(
                (
                    VirtioRxToken { slot: self.rx.last_used_idx % self.rx.size },
                    VirtioTxToken { queue_idx: self.tx.queue_idx },
                ),
            )
        } else {
            None
        }
    }

    /// A transmit token is always available: this design keeps a single
    /// in-flight TX descriptor.
    pub fn transmit(&self) -> (r: Option<VirtioTxToken>)
        ensures
            r is Some,
            r->Some_0.queue_idx == self.tx.queue_idx,
    {
        Some(VirtioTxToken { queue_idx: self.tx.queue_idx })
    }
}

impl VirtioRxToken {
    /// Consumes one completed RX buffer: maps the used-ring entry back to its
    /// descriptor, copies the payload (past the device header) out of the
    /// arena, advances the local consumed index and republishes availability.
    pub fn consume(self, q: &mut VirtQueue, arena: &Arena) -> (r: Vec<u8>)
        requires
            old(q).wf(),
            old(q).live(),
            old(q).pending() > 0,
            self.slot == old(q).last_used_idx as int % old(q).size as int,
            rx_completion_ok(*old(q), arena@),
        ensures
            final(q).wf(),
            final(q).live(),
            final(q).pending() == old(q).pending() - 1,
            rx_advance(*old(q), *final(q)),
            r@ == rx_payload(*old(q), arena@),
    {
        proof {
            arena.lemma_bounds();
        }
        let e = q.used.ring[self.slot as usize];
        let d = q.desc[e.id as usize];
        let off = (d.addr + NET_HEADER_SIZE as u64) as usize;
        let len = (e.len - NET_HEADER_SIZE) as usize;
        let r = arena.read_range(off, len);
        let ghost pre = *q;
        q.last_used_idx = q.last_used_idx.wrapping_add(1);
        q.avail.idx = q.avail.idx.wrapping_add(1);
        proof {
            crate::virtio_queue::lemma_consume_advances_monotonically(pre, *q);
        }
        r
    }
}

impl VirtioTxToken {
    /// Writes the payload into the reserved TX descriptor's buffer past the
    /// device header, publishes descriptor 0 in the available ring, and
    /// returns the notify write that rings the device for this queue. The
    /// caller then hands the updated ring to the device in the order
    /// `ring_layout::ring_publish_sequence` lays down, whose barriers keep
    /// every store visible before the index publish and the doorbell.
    pub fn consume(self, q: &mut VirtQueue, arena: &mut Arena, payload: &[u8]) -> (w: RegWrite)
        requires
            old(q).wf(),
            old(arena).wf(),
            payload@.len() <= MTU,
            tx_buffer_ok(*old(q), old(arena)@, payload@.len() as int),
        ensures
            final(q).wf(),
            final(arena).wf(),
            final(arena).capacity() == old(arena).capacity(),
            final(arena).spec_next() == old(arena).spec_next(),
            tx_consume_rel(*old(q), old(arena)@, *final(q), final(arena)@, payload@),
            w == (RegWrite { offset: REG_QUEUE_NOTIFY, value: old(q).queue_idx as u32 }),
    {
        proof {
            arena.lemma_bounds();
        }
        let d0 = q.desc[0];
        let off = (d0.addr + NET_HEADER_SIZE as u64) as usize;
        arena.write_at(off, payload);
        let new_len = payload.len() as u32 + NET_HEADER_SIZE;
        q.add_desc(0, d0.addr, new_len, 0);
        q.avail.ring.set(0, 0u16);
        q.avail.idx = q.avail.idx.wrapping_add(1);
        RegWrite::new(REG_QUEUE_NOTIFY, q.queue_idx as u32)
    }
}

/// Reserves the single TX buffer: descriptor slot 0 gets a full-size buffer
/// carved from the arena. Succeeds exactly when the arena can still hold one
/// buffer, and changes nothing on failure.
pub fn prime_tx_queue(arena: &mut Arena, q: &mut VirtQueue) -> (r: Option<usize>)
    requires
        old(arena).wf(),
        old(q).wf(),
    ensures
        final(arena).wf(),
        final(arena).capacity() == old(arena).capacity(),
        final(arena)@ == old(arena)@,
        final(q).wf(),
        r is Some <==> align_up(old(arena).spec_next(), 16) + RX_BUFFER_SIZE <= old(
            arena,
        ).capacity(),
        r is None ==> *final(q) == *old(q) && final(arena).spec_next() == old(arena).spec_next(),
        r is Some ==> ({
            let off = r->Some_0;
            &&& off == align_up(old(arena).spec_next(), 16)
            &&& off % 16 == 0
            &&& off + RX_BUFFER_SIZE <= old(arena).capacity()
            &&& final(q).desc@ == old(q).desc@.update(
                0,
                VirtqDesc { addr: off as u64, len: RX_BUFFER_SIZE, flags: 0, next: 0 },
            )
            &&& final(q).avail == old(q).avail
            &&& final(q).used == old(q).used
            &&& final(q).last_used_idx == old(q).last_used_idx
            &&& final(q).size == old(q).size
            &&& final(q).queue_idx == old(q).queue_idx
            &&& final(arena).spec_next() == off + RX_BUFFER_SIZE
        }),
{
    proof {
        arena.lemma_bounds();
        assert(16usize & 15usize == 0) by (bit_vector);
    }
    let off = match allocate_aligned(arena, RX_BUFFER_SIZE as usize, 16) {
        Some(off) => off,
        None => {
            return None;
        },
    };
    q.add_desc(0, off as u64, RX_BUFFER_SIZE, 0);
    Some(off)
}

/// The next buffer the device would fill on the RX ring (the available-ring
/// entry at the device's position) can take a completion of `td`'s length:
/// everything the loopback harness needs to deliver one frame.
pub open spec fn loopback_ready(td: VirtqDesc, rx: VirtQueue, mem: Seq<u8>) -> bool {
    let slot = rx.used.idx as int % rx.size as int;
    let id = rx.avail.ring@[slot];
    let rd = rx.desc@[id as int];
    &&& td.len >= NET_HEADER_SIZE
    &&& td.addr + td.len <= mem.len()
    &&& id < rx.size
    &&& rd.len >= td.len
    &&& rd.addr + rd.len <= mem.len()
    &&& rx.pending() < 0xffff
}

/// How a device-side delivery changes the RX queue and the arena: the payload
/// bytes of `td`'s buffer stand in the chosen RX buffer past the header, a
/// used entry for it is published, and nothing else moves.
pub open spec fn loopback_rel(
    td: VirtqDesc,
    pre: VirtQueue,
    pre_mem: Seq<u8>,
    post: VirtQueue,
    post_mem: Seq<u8>,
) -> bool {
    let slot = pre.used.idx as int % pre.size as int;
    let id = pre.avail.ring@[slot];
    let rd = pre.desc@[id as int];
    let plen = td.len - NET_HEADER_SIZE;
    &&& post.used.ring@ == pre.used.ring@.update(
        slot,
        VirtqUsedElem { id: id as u32, len: td.len },
    )
    &&& post.used.idx == (pre.used.idx + 1) % 0x10000
    &&& post.used.flags == pre.used.flags
    &&& post.desc@ == pre.desc@
    &&& post.avail.idx == pre.avail.idx
    &&& post.avail.flags == pre.avail.flags
    &&& post.avail.ring@ == pre.avail.ring@
    &&& post.last_used_idx == pre.last_used_idx
    &&& post.queue_idx == pre.queue_idx
    &&& post.size == pre.size
    &&& post_mem.len() == pre_mem.len()
    &&& (forall|k: int|
        0 <= k < plen ==> #[trigger] post_mem[rd.addr + NET_HEADER_SIZE + k] == pre_mem[td.addr
            + NET_HEADER_SIZE + k])
    &&& (forall|j: int|
        0 <= j < pre_mem.len() && !(rd.addr + NET_HEADER_SIZE <= j < rd.addr + td.len)
            ==> post_mem[j] == pre_mem[j])
}

/// Plays the device for a software loopback: takes a published TX descriptor,
/// copies its payload into the next available RX buffer, and publishes the
/// completion on the RX used ring.
pub fn loopback_deliver(td: VirtqDesc, rx: &mut VirtQueue, arena: &mut Arena)
    requires
        old(rx).wf(),
        old(arena).wf(),
        loopback_ready(td, *old(rx), old(arena)@),
    ensures
        final(rx).wf(),
        final(arena).wf(),
        final(arena).capacity() == old(arena).capacity(),
        final(arena).spec_next() == old(arena).spec_next(),
        loopback_rel(td, *old(rx), old(arena)@, *final(rx), final(arena)@),
        final(rx).pending() == old(rx).pending() + 1,
{
    proof {
        arena.lemma_bounds();
    }
    let slot = (rx.used.idx % rx.size) as usize;
    let id = rx.avail.ring[slot];
    let rd = rx.desc[id as usize];
    let plen = (td.len - NET_HEADER_SIZE) as usize;
    let data = arena.read_range((td.addr + NET_HEADER_SIZE as u64) as usize, plen);
    arena.write_at((rd.addr + NET_HEADER_SIZE as u64) as usize, data.as_slice());
    let ghost pre = *rx;
    rx.used.ring.set(slot, VirtqUsedElem { id: id as u32, len: td.len });
    rx.used.idx = rx.used.idx.wrapping_add(1);
    proof {
        crate::virtio_queue::lemma_deliver_advances(pre, *rx);
    }
}

/// Round trip: a payload written into the TX descriptor and published, then
/// delivered by the loopback device into an RX buffer, is exactly what the
/// following receive-token consumption observes, byte for byte.
pub proof fn lemma_tx_loopback_rx_roundtrip(
    payload: Seq<u8>,
    tx0: VirtQueue,
    m0: Seq<u8>,
    tx1: VirtQueue,
    m1: Seq<u8>,
    rx0: VirtQueue,
    rx1: VirtQueue,
    m2: Seq<u8>,
)
    requires
        tx0.wf(),
        rx0.wf(),
        payload.len() <= MTU,
        tx0.desc@[0].addr + NET_HEADER_SIZE + payload.len() <= m0.len(),
        tx_consume_rel(tx0, m0, tx1, m1, payload),
        rx0.pending() == 0,
        loopback_ready(tx1.desc@[0], rx0, m1),
        loopback_rel(tx1.desc@[0], rx0, m1, rx1, m2),
    ensures
        rx1.pending() == 1,
        rx_completion_ok(rx1, m2),
        rx_payload(rx1, m2) == payload,
{
    let td = tx1.desc@[0];
    assert(td.len == payload.len() + NET_HEADER_SIZE);
    let slot = rx0.used.idx as int % rx0.size as int;
    let id = rx0.avail.ring@[slot];
    let rd = rx0.desc@[id as int];
    crate::virtio_queue::lemma_pending_zero_iff_equal(rx0);
    assert(rx1.last_used_idx == rx0.used.idx);
    assert(rx1.last_used_idx as int % rx1.size as int == slot);
    let e = rx_used_elem(rx1);
    assert(e == (VirtqUsedElem { id: id as u32, len: td.len }));
    assert(rx1.desc@[e.id as int] == rd);
    assert(rx_payload(rx1, m2) =~= payload) by {
        assert forall|k: int| 0 <= k < payload.len() implies m2[rd.addr + NET_HEADER_SIZE + k]
            == payload[k] by {
            assert(m2[rd.addr + NET_HEADER_SIZE + k] == m1[td.addr + NET_HEADER_SIZE + k]);
            assert(m1[td.addr + NET_HEADER_SIZE + k] == payload[k]);
        }
    }
    crate::virtio_queue::lemma_deliver_advances(rx0, rx1);
}

/// Checked receive for the unverified edge: consumes the next completion if
/// one is pending and its used entry is well-formed, and otherwise reports
/// that nothing can be consumed, leaving the queue untouched.
pub fn try_rx_consume(q: &mut VirtQueue, arena: &Arena) -> (r: Option<Vec<u8>>)
    requires
        old(q).wf(),
        old(q).live(),
    ensures
        final(q).wf(),
        final(q).live(),
        r is Some <==> old(q).pending() > 0 && rx_completion_ok(*old(q), arena@),
        r is None ==> *final(q) == *old(q),
        r is Some ==> ({
            &&& r->Some_0@ == rx_payload(*old(q), arena@)
            &&& rx_advance(*old(q), *final(q))
            &&& final(q).pending() == old(q).pending() - 1
        }),
{
    proof {
        crate::virtio_queue::lemma_pending_zero_iff_equal(*q);
        arena.lemma_bounds();
    }
    if q.last_used_idx == q.used.idx {
        return None;
    }
    let slot = q.last_used_idx % q.size;
    let e = q.used.ring[slot as usize];
    if !(e.id < q.size as u32 && e.len >= NET_HEADER_SIZE) {
        return None;
    }
    let d = q.desc[e.id as usize];
    let cap = arena.len() as u64;
    if d.addr > cap || e.len as u64 > cap - d.addr {
        return None;
    }
    let token = VirtioRxToken { slot };
    Some(token.consume(q, arena))
}

} // verus!
