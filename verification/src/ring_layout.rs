//! Device-visible ring layout: the byte-exact binary forms the device reads
//! and writes, and the stores and loads that keep the ring model and the DMA
//! regions in step.
//!
//! A descriptor is 16 bytes — 8-byte buffer address, 4-byte length, 2-byte
//! flags, 2-byte chain link; the available ring is 2-byte flags, 2-byte index
//! and one 2-byte slot id per entry; the used ring is 2-byte flags, 2-byte
//! index and one 8-byte element (4-byte id, 4-byte length) per entry — all
//! little-endian. Descriptors in the model carry buffer offsets into the
//! arena; their device-visible form carries bus addresses, the DMA base plus
//! the offset.
//!
//! The driver's stores follow `ring_publish_sequence`: every descriptor,
//! buffer and slot store first, then a barrier that makes them visible, only
//! then the available-index publish, and only after another barrier the
//! doorbell — publish-after-write, defensively fenced.

use vstd::prelude::*;
use vstd::bytes::{
    spec_u16_from_le_bytes, spec_u16_to_le_bytes, spec_u32_from_le_bytes, spec_u32_to_le_bytes,
    spec_u64_to_le_bytes, u16_from_le_bytes, u16_to_le_bytes, u32_from_le_bytes, u32_to_le_bytes,
    u64_to_le_bytes,
};
use crate::allocator::Arena;
use crate::virtio_queue::{VirtQueue, VirtqDesc, VirtqUsedElem};

verus! {

/// The 16-byte device-visible form of one descriptor: the buffer's bus
/// address (the DMA base plus its arena offset), its length, its flags and
/// its chain link, little-endian.
pub open spec fn desc_bytes(d: VirtqDesc, dma_base: u64) -> Seq<u8>
    recommends
        d.addr + dma_base <= u64::MAX,
{
    spec_u64_to_le_bytes((dma_base + d.addr) as u64) + spec_u32_to_le_bytes(d.len)
        + spec_u16_to_le_bytes(d.flags) + spec_u16_to_le_bytes(d.next)
}

/// One used-ring element decoded from its 8 device-written bytes.
pub open spec fn used_elem_of_bytes(s: Seq<u8>) -> VirtqUsedElem
    recommends
        s.len() == 8,
{
    VirtqUsedElem {
        id: spec_u32_from_le_bytes(s.subrange(0, 4)),
        len: spec_u32_from_le_bytes(s.subrange(4, 8)),
    }
}

/// Writes the device-visible form of every descriptor into the descriptor
/// table region, leaving every byte outside the region alone.
pub fn store_desc_table(arena: &mut Arena, desc_off: usize, q: &VirtQueue, dma_base: u64)
    requires
        old(arena).wf(),
        q.wf(),
        desc_off + 16 * q.size <= old(arena).capacity(),
        forall|i: int| 0 <= i < q.size ==> (#[trigger] q.desc@[i]).addr + dma_base <= u64::MAX,
    ensures
        final(arena).wf(),
        final(arena).capacity() == old(arena).capacity(),
        final(arena).spec_next() == old(arena).spec_next(),
        forall|i: int|
            0 <= i < q.size ==> final(arena)@.subrange(
                desc_off + 16 * i,
                desc_off + 16 * i + 16,
            ) == desc_bytes(q.desc@[i], dma_base),
        forall|j: int|
            0 <= j < old(arena)@.len() && !(desc_off <= j < desc_off + 16 * q.size)
                ==> final(arena)@[j] == old(arena)@[j],
{
    proof {
        arena.lemma_bounds();
    }
    let size = q.size as usize;
    let mut i: usize = 0;
    while i < size
        invariant
            arena.wf(),
            q.wf(),
            i <= size,
            size == q.size,
            desc_off + 16 * size <= arena.capacity(),
            arena.capacity() <= usize::MAX,
            arena.capacity() == arena@.len(),
            forall|k: int|
                0 <= k < q.size ==> (#[trigger] q.desc@[k]).addr + dma_base <= u64::MAX,
            arena.capacity() == old(arena).capacity(),
            arena.spec_next() == old(arena).spec_next(),
            arena@.len() == old(arena)@.len(),
            forall|k: int|
                0 <= k < i ==> arena@.subrange(desc_off + 16 * k, desc_off + 16 * k + 16)
                    == desc_bytes(q.desc@[k], dma_base),
            forall|j: int|
                0 <= j < old(arena)@.len() && !(desc_off <= j < desc_off + 16 * i) ==> arena@[j]
                    == old(arena)@[j],
        decreases size - i,
    {
        proof {
            arena.lemma_bounds();
        }
        let d = q.desc[i];
        let mut bytes = u64_to_le_bytes(dma_base + d.addr);
        let mut len_bytes = u32_to_le_bytes(d.len);
        bytes.append(&mut len_bytes);
        let mut flag_bytes = u16_to_le_bytes(d.flags);
        bytes.append(&mut flag_bytes);
        let mut next_bytes = u16_to_le_bytes(d.next);
        bytes.append(&mut next_bytes);
        proof {
            assert(bytes@ == desc_bytes(q.desc@[i as int], dma_base));
            assert(bytes@.len() == 16) by {
                vstd::bytes::lemma_auto_spec_u64_to_from_le_bytes();
                vstd::bytes::lemma_auto_spec_u32_to_from_le_bytes();
                vstd::bytes::lemma_auto_spec_u16_to_from_le_bytes();
            }
        }
        let ghost pre = arena@;
        arena.write_at(desc_off + 16 * i, bytes.as_slice());
        proof {
            assert forall|k: int|
                0 <= k < i + 1 implies arena@.subrange(
                desc_off + 16 * k,
                desc_off + 16 * k + 16,
            ) == desc_bytes(q.desc@[k], dma_base) by {
                if k < i {
                    assert(arena@.subrange(desc_off + 16 * k, desc_off + 16 * k + 16)
                        =~= pre.subrange(desc_off + 16 * k, desc_off + 16 * k + 16));
                } else {
                    assert(arena@.subrange(desc_off + 16 * k, desc_off + 16 * k + 16)
                        =~= desc_bytes(q.desc@[k], dma_base));
                }
            }
        }
        i += 1;
    }
}

/// Writes the available ring's flags and slot ids, but not its index: the
/// index is published separately, after a barrier, so the device never sees
/// an index ahead of the slots it covers.
pub fn store_avail_slots(arena: &mut Arena, avail_off: usize, q: &VirtQueue)
    requires
        old(arena).wf(),
        q.wf(),
        avail_off + 4 + 2 * q.size <= old(arena).capacity(),
    ensures
        final(arena).wf(),
        final(arena).capacity() == old(arena).capacity(),
        final(arena).spec_next() == old(arena).spec_next(),
        final(arena)@.subrange(avail_off as int, avail_off + 2) == spec_u16_to_le_bytes(
            q.avail.flags,
        ),
        forall|i: int|
            0 <= i < q.size ==> final(arena)@.subrange(
                avail_off + 4 + 2 * i,
                avail_off + 4 + 2 * i + 2,
            ) == spec_u16_to_le_bytes(q.avail.ring@[i]),
        forall|j: int|
            0 <= j < old(arena)@.len() && !(avail_off <= j < avail_off + 2) && !(avail_off + 4
                <= j < avail_off + 4 + 2 * q.size) ==> final(arena)@[j] == old(arena)@[j],
{
    proof {
        arena.lemma_bounds();
        vstd::bytes::lemma_auto_spec_u16_to_from_le_bytes();
    }
    let flag_bytes = u16_to_le_bytes(q.avail.flags);
    arena.write_at(avail_off, flag_bytes.as_slice());
    proof {
        assert(arena@.subrange(avail_off as int, avail_off + 2) =~= spec_u16_to_le_bytes(
            q.avail.flags,
        ));
    }
    let size = q.size as usize;
    let mut i: usize = 0;
    while i < size
        invariant
            arena.wf(),
            q.wf(),
            i <= size,
            size == q.size,
            avail_off + 4 + 2 * size <= arena.capacity(),
            arena.capacity() <= usize::MAX,
            arena.capacity() == arena@.len(),
            arena.capacity() == old(arena).capacity(),
            arena.spec_next() == old(arena).spec_next(),
            arena@.len() == old(arena)@.len(),
            arena@.subrange(avail_off as int, avail_off + 2) == spec_u16_to_le_bytes(
                q.avail.flags,
            ),
            forall|k: int|
                0 <= k < i ==> arena@.subrange(avail_off + 4 + 2 * k, avail_off + 4 + 2 * k + 2)
                    == spec_u16_to_le_bytes(q.avail.ring@[k]),
            forall|j: int|
                0 <= j < old(arena)@.len() && !(avail_off <= j < avail_off + 2) && !(avail_off + 4
                    <= j < avail_off + 4 + 2 * i) ==> arena@[j] == old(arena)@[j],
        decreases size - i,
    {
        proof {
            arena.lemma_bounds();
            vstd::bytes::lemma_auto_spec_u16_to_from_le_bytes();
        }
        let slot_bytes = u16_to_le_bytes(q.avail.ring[i]);
        let ghost pre = arena@;
        arena.write_at(avail_off + 4 + 2 * i, slot_bytes.as_slice());
        proof {
            assert forall|k: int|
                0 <= k < i + 1 implies arena@.subrange(
                avail_off + 4 + 2 * k,
                avail_off + 4 + 2 * k + 2,
            ) == spec_u16_to_le_bytes(q.avail.ring@[k]) by {
                if k < i {
                    assert(arena@.subrange(avail_off + 4 + 2 * k, avail_off + 4 + 2 * k + 2)
                        =~= pre.subrange(avail_off + 4 + 2 * k, avail_off + 4 + 2 * k + 2));
                } else {
                    assert(arena@.subrange(avail_off + 4 + 2 * k, avail_off + 4 + 2 * k + 2)
                        =~= spec_u16_to_le_bytes(q.avail.ring@[k]));
                }
            }
            assert(arena@.subrange(avail_off as int, avail_off + 2) =~= pre.subrange(
                avail_off as int,
                avail_off + 2,
            ));
        }
        i += 1;
    }
}

/// Publishes the available index: writes exactly its two bytes and nothing
/// else. Only after this store may the device consume the covered slots, so
/// the caller puts a barrier between the slot stores and this one.
pub fn publish_avail_idx(arena: &mut Arena, avail_off: usize, q: &VirtQueue)
    requires
        old(arena).wf(),
        avail_off + 4 <= old(arena).capacity(),
    ensures
        final(arena).wf(),
        final(arena).capacity() == old(arena).capacity(),
        final(arena).spec_next() == old(arena).spec_next(),
        final(arena)@.subrange(avail_off + 2, avail_off + 4) == spec_u16_to_le_bytes(q.avail.idx),
        forall|j: int|
            0 <= j < old(arena)@.len() && !(avail_off + 2 <= j < avail_off + 4)
                ==> final(arena)@[j] == old(arena)@[j],
{
    proof {
        arena.lemma_bounds();
        vstd::bytes::lemma_auto_spec_u16_to_from_le_bytes();
    }
    let idx_bytes = u16_to_le_bytes(q.avail.idx);
    arena.write_at(avail_off + 2, idx_bytes.as_slice());
    proof {
        assert(arena@.subrange(avail_off + 2, avail_off + 4) =~= spec_u16_to_le_bytes(
            q.avail.idx,
        ));
    }
}

/// Reads the device-written used ring out of its region into the model:
/// flags, the published index, and every element, decoded little-endian;
/// nothing else in the queue moves.
pub fn load_used_ring(arena: &Arena, used_off: usize, q: &mut VirtQueue)
    requires
        old(q).wf(),
        used_off + 4 + 8 * old(q).size <= arena.capacity(),
    ensures
        final(q).wf(),
        final(q).used.flags == spec_u16_from_le_bytes(
            arena@.subrange(used_off as int, used_off + 2),
        ),
        final(q).used.idx == spec_u16_from_le_bytes(arena@.subrange(used_off + 2, used_off + 4)),
        forall|i: int|
            0 <= i < old(q).size ==> final(q).used.ring@[i] == used_elem_of_bytes(
                arena@.subrange(used_off + 4 + 8 * i, used_off + 4 + 8 * i + 8),
            ),
        final(q).desc@ == old(q).desc@,
        final(q).avail == old(q).avail,
        final(q).last_used_idx == old(q).last_used_idx,
        final(q).size == old(q).size,
        final(q).queue_idx == old(q).queue_idx,
{
    proof {
        arena.lemma_bounds();
    }
    let flags_vec = arena.read_range(used_off, 2);
    q.used.flags = u16_from_le_bytes(flags_vec.as_slice());
    let idx_vec = arena.read_range(used_off + 2, 2);
    q.used.idx = u16_from_le_bytes(idx_vec.as_slice());
    let size = q.size as usize;
    let mut i: usize = 0;
    while i < size
        invariant
            q.wf(),
            i <= size,
            size == q.size,
            used_off + 4 + 8 * size <= arena.capacity(),
            arena.capacity() <= usize::MAX,
            arena.capacity() == arena@.len(),
            q.used.flags == spec_u16_from_le_bytes(arena@.subrange(used_off as int, used_off + 2)),
            q.used.idx == spec_u16_from_le_bytes(arena@.subrange(used_off + 2, used_off + 4)),
            forall|k: int|
                0 <= k < i ==> q.used.ring@[k] == used_elem_of_bytes(
                    arena@.subrange(used_off + 4 + 8 * k, used_off + 4 + 8 * k + 8),
                ),
            q.desc@ == old(q).desc@,
            q.avail == old(q).avail,
            q.last_used_idx == old(q).last_used_idx,
            q.size == old(q).size,
            q.queue_idx == old(q).queue_idx,
        decreases size - i,
    {
        let id_vec = arena.read_range(used_off + 4 + 8 * i, 4);
        let id = u32_from_le_bytes(id_vec.as_slice());
        let len_vec = arena.read_range(used_off + 4 + 8 * i + 4, 4);
        let len = u32_from_le_bytes(len_vec.as_slice());
        q.used.ring.set(i, VirtqUsedElem { id, len });
        proof {
            let base = used_off + 4 + 8 * (i as int);
            let chunk = arena@.subrange(base, base + 8);
            assert(id_vec@ =~= chunk.subrange(0, 4));
            assert(len_vec@ =~= chunk.subrange(4, 8));
        }
        i += 1;
    }
}

/// The steps that hand freshly written ring state to the device, in the one
/// safe order: every descriptor, buffer and slot store first, then a barrier
/// that makes those stores visible, only then the available-index publish,
/// and only after another barrier the doorbell write.
#[derive(Clone, Copy, PartialEq, Eq, Structural, Debug)]
pub enum RingPublishStep {
    StoreDescriptors,
    StoreAvailableSlots,
    StoreBarrier,
    PublishAvailableIndex,
    NotifyDevice,
}

/// The publish order: a store barrier stands between the slot stores and the
/// index publish, another between the publish and the doorbell, and the
/// doorbell comes last and nowhere else.
pub fn ring_publish_sequence() -> (r: Vec<RingPublishStep>)
    ensures
        r@ == seq![
            RingPublishStep::StoreDescriptors,
            RingPublishStep::StoreAvailableSlots,
            RingPublishStep::StoreBarrier,
            RingPublishStep::PublishAvailableIndex,
            RingPublishStep::StoreBarrier,
            RingPublishStep::NotifyDevice,
        ],
        r@[2] == RingPublishStep::StoreBarrier,
        r@[3] == RingPublishStep::PublishAvailableIndex,
        r@[5] == RingPublishStep::NotifyDevice,
        forall|k: int|
            0 <= k < 6 && #[trigger] r@[k] == RingPublishStep::NotifyDevice ==> k == 5,
        forall|k: int|
            0 <= k < 6 && #[trigger] r@[k] == RingPublishStep::PublishAvailableIndex ==> k == 3,
{
    let mut r: Vec<RingPublishStep> = Vec::new();
    r.push(RingPublishStep::StoreDescriptors);
    r.push(RingPublishStep::StoreAvailableSlots);
    r.push(RingPublishStep::StoreBarrier);
    r.push(RingPublishStep::PublishAvailableIndex);
    r.push(RingPublishStep::StoreBarrier);
    r.push(RingPublishStep::NotifyDevice);
    proof {
        assert(r@ =~= seq![
            RingPublishStep::StoreDescriptors,
            RingPublishStep::StoreAvailableSlots,
            RingPublishStep::StoreBarrier,
            RingPublishStep::PublishAvailableIndex,
            RingPublishStep::StoreBarrier,
            RingPublishStep::NotifyDevice,
        ]);
    }
    r
}

} // verus!
