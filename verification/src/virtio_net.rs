//! VirtIO MMIO network transport: device probe, the status handshake, queue
//! setup and RX priming.
//!
//! Every MMIO register store the driver must perform is computed here as a
//! `RegWrite`; the unverified hardware layer only performs the stores in the
//! order given and feeds register reads back in. The handshake is a state
//! machine whose transitions enforce the strict order the device demands, and
//! in particular no queue may be configured (no queue-ready write exists)
//! unless the device has confirmed the negotiated feature set.

use vstd::prelude::*;
use crate::allocator::{align_up, allocate_aligned, try_align_up, Arena};
use crate::mmio::RegWrite;
use crate::virtio_queue::{is_power_of_two_u16, VirtQueue, VirtqDesc, VIRTQ_DESC_F_WRITE};

verus! {

// MMIO register offsets of the VirtIO transport.
pub const REG_MAGIC: usize = 0x000;
pub const REG_VERSION: usize = 0x004;
pub const REG_DEVICE_ID: usize = 0x008;
pub const REG_VENDOR_ID: usize = 0x00c;
pub const REG_DEVICE_FEATURES: usize = 0x010;
pub const REG_DRIVER_FEATURES: usize = 0x020;
pub const REG_QUEUE_SEL: usize = 0x030;
pub const REG_QUEUE_NUM_MAX: usize = 0x034;
pub const REG_QUEUE_NUM: usize = 0x038;
pub const REG_QUEUE_READY: usize = 0x044;
pub const REG_QUEUE_NOTIFY: usize = 0x050;
pub const REG_INTERRUPT_STATUS: usize = 0x060;
pub const REG_INTERRUPT_ACK: usize = 0x064;
pub const REG_STATUS: usize = 0x070;
pub const REG_QUEUE_DESC_LOW: usize = 0x080;
pub const REG_QUEUE_DESC_HIGH: usize = 0x084;
pub const REG_QUEUE_AVAIL_LOW: usize = 0x090;
pub const REG_QUEUE_AVAIL_HIGH: usize = 0x094;
pub const REG_QUEUE_USED_LOW: usize = 0x0a0;
pub const REG_QUEUE_USED_HIGH: usize = 0x0a4;

// Status-register bits.
pub const STATUS_ACKNOWLEDGE: u32 = 1;
pub const STATUS_DRIVER: u32 = 2;
pub const STATUS_FEATURES_OK: u32 = 8;
pub const STATUS_DRIVER_OK: u32 = 128;

/// The value the magic register must hold for a slot to carry a VirtIO device.
pub const VIRTIO_MAGIC: u32 = 0x74726976;

/// The device-id register value of a network card.
pub const DEVICE_ID_NET: u32 = 1;

/// Ring-capacity bound the driver supports per queue.
pub const QUEUE_SIZE_LIMIT: u32 = 128;

/// Decides whether an MMIO slot carries a VirtIO network card, from the two
/// registers the scan reads. A wrong magic or another device class is skipped,
/// not an error.
pub fn probe(magic: u32, device_id: u32) -> (r: bool)
    ensures
        r == (magic == VIRTIO_MAGIC && device_id == DEVICE_ID_NET),
{
    magic == VIRTIO_MAGIC && device_id == DEVICE_ID_NET
}

/// The feature bits this driver implements: none beyond the baseline. The
/// minimal handshake takes no optional feature, so nothing the device offers
/// beyond the baseline is ever echoed back.
pub const DRIVER_SUPPORTED_FEATURES: u32 = 0;

/// The feature subset the driver echoes back: what the device offered,
/// restricted to what the driver implements — never an unsupported bit, never
/// a bit the device did not offer.
pub fn negotiate_features(offered: u32) -> (accepted: u32)
    ensures
        accepted == offered & DRIVER_SUPPORTED_FEATURES,
        accepted & !offered == 0,
        accepted & !DRIVER_SUPPORTED_FEATURES == 0,
{
    proof {
        let o = offered;
        assert((o & 0) & !o == 0 && (o & 0) & !0u32 == 0) by (bit_vector);
    }
    offered & DRIVER_SUPPORTED_FEATURES
}

/// Where the handshake stands. The order is strict: each step is a
/// prerequisite of the next, and a device that withdraws FEATURES_OK sends the
/// handshake to `Failed`, a terminal state with no outgoing step.
#[derive(Clone, Copy, PartialEq, Eq, Structural, Debug)]
pub enum HandshakeState {
    Fresh,
    DeviceReset,
    Acknowledged,
    DriverKnown,
    FeaturesWritten,
    FeaturesOkSet,
    FeaturesConfirmed,
    QueuesConfigured,
    Active,
    Failed,
}

/// The driver's side of the VirtIO status handshake. Each step returns the
/// register write to perform; the caller performs it before taking the next
/// step.
pub struct Handshake {
    pub state: HandshakeState,
    pub driver_features: u32,
}

/// What `Handshake::confirm_features` does with the status value read back
/// after FEATURES_OK was set: the device keeping the bit confirms the feature
/// set; the device having cleared it is a fatal rejection.
pub open spec fn confirm_transition(pre: Handshake, post: Handshake, readback: u32) -> bool {
    &&& post.driver_features == pre.driver_features
    &&& post.state == if readback & STATUS_FEATURES_OK != 0 {
        HandshakeState::FeaturesConfirmed
    } else {
        HandshakeState::Failed
    }
}

impl Handshake {
    /// Queue configuration (and with it the queue-ready write) is reachable
    /// only once the device has confirmed the feature set.
    pub open spec fn may_touch_queues(self) -> bool {
        self.state == HandshakeState::FeaturesConfirmed
    }

    pub fn new() -> (r: Handshake)
        ensures
            r.state == HandshakeState::Fresh,
            r.driver_features == 0,
    {
        Handshake { state: HandshakeState::Fresh, driver_features: 0 }
    }

    /// First step: write zero to the status register to reset the device.
    pub fn reset(&mut self) -> (w: RegWrite)
        requires
            old(self).state == HandshakeState::Fresh,
        ensures
            final(self).state == HandshakeState::DeviceReset,
            final(self).driver_features == old(self).driver_features,
            w == (RegWrite { offset: REG_STATUS, value: 0 }),
    {
        self.state = HandshakeState::DeviceReset;
        RegWrite::new(REG_STATUS, 0)
    }

    /// Second step: set the ACKNOWLEDGE bit.
    pub fn acknowledge(&mut self) -> (w: RegWrite)
        requires
            old(self).state == HandshakeState::DeviceReset,
        ensures
            final(self).state == HandshakeState::Acknowledged,
            final(self).driver_features == old(self).driver_features,
            w == (RegWrite { offset: REG_STATUS, value: STATUS_ACKNOWLEDGE }),
    {
        self.state = HandshakeState::Acknowledged;
        RegWrite::new(REG_STATUS, STATUS_ACKNOWLEDGE)
    }

    /// Third step: add the DRIVER bit on top of ACKNOWLEDGE.
    pub fn set_driver(&mut self) -> (w: RegWrite)
        requires
            old(self).state == HandshakeState::Acknowledged,
        ensures
            final(self).state == HandshakeState::DriverKnown,
            final(self).driver_features == old(self).driver_features,
            w == (RegWrite { offset: REG_STATUS, value: STATUS_ACKNOWLEDGE | STATUS_DRIVER }),
    {
        self.state = HandshakeState::DriverKnown;
        RegWrite::new(REG_STATUS, STATUS_ACKNOWLEDGE | STATUS_DRIVER)
    }

    /// Fourth step: echo the accepted subset of the device-offered features
    /// into the driver-features register — only bits both offered and
    /// implemented by the driver.
    pub fn write_features(&mut self, offered: u32) -> (w: RegWrite)
        requires
            old(self).state == HandshakeState::DriverKnown,
        ensures
            final(self).state == HandshakeState::FeaturesWritten,
            final(self).driver_features == offered & DRIVER_SUPPORTED_FEATURES,
            final(self).driver_features & !offered == 0,
            final(self).driver_features & !DRIVER_SUPPORTED_FEATURES == 0,
            w == (RegWrite {
                offset: REG_DRIVER_FEATURES,
                value: offered & DRIVER_SUPPORTED_FEATURES,
            }),
    {
        let accepted = negotiate_features(offered);
        self.driver_features = accepted;
        self.state = HandshakeState::FeaturesWritten;
        RegWrite::new(REG_DRIVER_FEATURES, accepted)
    }

    /// Fifth step: set FEATURES_OK and ask the device to judge the set.
    pub fn set_features_ok(&mut self) -> (w: RegWrite)
        requires
            old(self).state == HandshakeState::FeaturesWritten,
        ensures
            final(self).state == HandshakeState::FeaturesOkSet,
            final(self).driver_features == old(self).driver_features,
            w == (RegWrite {
                offset: REG_STATUS,
                value: STATUS_ACKNOWLEDGE | STATUS_DRIVER | STATUS_FEATURES_OK,
            }),
    {
        self.state = HandshakeState::FeaturesOkSet;
        RegWrite::new(REG_STATUS, STATUS_ACKNOWLEDGE | STATUS_DRIVER | STATUS_FEATURES_OK)
    }

    /// Sixth step: read the status register back. If the device still shows
    /// FEATURES_OK the handshake may go on to queue setup; if the device
    /// cleared it, the feature set was rejected and initialization is dead.
    pub fn confirm_features(&mut self, readback: u32) -> (ok: bool)
        requires
            old(self).state == HandshakeState::FeaturesOkSet,
        ensures
            ok == (readback & STATUS_FEATURES_OK != 0),
            confirm_transition(*old(self), *final(self), readback),
    {
        if readback & STATUS_FEATURES_OK != 0 {
            self.state = HandshakeState::FeaturesConfirmed;
            true
        } else {
            self.state = HandshakeState::Failed;
            false
        }
    }

    /// Records that both queues have been configured and primed.
    pub fn queues_configured(&mut self)
        requires
            old(self).state == HandshakeState::FeaturesConfirmed,
        ensures
            final(self).state == HandshakeState::QueuesConfigured,
            final(self).driver_features == old(self).driver_features,
    {
        self.state = HandshakeState::QueuesConfigured;
    }

    /// Last step: set DRIVER_OK on top of the current status. Only after this
    /// write may the device deliver interrupts or consume buffers.
    pub fn driver_ok(&mut self, status_readback: u32) -> (w: RegWrite)
        requires
            old(self).state == HandshakeState::QueuesConfigured,
        ensures
            final(self).state == HandshakeState::Active,
            final(self).driver_features == old(self).driver_features,
            w == (RegWrite { offset: REG_STATUS, value: status_readback | STATUS_DRIVER_OK }),
    {
        self.state = HandshakeState::Active;
        RegWrite::new(REG_STATUS, status_readback | STATUS_DRIVER_OK)
    }
}

/// A device that clears FEATURES_OK sends the handshake to its terminal
/// `Failed` state, from which queue configuration is unreachable: no
/// queue-ready register write can be produced after a feature rejection.
pub proof fn lemma_feature_rejection_forbids_queue_setup(
    pre: Handshake,
    post: Handshake,
    readback: u32,
)
    requires
        confirm_transition(pre, post, readback),
        readback & STATUS_FEATURES_OK == 0,
    ensures
        post.state == HandshakeState::Failed,
        !post.may_touch_queues(),
{
}

/// The low half of a 64-bit region address, as the device's split address
/// registers take it.
pub fn addr_low(x: u64) -> (r: u32)
    ensures
        r == (x & 0xffff_ffff) as u32,
{
    proof {
        assert(x as u32 == (x & 0xffff_ffff) as u32) by (bit_vector);
    }
    x as u32
}

/// The high half of a 64-bit region address.
pub fn addr_high(x: u64) -> (r: u32)
    ensures
        r == (x >> 32) as u32,
{
    (x >> 32) as u32
}

/// The queue size the driver chooses: the device maximum, clamped to the
/// driver's ring-capacity bound.
pub open spec fn clamped_queue_size(q_max: u32) -> u16 {
    if q_max < QUEUE_SIZE_LIMIT {
        q_max as u16
    } else {
        QUEUE_SIZE_LIMIT as u16
    }
}

/// Arena offset of the descriptor table, 16-byte aligned as the ring format
/// mandates.
pub open spec fn desc_region_off(next0: int) -> int {
    align_up(next0, 16)
}

/// Arena offset of the available ring, 2-byte aligned, after the descriptor
/// table of `size` 16-byte entries.
pub open spec fn avail_region_off(next0: int, size: int) -> int {
    align_up(desc_region_off(next0) + 16 * size, 2)
}

/// Arena offset of the used ring, 4-byte aligned, after the available ring's
/// 6-byte header and `size` 2-byte slots.
pub open spec fn used_region_off(next0: int, size: int) -> int {
    align_up(avail_region_off(next0, size) + 6 + 2 * size, 4)
}

/// First arena offset past all three queue regions.
pub open spec fn queue_regions_end(next0: int, size: int) -> int {
    used_region_off(next0, size) + 6 + 8 * size
}

/// The arena offsets of a queue's three regions, as handed to the device.
#[derive(Clone, Copy, PartialEq, Eq, Structural, Debug)]
pub struct QueueRegions {
    pub desc_off: usize,
    pub avail_off: usize,
    pub used_off: usize,
}

/// Configures one virtqueue: chooses the size, carves the three aligned
/// regions out of the arena, and lays out the register writes that hand them
/// to the device, ending — and only ending — with the queue-ready write.
/// Queue setup demands a handshake whose feature set the device confirmed.
/// Fails exactly when the arena cannot hold the three regions, leaving the
/// arena untouched.
pub fn setup_queue(
    hs: &Handshake,
    arena: &mut Arena,
    arena_base: u64,
    q_idx: u16,
    q_max: u32,
) -> (r: Option<(VirtQueue, QueueRegions, Vec<RegWrite>)>)
    requires
        hs.may_touch_queues(),
        old(arena).wf(),
        q_max > 0,
        q_max & (q_max - 1) as u32 == 0,
        arena_base % 16 == 0,
        arena_base + old(arena).capacity() <= u64::MAX,
    ensures
        final(arena).wf(),
        final(arena).capacity() == old(arena).capacity(),
        final(arena)@ == old(arena)@,
        r is Some <==> queue_regions_end(
            old(arena).spec_next(),
            clamped_queue_size(q_max) as int,
        ) <= old(arena).capacity(),
        r is None ==> final(arena).spec_next() == old(arena).spec_next(),
        r is Some ==> ({
            let (q, regions, plan) = r->Some_0;
            let next0 = old(arena).spec_next();
            let size = clamped_queue_size(q_max) as int;
            &&& q.wf()
            &&& q.live()
            &&& q.size == clamped_queue_size(q_max)
            &&& q.queue_idx == q_idx
            &&& q.last_used_idx == 0
            &&& q.avail.idx == 0
            &&& q.used.idx == 0
            &&& regions.desc_off == desc_region_off(next0)
            &&& regions.avail_off == avail_region_off(next0, size)
            &&& regions.used_off == used_region_off(next0, size)
            &&& regions.desc_off % 16 == 0
            &&& regions.avail_off % 2 == 0
            &&& regions.used_off % 4 == 0
            &&& next0 <= regions.desc_off
            &&& regions.desc_off + 16 * size <= regions.avail_off
            &&& regions.avail_off + 6 + 2 * size <= regions.used_off
            &&& regions.used_off + 6 + 8 * size <= old(arena).capacity()
            &&& final(arena).spec_next() == queue_regions_end(next0, size)
            &&& plan@.len() == 9
            &&& plan@[0] == (RegWrite { offset: REG_QUEUE_SEL, value: q_idx as u32 })
            &&& plan@[1] == (RegWrite { offset: REG_QUEUE_NUM, value: clamped_queue_size(q_max) as u32 })
            &&& plan@[2] == (RegWrite {
                offset: REG_QUEUE_DESC_LOW,
                value: (((arena_base + regions.desc_off) as u64) & 0xffff_ffff) as u32,
            })
            &&& plan@[3] == (RegWrite {
                offset: REG_QUEUE_DESC_HIGH,
                value: ((arena_base + regions.desc_off) as u64 >> 32) as u32,
            })
            &&& plan@[4] == (RegWrite {
                offset: REG_QUEUE_AVAIL_LOW,
                value: (((arena_base + regions.avail_off) as u64) & 0xffff_ffff) as u32,
            })
            &&& plan@[5] == (RegWrite {
                offset: REG_QUEUE_AVAIL_HIGH,
                value: ((arena_base + regions.avail_off) as u64 >> 32) as u32,
            })
            &&& plan@[6] == (RegWrite {
                offset: REG_QUEUE_USED_LOW,
                value: (((arena_base + regions.used_off) as u64) & 0xffff_ffff) as u32,
            })
            &&& plan@[7] == (RegWrite {
                offset: REG_QUEUE_USED_HIGH,
                value: ((arena_base + regions.used_off) as u64 >> 32) as u32,
            })
            &&& plan@[8] == (RegWrite { offset: REG_QUEUE_READY, value: 1 })
            &&& forall|k: int| 0 <= k < 8 ==> plan@[k].offset != REG_QUEUE_READY
        }),
{
    let q_size: u16 = if q_max < QUEUE_SIZE_LIMIT {
        q_max as u16
    } else {
        128
    };
    proof {
        assert(q_max > 0 && q_max & (q_max - 1) as u32 == 0 && q_max < 128 ==> (q_max as u16) > 0
            && (q_max as u16) & ((q_max as u16) - 1) as u16 == 0) by (bit_vector);
        assert(128u16 & 127u16 == 0) by (bit_vector);
        assert(is_power_of_two_u16(q_size));
    }
    let size_us = q_size as usize;
    let ghost next0 = old(arena).spec_next();
    let ghost size = size_us as int;
    proof {
        arena.lemma_bounds();
        assert(16usize & 15usize == 0) by (bit_vector);
        assert(2usize & 1usize == 0) by (bit_vector);
        assert(4usize & 3usize == 0) by (bit_vector);
        crate::allocator::lemma_align_up(next0, 16);
        crate::allocator::lemma_align_up(desc_region_off(next0) + 16 * size, 2);
        crate::allocator::lemma_align_up(avail_region_off(next0, size) + 6 + 2 * size, 4);
    }

    // Lay the three regions out in ring order and make sure the whole
    // footprint fits before touching the arena, so that failure changes
    // nothing.
    let cap = arena.len();
    let n0 = arena.next_offset();
    let d = match try_align_up(n0, cap, 16) {
        Some(off) => off,
        None => {
            return None;
        },
    };
    if 16 * size_us > cap - d {
        return None;
    }
    let a = match try_align_up(d + 16 * size_us, cap, 2) {
        Some(off) => off,
        None => {
            return None;
        },
    };
    if 6 + 2 * size_us > cap - a {
        return None;
    }
    let u = match try_align_up(a + 6 + 2 * size_us, cap, 4) {
        Some(off) => off,
        None => {
            return None;
        },
    };
    if 6 + 8 * size_us > cap - u {
        return None;
    }

    // The footprint fits, so each aligned allocation is owed success.
    let d2 = allocate_aligned(arena, 16 * size_us, 16).unwrap();
    let a2 = allocate_aligned(arena, 6 + 2 * size_us, 2).unwrap();
    let u2 = allocate_aligned(arena, 6 + 8 * size_us, 4).unwrap();
    let q = VirtQueue::new(q_idx, q_size);
    let regions = QueueRegions { desc_off: d2, avail_off: a2, used_off: u2 };
    let plan = queue_register_plan(arena_base, q_idx, q_size, &regions);
    Some((q, regions, plan))
}

/// Bytes of one RX buffer: the largest Ethernet frame plus the fixed VirtIO
/// net header, rounded up to keep consecutive buffers 16-byte aligned.
pub const RX_BUFFER_SIZE: u32 = 1536;

/// Bytes of the VirtIO net header that precedes the payload in every buffer.
pub const NET_HEADER_SIZE: u32 = 12;

/// Fills every slot of the receive ring with a fresh device-writable buffer,
/// publishes each slot in the available ring, and sets the available index to
/// the full ring size; the returned write notifies the device of the primed
/// queue, once the caller has stored the ring in the order
/// `ring_layout::ring_publish_sequence` lays down. Succeeds exactly when the
/// arena can hold one buffer per slot, and changes nothing on failure.
pub fn prime_rx_queue(arena: &mut Arena, q: &mut VirtQueue) -> (r: Option<RegWrite>)
    requires
        old(arena).wf(),
        old(q).wf(),
    ensures
        final(arena).wf(),
        final(arena).capacity() == old(arena).capacity(),
        final(arena)@ == old(arena)@,
        final(q).wf(),
        final(q).size == old(q).size,
        final(q).queue_idx == old(q).queue_idx,
        final(q).last_used_idx == old(q).last_used_idx,
        final(q).used == old(q).used,
        r is Some <==> align_up(old(arena).spec_next(), 16) + (RX_BUFFER_SIZE as int) * old(
            q,
        ).size <= old(arena).capacity(),
        r is None ==> *final(q) == *old(q) && final(arena).spec_next() == old(arena).spec_next(),
        r is Some ==> ({
            let d = align_up(old(arena).spec_next(), 16);
            let size = old(q).size as int;
            &&& forall|i: int|
                0 <= i < size ==> final(q).desc@[i] == (VirtqDesc {
                    addr: (d + (RX_BUFFER_SIZE as int) * i) as u64,
                    len: RX_BUFFER_SIZE,
                    flags: VIRTQ_DESC_F_WRITE,
                    next: 0,
                })
            &&& forall|i: int| 0 <= i < size ==> final(q).avail.ring@[i] == i as u16
            &&& final(q).avail.idx == old(q).size
            &&& final(q).avail.flags == old(q).avail.flags
            &&& d % 16 == 0
            &&& final(arena).spec_next() == d + (RX_BUFFER_SIZE as int) * size
            &&& r->Some_0 == (RegWrite {
                offset: REG_QUEUE_NOTIFY,
                value: old(q).queue_idx as u32,
            })
        }),
{
    let ghost next0 = old(arena).spec_next();
    let size: u16 = q.size;
    let size_us = size as usize;
    let buf = RX_BUFFER_SIZE as usize;
    proof {
        arena.lemma_bounds();
        assert(16usize & 15usize == 0) by (bit_vector);
        crate::allocator::lemma_align_up(next0, 16);
    }
    let cap = arena.len();
    let n0 = arena.next_offset();
    let d = match try_align_up(n0, cap, 16) {
        Some(off) => off,
        None => {
            return None;
        },
    };
    if buf * size_us > cap - d {
        return None;
    }
    let ghost dd = d as int;

    let mut i: u16 = 0;
    while i < size
        invariant
            arena.wf(),
            q.wf(),
            i <= size,
            size == old(q).size,
            size_us == size as int,
            buf == RX_BUFFER_SIZE,
            arena.capacity() == old(arena).capacity(),
            arena@ == old(arena)@,
            0 <= next0 <= dd,
            dd == align_up(next0, 16),
            dd % 16 == 0,
            dd + (RX_BUFFER_SIZE as int) * size <= arena.capacity(),
            arena.spec_next() == if i == 0 {
                next0
            } else {
                dd + (RX_BUFFER_SIZE as int) * i
            },
            q.size == old(q).size,
            q.queue_idx == old(q).queue_idx,
            q.last_used_idx == old(q).last_used_idx,
            q.used == old(q).used,
            q.avail.idx == old(q).avail.idx,
            q.avail.flags == old(q).avail.flags,
            forall|j: int|
                0 <= j < i ==> q.desc@[j] == (VirtqDesc {
                    addr: (dd + (RX_BUFFER_SIZE as int) * j) as u64,
                    len: RX_BUFFER_SIZE,
                    flags: VIRTQ_DESC_F_WRITE,
                    next: 0,
                }),
            forall|j: int| 0 <= j < i ==> q.avail.ring@[j] == j as u16,
        decreases size - i,
    {
        proof {
            assert(16usize & 15usize == 0) by (bit_vector);
            assert((RX_BUFFER_SIZE as int) * (i as int) + RX_BUFFER_SIZE as int
                <= (RX_BUFFER_SIZE as int) * (size as int)) by (nonlinear_arith)
                requires
                    i < size,
            ;
            if i > 0 {
                lemma_buffer_offsets_stay_aligned(dd, i as int);
                assert((RX_BUFFER_SIZE as int) * (i as int) >= 0) by (nonlinear_arith)
                    requires
                        i >= 0,
                ;
                vstd::arithmetic::div_mod::lemma_mod_self_0(16);
                assert(align_up(arena.spec_next(), 16) == arena.spec_next());
            }
        }
        let off = allocate_aligned(arena, buf, 16).unwrap();
        proof {
            assert((RX_BUFFER_SIZE as int) * (i as int) + RX_BUFFER_SIZE as int
                == (RX_BUFFER_SIZE as int) * (i as int + 1)) by (nonlinear_arith);
        }
        q.add_desc(i, off as u64, RX_BUFFER_SIZE, VIRTQ_DESC_F_WRITE);
        q.avail.ring.set(i as usize, i);
        i += 1;
    }
    q.avail.idx = size;
    Some(RegWrite::new(REG_QUEUE_NOTIFY, q.queue_idx as u32))
}

/// Multiples of the buffer size keep 16-byte alignment.
proof fn lemma_buffer_offsets_stay_aligned(d: int, i: int)
    requires
        d % 16 == 0,
        i >= 0,
    ensures
        (d + (RX_BUFFER_SIZE as int) * i) % 16 == 0,
{
    assert((RX_BUFFER_SIZE as int) * i == 16 * (96 * i)) by (nonlinear_arith);
    vstd::arithmetic::div_mod::lemma_mod_multiples_vanish(96 * i, d, 16);
}

/// What one device interrupt asks of the driver: the immediate acknowledge
/// write (echoing the observed status bits back) and which of the two causes
/// were signalled. The acknowledge write must be performed before any further
/// processing, so it is the first field.
#[derive(Clone, Copy, PartialEq, Eq, Structural, Debug)]
pub struct InterruptDisposition {
    pub ack: RegWrite,
    pub used_ring_update: bool,
    pub config_change: bool,
}

/// Decodes the interrupt-status register: acknowledge the observed bits, then
/// act on "used ring updated" (bit 0) and "configuration changed" (bit 1).
pub fn handle_interrupt(status: u32) -> (r: InterruptDisposition)
    ensures
        r.ack == (RegWrite { offset: REG_INTERRUPT_ACK, value: status & 0x3 }),
        r.used_ring_update == (status & 0x1 != 0),
        r.config_change == (status & 0x2 != 0),
{
    InterruptDisposition {
        ack: RegWrite::new(REG_INTERRUPT_ACK, status & 0x3),
        used_ring_update: status & 0x1 != 0,
        config_change: status & 0x2 != 0,
    }
}

/// The ordered register writes that hand one configured queue to the device;
/// the queue-ready write comes last and nowhere else.
fn queue_register_plan(arena_base: u64, q_idx: u16, q_size: u16, regions: &QueueRegions) -> (plan:
    Vec<RegWrite>)
    requires
        arena_base + regions.desc_off <= u64::MAX,
        arena_base + regions.avail_off <= u64::MAX,
        arena_base + regions.used_off <= u64::MAX,
    ensures
        plan@.len() == 9,
        plan@[0] == (RegWrite { offset: REG_QUEUE_SEL, value: q_idx as u32 }),
        plan@[1] == (RegWrite { offset: REG_QUEUE_NUM, value: q_size as u32 }),
        plan@[2] == (RegWrite {
            offset: REG_QUEUE_DESC_LOW,
            value: (((arena_base + regions.desc_off) as u64) & 0xffff_ffff) as u32,
        }),
        plan@[3] == (RegWrite {
            offset: REG_QUEUE_DESC_HIGH,
            value: ((arena_base + regions.desc_off) as u64 >> 32) as u32,
        }),
        plan@[4] == (RegWrite {
            offset: REG_QUEUE_AVAIL_LOW,
            value: (((arena_base + regions.avail_off) as u64) & 0xffff_ffff) as u32,
        }),
        plan@[5] == (RegWrite {
            offset: REG_QUEUE_AVAIL_HIGH,
            value: ((arena_base + regions.avail_off) as u64 >> 32) as u32,
        }),
        plan@[6] == (RegWrite {
            offset: REG_QUEUE_USED_LOW,
            value: (((arena_base + regions.used_off) as u64) & 0xffff_ffff) as u32,
        }),
        plan@[7] == (RegWrite {
            offset: REG_QUEUE_USED_HIGH,
            value: ((arena_base + regions.used_off) as u64 >> 32) as u32,
        }),
        plan@[8] == (RegWrite { offset: REG_QUEUE_READY, value: 1 }),
        forall|k: int| 0 <= k < 8 ==> plan@[k].offset != REG_QUEUE_READY,
{
    let desc_addr = arena_base + regions.desc_off as u64;
    let avail_addr = arena_base + regions.avail_off as u64;
    let used_addr = arena_base + regions.used_off as u64;
    let mut plan: Vec<RegWrite> = Vec::new();
    plan.push(RegWrite::new(REG_QUEUE_SEL, q_idx as u32));
    plan.push(RegWrite::new(REG_QUEUE_NUM, q_size as u32));
    plan.push(RegWrite::new(REG_QUEUE_DESC_LOW, addr_low(desc_addr)));
    plan.push(RegWrite::new(REG_QUEUE_DESC_HIGH, addr_high(desc_addr)));
    plan.push(RegWrite::new(REG_QUEUE_AVAIL_LOW, addr_low(avail_addr)));
    plan.push(RegWrite::new(REG_QUEUE_AVAIL_HIGH, addr_high(avail_addr)));
    plan.push(RegWrite::new(REG_QUEUE_USED_LOW, addr_low(used_addr)));
    plan.push(RegWrite::new(REG_QUEUE_USED_HIGH, addr_high(used_addr)));
    plan.push(RegWrite::new(REG_QUEUE_READY, 1));
    plan
}

} // verus!
