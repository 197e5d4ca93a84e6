use aether_hv::allocator::Arena;
use aether_hv::net::try_rx_consume;
use aether_hv::ring_layout::{
    load_used_ring, publish_avail_idx, ring_publish_sequence, store_avail_slots, store_desc_table,
    RingPublishStep,
};
use aether_hv::virtio_net::{prime_rx_queue, setup_queue, Handshake};
use aether_hv::virtio_queue::VirtQueue;

fn confirmed() -> Handshake {
    let mut hs = Handshake::new();
    hs.reset();
    hs.acknowledge();
    hs.set_driver();
    hs.write_features(0);
    hs.set_features_ok();
    assert!(hs.confirm_features(8));
    hs
}

#[test]
fn descriptor_serializes_little_endian_with_bus_address() {
    let mut arena = Arena::with_capacity(4096);
    let mut q = VirtQueue::new(0, 2);
    q.add_desc(0, 0x100, 1536, 2);
    q.add_desc(1, 0x700, 64, 0);
    let dma_base: u64 = 0x4000_0000;
    store_desc_table(&mut arena, 64, &q, dma_base);

    // Slot 0: address 0x4000_0100, length 0x600, flags 2, next 0.
    let d0 = arena.read_range(64, 16);
    assert_eq!(
        d0,
        vec![0x00, 0x01, 0x00, 0x40, 0, 0, 0, 0, 0x00, 0x06, 0x00, 0x00, 0x02, 0x00, 0x00, 0x00]
    );
    // Slot 1: address 0x4000_0700, length 64, flags 0, next 0.
    let d1 = arena.read_range(80, 16);
    assert_eq!(
        d1,
        vec![0x00, 0x07, 0x00, 0x40, 0, 0, 0, 0, 0x40, 0x00, 0x00, 0x00, 0, 0, 0, 0]
    );
    // Bytes outside the table untouched.
    assert_eq!(arena.byte_at(63), 0);
    assert_eq!(arena.byte_at(96), 0);
}

#[test]
fn available_ring_slots_and_index_serialize_separately() {
    let mut arena = Arena::with_capacity(4096);
    let mut q = VirtQueue::new(0, 4);
    for i in 0..4 {
        q.avail.ring[i] = (3 - i) as u16;
    }
    q.avail.flags = 0x0102;
    q.avail.idx = 0x0A0B;
    let avail_off = 128;
    store_avail_slots(&mut arena, avail_off, &q);
    // Flags and slots are stored; the index bytes stay untouched.
    assert_eq!(arena.read_range(avail_off, 2), vec![0x02, 0x01]);
    assert_eq!(arena.read_range(avail_off + 2, 2), vec![0, 0]);
    assert_eq!(
        arena.read_range(avail_off + 4, 8),
        vec![3, 0, 2, 0, 1, 0, 0, 0]
    );
    // The publish writes exactly the two index bytes.
    publish_avail_idx(&mut arena, avail_off, &q);
    assert_eq!(arena.read_range(avail_off + 2, 2), vec![0x0B, 0x0A]);
    assert_eq!(arena.read_range(avail_off, 2), vec![0x02, 0x01]);
}

#[test]
fn used_ring_decodes_device_written_bytes() {
    let mut arena = Arena::with_capacity(4096);
    let mut q = VirtQueue::new(0, 4);
    let used_off = 256;
    // The device published one completion: flags 0, idx 1, element
    // {id: 3, len: 0x20C} in slot 0.
    arena.write_at(used_off + 2, &[1, 0]);
    arena.write_at(used_off + 4, &[3, 0, 0, 0, 0x0C, 0x02, 0, 0]);
    load_used_ring(&arena, used_off, &mut q);
    assert_eq!(q.used.flags, 0);
    assert_eq!(q.used.idx, 1);
    assert_eq!(q.used.ring[0].id, 3);
    assert_eq!(q.used.ring[0].len, 0x20C);
    assert_eq!(q.used.ring[1].id, 0);
    // Nothing else moved.
    assert_eq!(q.last_used_idx, 0);
    assert_eq!(q.avail.idx, 0);
}

#[test]
fn publish_order_fences_before_index_and_notifies_last() {
    let seq = ring_publish_sequence();
    let slots = seq
        .iter()
        .position(|s| *s == RingPublishStep::StoreAvailableSlots)
        .unwrap();
    let publish = seq
        .iter()
        .position(|s| *s == RingPublishStep::PublishAvailableIndex)
        .unwrap();
    let notify = seq
        .iter()
        .position(|s| *s == RingPublishStep::NotifyDevice)
        .unwrap();
    assert!(slots < publish);
    assert!(seq[slots + 1..publish].contains(&RingPublishStep::StoreBarrier));
    assert!(seq[publish + 1..notify].contains(&RingPublishStep::StoreBarrier));
    assert_eq!(notify, seq.len() - 1);
}

#[test]
fn device_written_frame_reaches_receive_through_the_bytes() {
    // Bring a queue up the way the firmware does: configure, prime, store the
    // rings into their regions.
    let hs = confirmed();
    let mut arena = Arena::new();
    let dma_base: u64 = 0x4000_0000;
    let (mut rx, regions, _plan) = setup_queue(&hs, &mut arena, dma_base, 0, 8).unwrap();
    prime_rx_queue(&mut arena, &mut rx).unwrap();
    store_desc_table(&mut arena, regions.desc_off, &rx, dma_base);
    store_avail_slots(&mut arena, regions.avail_off, &rx);
    publish_avail_idx(&mut arena, regions.avail_off, &rx);

    // The device takes the first available buffer, writes a frame into it
    // past the header, and publishes a used element for it — all in bytes.
    let buf_off = rx.desc[0].addr as usize;
    let payload: Vec<u8> = (10u8..42).collect();
    arena.write_at(buf_off + 12, &payload);
    let used_len = (payload.len() as u32) + 12;
    arena.write_at(regions.used_off + 4, &[0, 0, 0, 0]); // element id 0
    arena.write_at(regions.used_off + 8, &used_len.to_le_bytes());
    arena.write_at(regions.used_off + 2, &[1, 0]); // used index 1

    // The driver decodes the used ring and consumes the completion.
    load_used_ring(&arena, regions.used_off, &mut rx);
    assert_eq!(rx.used.idx, 1);
    let got = try_rx_consume(&mut rx, &arena).unwrap();
    assert_eq!(got, payload);
    assert_eq!(rx.last_used_idx, 1);
}
