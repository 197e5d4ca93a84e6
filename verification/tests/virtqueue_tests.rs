use aether_hv::allocator::Arena;
use aether_hv::virtio_net::{
    prime_rx_queue, setup_queue, Handshake, REG_QUEUE_NOTIFY, REG_QUEUE_READY, REG_QUEUE_SEL,
};
use aether_hv::virtio_queue::{VirtQueue, VirtqDesc, VIRTQ_DESC_F_WRITE};

fn confirmed_handshake() -> Handshake {
    let mut hs = Handshake::new();
    hs.reset();
    hs.acknowledge();
    hs.set_driver();
    hs.write_features(0);
    hs.set_features_ok();
    assert!(hs.confirm_features(0xB | 8));
    hs
}

#[test]
fn add_desc_fills_one_slot() {
    let mut q = VirtQueue::new(0, 8);
    q.add_desc(3, 0x1000, 1536, VIRTQ_DESC_F_WRITE);
    assert_eq!(q.desc[3].addr, 0x1000);
    assert_eq!(q.desc[3].len, 1536);
    assert_eq!(q.desc[3].flags, VIRTQ_DESC_F_WRITE);
    assert_eq!(q.desc[3].next, 0);
    assert_eq!(q.desc[2], VirtqDesc { addr: 0, len: 0, flags: 0, next: 0 });
}

#[test]
fn setup_queue_clamps_size_and_ends_with_ready() {
    let hs = confirmed_handshake();
    let mut arena = Arena::new();
    let (q, _regions, plan) = setup_queue(&hs, &mut arena, 0x4000_0000, 0, 256).unwrap();
    assert_eq!(q.size, 128);
    assert_eq!(plan.len(), 9);
    assert_eq!(plan[0].offset, REG_QUEUE_SEL);
    assert_eq!(plan[0].value, 0);
    assert_eq!(plan[8].offset, REG_QUEUE_READY);
    assert_eq!(plan[8].value, 1);
    for w in plan.iter().take(8) {
        assert_ne!(w.offset, REG_QUEUE_READY);
    }
}

#[test]
fn setup_queue_takes_smaller_device_maximum() {
    let hs = confirmed_handshake();
    let mut arena = Arena::new();
    let (q, _regions, _plan) = setup_queue(&hs, &mut arena, 0x4000_0000, 1, 64).unwrap();
    assert_eq!(q.size, 64);
    assert_eq!(q.queue_idx, 1);
    assert_eq!(q.last_used_idx, 0);
}

#[test]
fn setup_queue_regions_are_aligned_and_disjoint() {
    let hs = confirmed_handshake();
    let mut arena = Arena::new();
    let (q, regions, _plan) = setup_queue(&hs, &mut arena, 0x4000_0000, 0, 128).unwrap();
    assert_eq!(regions.desc_off % 16, 0);
    assert_eq!(regions.avail_off % 2, 0);
    assert_eq!(regions.used_off % 4, 0);
    let size = q.size as usize;
    assert!(regions.desc_off + 16 * size <= regions.avail_off);
    assert!(regions.avail_off + 6 + 2 * size <= regions.used_off);
    assert!(regions.used_off + 6 + 8 * size <= arena.len());
}

#[test]
fn setup_queue_fails_cleanly_when_arena_too_small() {
    let hs = confirmed_handshake();
    let mut arena = Arena::with_capacity(64);
    let before = arena.next_offset();
    assert!(setup_queue(&hs, &mut arena, 0x4000_0000, 0, 128).is_none());
    assert_eq!(arena.next_offset(), before);
}

#[test]
fn rx_priming_fills_every_slot_with_unique_writable_buffers() {
    let mut arena = Arena::new();
    let mut q = VirtQueue::new(0, 128);
    let notify = prime_rx_queue(&mut arena, &mut q).unwrap();

    // The available index shows all 128 buffers.
    assert_eq!(q.avail.idx, 128);
    let mut seen = Vec::new();
    for i in 0..128usize {
        let d = q.desc[i];
        assert_eq!(d.flags, VIRTQ_DESC_F_WRITE);
        assert_eq!(d.len, 1536);
        assert!(!seen.contains(&d.addr));
        seen.push(d.addr);
        assert_eq!(q.avail.ring[i], i as u16);
    }
    assert_eq!(notify.offset, REG_QUEUE_NOTIFY);
    assert_eq!(notify.value, 0);
}

#[test]
fn rx_priming_fails_cleanly_without_room() {
    let mut arena = Arena::with_capacity(1536 * 4);
    let mut q = VirtQueue::new(0, 8);
    assert!(prime_rx_queue(&mut arena, &mut q).is_none());
    assert_eq!(arena.next_offset(), 0);
    assert_eq!(q.avail.idx, 0);
}
