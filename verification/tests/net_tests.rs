use aether_hv::allocator::Arena;
use aether_hv::net::{loopback_deliver, prime_tx_queue, try_rx_consume, VirtioNetDevice};
use aether_hv::virtio_net::{prime_rx_queue, REG_QUEUE_NOTIFY};
use aether_hv::virtio_queue::VirtQueue;

/// A device over primed RX and TX rings, with the arena the buffers live in.
fn primed_device(arena: &mut Arena) -> VirtioNetDevice {
    let mut rx = VirtQueue::new(0, 8);
    prime_rx_queue(arena, &mut rx).unwrap();
    let mut tx = VirtQueue::new(1, 8);
    prime_tx_queue(arena, &mut tx).unwrap();
    VirtioNetDevice { base: 0x0a00_0000, rx, tx }
}

#[test]
fn no_packet_available_on_idle_queue() {
    let mut arena = Arena::new();
    let dev = primed_device(&mut arena);
    assert!(dev.receive().is_none());
}

#[test]
fn transmit_token_is_always_available() {
    let mut arena = Arena::new();
    let dev = primed_device(&mut arena);
    let t = dev.transmit().unwrap();
    assert_eq!(t.queue_idx, 1);
}

#[test]
fn loopback_round_trip_is_byte_identical() {
    let mut arena = Arena::new();
    let mut dev = primed_device(&mut arena);

    let payload: Vec<u8> = (0u8..100).collect();
    let tx_token = dev.transmit().unwrap();
    let notify = tx_token.consume(&mut dev.tx, &mut arena, &payload);
    assert_eq!(notify.offset, REG_QUEUE_NOTIFY);
    assert_eq!(notify.value, 1); // the TX queue's index

    // The simulated device completes the published TX descriptor into the
    // next available RX buffer.
    let td = dev.tx.desc[0];
    assert_eq!(td.len as usize, payload.len() + 12);
    loopback_deliver(td, &mut dev.rx, &mut arena);

    // Now a packet is available, and consuming it yields the same bytes.
    let (rx_token, _tx_token) = dev.receive().unwrap();
    let got = rx_token.consume(&mut dev.rx, &arena);
    assert_eq!(got, payload);
}

#[test]
fn consumed_index_advances_and_never_overtakes() {
    let mut arena = Arena::new();
    let mut dev = primed_device(&mut arena);

    for round in 0u8..3 {
        let payload = vec![round; 32];
        let tx_token = dev.transmit().unwrap();
        tx_token.consume(&mut dev.tx, &mut arena, &payload);
        let td = dev.tx.desc[0];
        loopback_deliver(td, &mut dev.rx, &mut arena);
    }
    // Three completions pending; consume them one by one. The locally
    // consumed index only moves forward and stops at the published index.
    assert_eq!(dev.rx.used.idx, 3);
    let mut last = dev.rx.last_used_idx;
    for round in 0u8..3 {
        let got = try_rx_consume(&mut dev.rx, &arena).unwrap();
        assert_eq!(got, vec![round; 32]);
        assert_eq!(dev.rx.last_used_idx, last + 1);
        last = dev.rx.last_used_idx;
        assert!(dev.rx.last_used_idx <= dev.rx.used.idx);
    }
    assert!(try_rx_consume(&mut dev.rx, &arena).is_none());
    assert_eq!(dev.rx.last_used_idx, dev.rx.used.idx);
}

#[test]
fn tx_descriptor_covers_header_and_payload() {
    let mut arena = Arena::new();
    let mut dev = primed_device(&mut arena);
    let payload = vec![0xAB; 64];
    let tx_token = dev.transmit().unwrap();
    tx_token.consume(&mut dev.tx, &mut arena, &payload);
    assert_eq!(dev.tx.desc[0].len, 64 + 12);
    assert_eq!(dev.tx.avail.ring[0], 0);
    assert_eq!(dev.tx.avail.idx, 1);
    // The payload sits past the device header in the reserved buffer.
    let body = arena.read_range(dev.tx.desc[0].addr as usize + 12, 64);
    assert_eq!(body, payload);
}

#[test]
fn empty_payload_round_trips() {
    let mut arena = Arena::new();
    let mut dev = primed_device(&mut arena);
    let payload: Vec<u8> = Vec::new();
    let tx_token = dev.transmit().unwrap();
    tx_token.consume(&mut dev.tx, &mut arena, &payload);
    let td = dev.tx.desc[0];
    loopback_deliver(td, &mut dev.rx, &mut arena);
    let got = try_rx_consume(&mut dev.rx, &arena).unwrap();
    assert_eq!(got, payload);
}
