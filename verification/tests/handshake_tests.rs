use aether_hv::virtio_net::{
    handle_interrupt, negotiate_features, probe, Handshake, HandshakeState,
    DRIVER_SUPPORTED_FEATURES, REG_DRIVER_FEATURES, REG_INTERRUPT_ACK, REG_STATUS,
    STATUS_ACKNOWLEDGE, STATUS_DRIVER, STATUS_DRIVER_OK, STATUS_FEATURES_OK, VIRTIO_MAGIC,
};

#[test]
fn probe_accepts_only_network_cards() {
    assert!(probe(VIRTIO_MAGIC, 1));
    assert!(!probe(VIRTIO_MAGIC, 2)); // another device class is skipped
    assert!(!probe(0xDEAD_BEEF, 1)); // wrong magic is skipped
    assert!(!probe(0, 0));
}

#[test]
fn negotiation_echoes_no_unsupported_bit() {
    let offered = 0x0003_0107;
    let accepted = negotiate_features(offered);
    // Only bits both offered and implemented come back; this driver
    // implements no optional feature, so nothing is echoed.
    assert_eq!(accepted & !offered, 0);
    assert_eq!(accepted & !DRIVER_SUPPORTED_FEATURES, 0);
    assert_eq!(accepted, offered & DRIVER_SUPPORTED_FEATURES);
    assert_eq!(accepted, 0);
}

#[test]
fn handshake_happy_path_writes_status_in_strict_order() {
    let mut hs = Handshake::new();

    let w = hs.reset();
    assert_eq!((w.offset, w.value), (REG_STATUS, 0));

    let w = hs.acknowledge();
    assert_eq!((w.offset, w.value), (REG_STATUS, STATUS_ACKNOWLEDGE));

    let w = hs.set_driver();
    assert_eq!((w.offset, w.value), (REG_STATUS, STATUS_ACKNOWLEDGE | STATUS_DRIVER));

    let w = hs.write_features(0x1234);
    assert_eq!(w.offset, REG_DRIVER_FEATURES);
    assert_eq!(w.value, 0x1234 & DRIVER_SUPPORTED_FEATURES);

    let w = hs.set_features_ok();
    assert_eq!(
        (w.offset, w.value),
        (REG_STATUS, STATUS_ACKNOWLEDGE | STATUS_DRIVER | STATUS_FEATURES_OK)
    );

    // The device left FEATURES_OK set: the handshake may configure queues.
    let ok = hs.confirm_features(STATUS_ACKNOWLEDGE | STATUS_DRIVER | STATUS_FEATURES_OK);
    assert!(ok);
    assert_eq!(hs.state, HandshakeState::FeaturesConfirmed);

    hs.queues_configured();
    let w = hs.driver_ok(STATUS_ACKNOWLEDGE | STATUS_DRIVER | STATUS_FEATURES_OK);
    assert_eq!(w.offset, REG_STATUS);
    assert_eq!(
        w.value,
        STATUS_ACKNOWLEDGE | STATUS_DRIVER | STATUS_FEATURES_OK | STATUS_DRIVER_OK
    );
    assert_eq!(hs.state, HandshakeState::Active);
}

#[test]
fn feature_rejection_halts_before_queue_setup() {
    let mut hs = Handshake::new();
    hs.reset();
    hs.acknowledge();
    hs.set_driver();
    hs.write_features(0xFFFF_FFFF);
    hs.set_features_ok();

    // The device cleared FEATURES_OK: initialization is dead, and the
    // handshake never reaches the state queue setup demands, so no
    // queue-ready register write can be produced.
    let ok = hs.confirm_features(STATUS_ACKNOWLEDGE | STATUS_DRIVER);
    assert!(!ok);
    assert_eq!(hs.state, HandshakeState::Failed);
    assert_ne!(hs.state, HandshakeState::FeaturesConfirmed);
}

#[test]
fn interrupt_is_acknowledged_with_observed_bits() {
    let d = handle_interrupt(0x3);
    assert_eq!(d.ack.offset, REG_INTERRUPT_ACK);
    assert_eq!(d.ack.value, 0x3);
    assert!(d.used_ring_update);
    assert!(d.config_change);

    let d = handle_interrupt(0x1);
    assert_eq!(d.ack.value, 0x1);
    assert!(d.used_ring_update);
    assert!(!d.config_change);

    let d = handle_interrupt(0x2);
    assert!(!d.used_ring_update);
    assert!(d.config_change);
}
