use aether_hv::exceptions::{
    classify_irq, dispatch_irq, exception_class, sync_action, vbar_misaligned, vector_slot_class,
    vector_slot_handled, ExceptionClass, IrqAction, SyncAction, EC_SVC64,
};
use aether_hv::gic::{
    gicd_ctlr_enable, icc_sre_enable, mask_irq_id, waker_children_asleep, waker_clear_sleep,
    IrqSession,
};

#[test]
fn timer_irq_reloads_timer_and_skips_net_handler() {
    let a = classify_irq(30);
    assert_eq!(a, IrqAction::TimerReload);
    assert_ne!(a, IrqAction::NetInterrupt);
}

#[test]
fn virtio_range_goes_to_net_handler() {
    assert_eq!(classify_irq(48), IrqAction::NetInterrupt);
    assert_eq!(classify_irq(72), IrqAction::NetInterrupt);
    assert_eq!(classify_irq(96), IrqAction::NetInterrupt);
    assert_eq!(classify_irq(47), IrqAction::ExternalLog);
    assert_eq!(classify_irq(97), IrqAction::ExternalLog);
}

#[test]
fn special_ids_are_spurious() {
    assert_eq!(classify_irq(1022), IrqAction::ExternalLog);
    assert_eq!(classify_irq(1023), IrqAction::Spurious);
    assert_eq!(classify_irq(5000), IrqAction::Spurious);
}

#[test]
fn acknowledge_then_exactly_one_end_of_interrupt() {
    let mut s = IrqSession::new();
    let irq = s.acknowledge(30);
    assert_eq!(irq, 30);
    assert_eq!(s.acknowledged, 1);
    assert_eq!(s.completed, 0);
    let w = s.end_of_interrupt(irq);
    assert_eq!(w, 30);
    assert_eq!(s.completed, 1);
    assert_eq!(s.acknowledged, s.completed);
    assert_eq!(s.in_service, None);
}

#[test]
fn dispatch_balances_ack_and_eoi_on_every_path() {
    let mut s = IrqSession::new();
    for (raw, expected) in [
        (30u64, IrqAction::TimerReload),
        (50, IrqAction::NetInterrupt),
        (7, IrqAction::ExternalLog),
        (1023, IrqAction::Spurious),
    ] {
        let before = s.acknowledged;
        let (action, irq) = dispatch_irq(&mut s, raw);
        assert_eq!(action, expected);
        assert_eq!(irq as u64, raw);
        assert_eq!(s.acknowledged, before + 1);
        assert_eq!(s.completed, s.acknowledged);
    }
}

#[test]
fn acknowledge_masks_to_24_bits() {
    assert_eq!(mask_irq_id(0xFFFF_FFFF_FF12_3456), 0x123456);
    assert_eq!(mask_irq_id(30), 30);
}

#[test]
fn supervisor_call_resumes_past_the_instruction() {
    let esr = EC_SVC64 << 26;
    assert_eq!(exception_class(esr), EC_SVC64);
    assert_eq!(sync_action(esr, 0x4000_0000), SyncAction::ResumeAt(0x4000_0004));
}

#[test]
fn other_sync_classes_are_fatal() {
    let esr = 0x24u64 << 26; // a data abort, for instance
    assert_eq!(sync_action(esr, 0x4000_0000), SyncAction::FatalHalt);
    assert_eq!(sync_action(0, 0), SyncAction::FatalHalt);
}

#[test]
fn vector_table_layout() {
    assert_eq!(vector_slot_class(4), ExceptionClass::Synchronous);
    assert_eq!(vector_slot_class(5), ExceptionClass::Irq);
    assert_eq!(vector_slot_class(6), ExceptionClass::Fiq);
    assert_eq!(vector_slot_class(7), ExceptionClass::SError);
    for slot in 0..16 {
        assert_eq!(vector_slot_handled(slot), slot == 4 || slot == 5);
    }
}

#[test]
fn vector_base_alignment_check() {
    assert!(!vbar_misaligned(0x4000_0000));
    assert!(!vbar_misaligned(0x800));
    assert!(vbar_misaligned(0x4000_0004));
    assert!(vbar_misaligned(0x7FF));
}

#[test]
fn controller_bring_up_values() {
    assert_eq!(gicd_ctlr_enable(), (1 << 4) | (1 << 1));
    assert_eq!(waker_clear_sleep(0b0110), 0b0100);
    assert!(waker_children_asleep(0b0100));
    assert!(!waker_children_asleep(0b0000));
    assert_eq!(icc_sre_enable(0x8), 0x9);
}
