use aether_hv::stage2::{
    hcr_enable, init_stage2, l1_block_descriptor, l2_block_descriptor, stage2_activation_sequence,
    table_descriptor, vtcr_value, Stage2ActivationStep, BLOCK_ATTR_BITS,
};

#[test]
fn l2_descriptor_is_identity_mapped_and_valid() {
    for i in [0u64, 1, 7, 511] {
        let addr = i << 21;
        let d = l2_block_descriptor(addr);
        // Output address equals the input address and the valid bit is set.
        assert_eq!(d & 0x0000_FFFF_FFE0_0000, addr);
        assert_eq!(d & 1, 1);
        // Block type, access flag, Normal WB, RW, inner shareable.
        assert_eq!(d & 0b11, 0b01);
        assert_eq!(d & (1 << 10), 1 << 10);
        assert_eq!((d >> 2) & 0xF, 0b1111);
        assert_eq!((d >> 6) & 0b11, 0b11);
        assert_eq!((d >> 8) & 0b11, 0b11);
    }
}

#[test]
fn l1_descriptor_is_identity_mapped_and_valid() {
    for i in [1u64, 2, 3] {
        let addr = i << 30;
        let d = l1_block_descriptor(addr);
        assert_eq!(d & 0x0000_FFFF_C000_0000, addr);
        assert_eq!(d & 1, 1);
        assert_eq!(d & 0b11, 0b01);
    }
}

#[test]
fn table_descriptor_points_at_next_level() {
    let d = table_descriptor(0x4000_1000);
    assert_eq!(d, 0x4000_1000 | 0b11);
    assert_eq!(d & 0x0000_FFFF_FFFF_F000, 0x4000_1000);
    assert_eq!(d & 0b11, 0b11);
}

#[test]
fn built_tree_is_identity_mapped() {
    let l1_addr = 0x4010_0000u64;
    let l2_addr = 0x4010_1000u64;
    let t = init_stage2(l1_addr, l2_addr);
    assert_eq!(t.l2_0.entries.len(), 512);
    for i in 0..512u64 {
        let d = t.l2_0.entries[i as usize];
        assert_eq!(d, (i << 21) | BLOCK_ATTR_BITS);
        assert_eq!(d & 0x0000_FFFF_FFE0_0000, i * 0x20_0000);
        assert_eq!(d & 1, 1);
    }
    assert_eq!(t.l1.entries[0], l2_addr | 0b11);
    for i in 1..4u64 {
        assert_eq!(t.l1.entries[i as usize], (i << 30) | BLOCK_ATTR_BITS);
    }
    for i in 4..512 {
        assert_eq!(t.l1.entries[i], 0);
    }
    assert_eq!(t.l0.entries[0], l1_addr | 0b11);
    for i in 1..512 {
        assert_eq!(t.l0.entries[i], 0);
    }
}

#[test]
fn translation_control_fields_match_descriptor_layout() {
    let v = vtcr_value();
    assert_eq!(v, (0b10 << 16) | (0b10 << 6) | 24);
    assert_eq!(v & 0x3F, 24); // 40-bit input-address size
    assert_eq!((v >> 6) & 0b11, 0b10); // walk starts at level 0
    assert_eq!((v >> 14) & 0b11, 0b00); // 4 KB granule
    assert_eq!((v >> 16) & 0b111, 0b10); // 40-bit physical-address size
}

#[test]
fn hcr_enable_sets_only_its_bits() {
    let r = hcr_enable(0);
    assert_eq!(r, 1 | (1 << 31) | (1 << 19));
    let prev = 0x0000_0000_5A5A_0000u64;
    let r2 = hcr_enable(prev);
    assert_eq!(r2 & 1, 1);
    assert_eq!(r2 & !(1 | (1 << 31) | (1 << 19)), prev & !(1 | (1 << 31) | (1 << 19)));
}

#[test]
fn activation_invalidates_before_enabling() {
    let seq = stage2_activation_sequence();
    assert_eq!(seq.len(), 7);
    let inval = seq
        .iter()
        .position(|s| *s == Stage2ActivationStep::InvalidateStaleTranslations)
        .unwrap();
    let enable = seq
        .iter()
        .position(|s| *s == Stage2ActivationStep::EnableTranslation)
        .unwrap();
    assert!(inval < enable);
    assert_eq!(enable, seq.len() - 1);
}
