use aether_hv::{allocate_aligned, Arena, ARENA_SIZE};

#[test]
fn fresh_arena_is_zeroed_and_empty() {
    let a = Arena::new();
    assert_eq!(a.len(), ARENA_SIZE);
    assert_eq!(a.next_offset(), 0);
    assert_eq!(a.byte_at(0), 0);
    assert_eq!(a.byte_at(ARENA_SIZE - 1), 0);
}

#[test]
fn exact_fill_succeeds() {
    let mut a = Arena::with_capacity(4096);
    let r = allocate_aligned(&mut a, 4096, 1);
    assert_eq!(r, Some(0));
    assert_eq!(a.next_offset(), 4096);
}

#[test]
fn one_byte_more_fails() {
    let mut a = Arena::with_capacity(4096);
    let r = allocate_aligned(&mut a, 4096, 1);
    assert_eq!(r, Some(0));
    let r2 = allocate_aligned(&mut a, 1, 1);
    assert_eq!(r2, None);
    assert_eq!(a.next_offset(), 4096);
}

#[test]
fn exact_fill_after_padding_succeeds() {
    let mut a = Arena::with_capacity(64);
    assert_eq!(allocate_aligned(&mut a, 3, 1), Some(0));
    // Next offset is 3; aligning to 16 pads to 16, leaving exactly 48 bytes.
    assert_eq!(allocate_aligned(&mut a, 48, 16), Some(16));
    assert_eq!(a.next_offset(), 64);
    assert_eq!(allocate_aligned(&mut a, 1, 1), None);
}

#[test]
fn alignment_padding_past_end_fails_cleanly() {
    let mut a = Arena::with_capacity(64);
    assert_eq!(allocate_aligned(&mut a, 60, 1), Some(0));
    // Only 4 bytes remain; aligning to 32 would need offset 64 and the
    // request must fail without moving the arena.
    assert_eq!(allocate_aligned(&mut a, 1, 32), None);
    assert_eq!(a.next_offset(), 60);
}

#[test]
fn alignment_is_respected() {
    let mut a = Arena::with_capacity(256);
    assert_eq!(allocate_aligned(&mut a, 1, 1), Some(0));
    let r = allocate_aligned(&mut a, 16, 16).unwrap();
    assert_eq!(r % 16, 0);
    assert_eq!(r, 16);
    let r2 = allocate_aligned(&mut a, 8, 4).unwrap();
    assert_eq!(r2, 32);
}

#[test]
fn writes_then_reads_round_trip() {
    let mut a = Arena::with_capacity(128);
    a.write_at(10, &[1, 2, 3, 4]);
    let back = a.read_range(10, 4);
    assert_eq!(back, vec![1, 2, 3, 4]);
    assert_eq!(a.byte_at(9), 0);
    assert_eq!(a.byte_at(14), 0);
}
