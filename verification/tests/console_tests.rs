use aether_hv::boot::{boot_path, boot_spsr_value, counter_to_ms, current_el_of, mmio_slot_base, BootPath};
use aether_hv::guest::{cache_maintenance_addrs, launch_sequence, spsr_guest_value, LaunchStep};
use aether_hv::uart::{
    init_sequence, put_decimal, putc, putc_hex64, puts, reg, tx_fifo_full, Uart, CR, IBRD, UART_BASE,
};

#[test]
fn hex_rendering_is_zero_padded_upper_case() {
    let mut u = Uart::new();
    putc_hex64(&mut u, 0xDEAD_BEEF);
    assert_eq!(u.tx, b"00000000DEADBEEF".to_vec());

    let mut u = Uart::new();
    putc_hex64(&mut u, 0);
    assert_eq!(u.tx, b"0000000000000000".to_vec());

    let mut u = Uart::new();
    putc_hex64(&mut u, u64::MAX);
    assert_eq!(u.tx, b"FFFFFFFFFFFFFFFF".to_vec());
}

#[test]
fn decimal_rendering() {
    let mut u = Uart::new();
    put_decimal(&mut u, 0);
    assert_eq!(u.tx, b"0".to_vec());

    let mut u = Uart::new();
    put_decimal(&mut u, 12345);
    assert_eq!(u.tx, b"12345".to_vec());

    let mut u = Uart::new();
    put_decimal(&mut u, u64::MAX);
    assert_eq!(u.tx, b"18446744073709551615".to_vec());
}

#[test]
fn newline_becomes_carriage_return_newline() {
    let mut u = Uart::new();
    puts(&mut u, "ab\ncd\n");
    assert_eq!(u.tx, b"ab\r\ncd\r\n".to_vec());
}

#[test]
fn putc_appends_one_byte() {
    let mut u = Uart::new();
    putc(&mut u, b'X');
    putc(&mut u, b'Y');
    assert_eq!(u.tx, b"XY".to_vec());
}

#[test]
fn uart_register_addresses_and_config() {
    assert_eq!(reg(CR), UART_BASE + 0x30);
    let seq = init_sequence();
    assert_eq!(seq.len(), 6);
    assert_eq!((seq[0].offset, seq[0].value), (CR, 0)); // disabled first
    assert_eq!((seq[1].offset, seq[1].value), (IBRD, 13));
    assert_eq!((seq[5].offset, seq[5].value), (CR, 1 | (1 << 8) | (1 << 9))); // enabled last
    assert!(tx_fifo_full(1 << 5));
    assert!(!tx_fifo_full(0));
}

#[test]
fn counter_conversion_to_milliseconds() {
    assert_eq!(counter_to_ms(62_500_000 * 3, 62_500_000), 3000);
    assert_eq!(counter_to_ms(0, 24_000_000), 0);
    assert_eq!(counter_to_ms(12_000_000, 24_000_000), 500);
    // Wide intermediate arithmetic: no overflow near the counter's top.
    assert_eq!(counter_to_ms(u64::MAX, 1000), u64::MAX);
}

#[test]
fn boot_level_decisions() {
    assert_eq!(current_el_of(2 << 2), 2);
    assert_eq!(boot_path(2), BootPath::DropToLowerLevel);
    assert_eq!(boot_path(1), BootPath::AlreadyAtTarget);
    assert_eq!(boot_path(0), BootPath::Halt);
    assert_eq!(boot_path(3), BootPath::Halt);
    assert_eq!(boot_spsr_value(), 0x3c5);
}

#[test]
fn mmio_scan_addresses() {
    assert_eq!(mmio_slot_base(0), 0x0a00_0000);
    assert_eq!(mmio_slot_base(31), 0x0a00_0000 + 31 * 0x200);
}

#[test]
fn guest_launch_order_and_state() {
    assert_eq!(spsr_guest_value(), 0x3c5);
    let seq = launch_sequence();
    let clean = seq
        .iter()
        .position(|s| *s == LaunchStep::CleanDataCacheLines)
        .unwrap();
    let inval = seq
        .iter()
        .position(|s| *s == LaunchStep::InvalidateInstructionCacheLines)
        .unwrap();
    assert!(clean < inval);
    // A data barrier stands between the clean and the invalidation.
    assert!(seq[clean + 1..inval].contains(&LaunchStep::DataBarrier));
    assert_eq!(*seq.last().unwrap(), LaunchStep::ExceptionReturn);
}

#[test]
fn cache_maintenance_walks_whole_region_by_lines() {
    let addrs = cache_maintenance_addrs(0x4020_0000, 256);
    assert_eq!(addrs.len(), 4);
    assert_eq!(addrs, vec![0x4020_0000, 0x4020_0040, 0x4020_0080, 0x4020_00C0]);
}
