//! Boot-time decisions: privilege-level detection, the register values of the
//! drop to the kernel level, device-scan addressing, and counter-to-time
//! conversion.

use vstd::prelude::*;

verus! {

/// Where reset found the core, and what to do about it.
#[derive(Clone, Copy, PartialEq, Eq, Structural, Debug)]
pub enum BootPath {
    /// The core came up at the hypervisor level: configure it and perform a
    /// synchronous exception return down to the kernel level.
    DropToLowerLevel,
    /// The core is already at the kernel level: proceed directly.
    AlreadyAtTarget,
    /// Any other level is a firmware-level invariant violation: halt in a
    /// low-power wait loop, no retry.
    Halt,
}

/// The exception level encoded in the level register's value.
pub fn current_el_of(reg: u64) -> (r: u64)
    ensures
        r == reg >> 2,
{
    reg >> 2
}

/// Decides the boot path from the observed exception level.
pub fn boot_path(el: u64) -> (r: BootPath)
    ensures
        r == (if el == 2 {
            BootPath::DropToLowerLevel
        } else if el == 1 {
            BootPath::AlreadyAtTarget
        } else {
            BootPath::Halt
        }),
{
    if el == 2 {
        BootPath::DropToLowerLevel
    } else if el == 1 {
        BootPath::AlreadyAtTarget
    } else {
        BootPath::Halt
    }
}

/// Execution-control value for the drop: the lower level runs 64-bit code
/// (bit 31) and nothing else is set.
pub fn boot_hcr_value() -> (r: u64)
    ensures
        r == (1u64 << 31),
{
    1u64 << 31
}

/// Saved processor state for the drop: kernel level on its own stack (mode
/// 0b0101) with every interrupt class masked (bits 9:6).
pub fn boot_spsr_value() -> (r: u64)
    ensures
        r == 0x3c5,
        r & 0xF == 0b0101,
        (r >> 6) & 0xF == 0xF,
{
    proof {
        assert(0x3c5u64 & 0xF == 0b0101 && (0x3c5u64 >> 6) & 0xF == 0xF) by (bit_vector);
    }
    0x3c5
}

/// Floating-point/SIMD enable for the kernel level (both accesses untrapped).
pub fn cpacr_fpu_enable() -> (r: u64)
    ensures
        r == (3u64 << 20),
{
    3u64 << 20
}

/// First candidate MMIO slot of the device scan.
pub const MMIO_SCAN_BASE: usize = 0x0a00_0000;

/// Byte stride between candidate MMIO slots.
pub const MMIO_SLOT_STRIDE: usize = 0x200;

/// How many slots the scan probes.
pub const MMIO_SCAN_SLOTS: usize = 32;

/// Base address of the `i`-th candidate MMIO slot.
pub fn mmio_slot_base(i: usize) -> (r: usize)
    requires
        i < MMIO_SCAN_SLOTS,
    ensures
        r == MMIO_SCAN_BASE + i * MMIO_SLOT_STRIDE,
{
    MMIO_SCAN_BASE + i * MMIO_SLOT_STRIDE
}

/// Milliseconds since boot, from the free-running counter and its frequency:
/// ticks times a thousand, divided by ticks-per-second, computed wide enough
/// never to overflow and truncated to the register width.
pub fn counter_to_ms(cntpct: u64, cntfrq: u64) -> (r: u64)
    requires
        cntfrq > 0,
    ensures
        r == (((cntpct as int) * 1000) / (cntfrq as int)) as u64,
{
    (((cntpct as u128) * 1000) / (cntfrq as u128)) as u64
}

} // verus!
