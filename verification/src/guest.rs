//! Guest launch sequencing: the values and the one safe order of steps for
//! the irreversible transfer of control into the guest.
//!
//! The guest stub is copied into guest-visible memory, so the instruction
//! cache must be invalidated after the data cache is cleaned — with a data
//! barrier between the two, because the clean must be complete and visible
//! before the invalidation, and an instruction barrier before execution.
//! The guest's vector base is deliberately pointed at an unmapped address so
//! any guest-issued exception escalates instead of being handled locally.

use vstd::prelude::*;

verus! {

/// Where the guest stub is placed.
pub const GUEST_REGION: u64 = 0x4020_0000;

/// The guest's initial stack pointer.
pub const GUEST_STACK: u64 = 0x4021_0000;

/// How many bytes of stub are copied.
pub const GUEST_STUB_LEN: usize = 256;

/// Cache-line stride of the maintenance loops.
pub const CACHE_LINE: u64 = 64;

/// The unmapped vector base handed to the guest, so that its exceptions
/// escalate rather than being handled locally.
pub const INVALID_VECTOR_BASE: u64 = 0xFFFF_FFFF_FFFF_F000;

/// Saved processor state for the guest entry: the kernel level on its own
/// stack (mode 0b0101) with every interrupt class masked (bits 9:6).
pub fn spsr_guest_value() -> (r: u64)
    ensures
        r == (1u64 << 9) | (1u64 << 8) | (1u64 << 7) | (1u64 << 6) | 0b0101u64,
        r & 0xF == 0b0101,
        (r >> 6) & 0xF == 0xF,
{
    proof {
        assert({
            let x = (1u64 << 9) | (1u64 << 8) | (1u64 << 7) | (1u64 << 6) | 0b0101u64;
            x & 0xF == 0b0101 && (x >> 6) & 0xF == 0xF
        }) by (bit_vector);
    }
    (1u64 << 9) | (1u64 << 8) | (1u64 << 7) | (1u64 << 6) | 0b0101u64
}

/// The line-granular addresses a cache-maintenance pass walks over a copied
/// region: one address per cache line.
pub fn cache_maintenance_addrs(region: u64, len: usize) -> (r: Vec<u64>)
    requires
        len as int % CACHE_LINE as int == 0,
        region + len <= u64::MAX,
    ensures
        r@.len() == len as int / CACHE_LINE as int,
        forall|k: int| 0 <= k < r@.len() ==> r@[k] == region + k * CACHE_LINE,
{
    let lines = len / 64;
    let mut r: Vec<u64> = Vec::new();
    let mut k: usize = 0;
    while k < lines
        invariant
            k <= lines,
            lines == len as int / 64,
            len as int % 64 == 0,
            region + len <= u64::MAX,
            r@.len() == k,
            forall|j: int| 0 <= j < k ==> r@[j] == region + j * 64,
        decreases lines - k,
    {
        proof {
            assert((k as int + 1) * 64 <= len as int) by (nonlinear_arith)
                requires
                    k < lines,
                    lines == len as int / 64,
                    len as int % 64 == 0,
            ;
            assert(k as int * 64 + 64 == (k as int + 1) * 64) by (nonlinear_arith);
        }
        r.push(region + (k as u64) * 64);
        k += 1;
    }
    r
}

/// The order-dependent steps of launching the guest; the exception return
/// comes last and there is no return path.
#[derive(Clone, Copy, PartialEq, Eq, Structural, Debug)]
pub enum LaunchStep {
    CopyGuestStub,
    CleanDataCacheLines,
    DataBarrier,
    InvalidateInstructionCacheLines,
    InstructionBarrier,
    SetGuestStackPointer,
    SetGuestVectorBase,
    SetReturnTarget,
    SetSavedProcessorState,
    ExceptionReturn,
}

/// The launch order: copy the stub, clean the data cache and let the barrier
/// make the clean visible before the instruction-cache invalidation, barrier
/// again, then set up the guest's stack, vectors, entry point and saved
/// state, and only then perform the exception return.
pub fn launch_sequence() -> (r: Vec<LaunchStep>)
    ensures
        r@ == seq![
            LaunchStep::CopyGuestStub,
            LaunchStep::CleanDataCacheLines,
            LaunchStep::DataBarrier,
            LaunchStep::InvalidateInstructionCacheLines,
            LaunchStep::DataBarrier,
            LaunchStep::InstructionBarrier,
            LaunchStep::SetGuestStackPointer,
            LaunchStep::SetGuestVectorBase,
            LaunchStep::SetReturnTarget,
            LaunchStep::SetSavedProcessorState,
            LaunchStep::ExceptionReturn,
        ],
        r@[1] == LaunchStep::CleanDataCacheLines,
        r@[2] == LaunchStep::DataBarrier,
        r@[3] == LaunchStep::InvalidateInstructionCacheLines,
        r@[10] == LaunchStep::ExceptionReturn,
        forall|k: int|
            0 <= k < 11 && #[trigger] r@[k] == LaunchStep::ExceptionReturn ==> k == 10,
{
    let mut r: Vec<LaunchStep> = Vec::new();
    r.push(LaunchStep::CopyGuestStub);
    r.push(LaunchStep::CleanDataCacheLines);
    r.push(LaunchStep::DataBarrier);
    r.push(LaunchStep::InvalidateInstructionCacheLines);
    r.push(LaunchStep::DataBarrier);
    r.push(LaunchStep::InstructionBarrier);
    r.push(LaunchStep::SetGuestStackPointer);
    r.push(LaunchStep::SetGuestVectorBase);
    r.push(LaunchStep::SetReturnTarget);
    r.push(LaunchStep::SetSavedProcessorState);
    r.push(LaunchStep::ExceptionReturn);
    proof {
        assert(r@ =~= seq![
            LaunchStep::CopyGuestStub,
            LaunchStep::CleanDataCacheLines,
            LaunchStep::DataBarrier,
            LaunchStep::InvalidateInstructionCacheLines,
            LaunchStep::DataBarrier,
            LaunchStep::InstructionBarrier,
            LaunchStep::SetGuestStackPointer,
            LaunchStep::SetGuestVectorBase,
            LaunchStep::SetReturnTarget,
            LaunchStep::SetSavedProcessorState,
            LaunchStep::ExceptionReturn,
        ]);
    }
    r
}

} // verus!
