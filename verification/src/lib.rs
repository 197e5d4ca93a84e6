//! Verified core logic of a minimal AArch64 hypervisor/kernel bring-up layer:
//! privilege-level and exception dispatch decisions, Stage-2 translation-table
//! construction, interrupt-controller bookkeeping, a bump allocator for
//! DMA-visible buffers, and the VirtIO network transport (handshake, queue
//! setup, descriptor rings, RX priming, loopback completion).
//!
//! All hardware access (volatile MMIO, system registers, exception returns)
//! lives outside this crate; this library computes every value that is written
//! to a register, decides every branch, and owns the ring and arena state as
//! plain data, so that the surrounding firmware is a thin executor.

pub mod allocator;
pub mod boot;
pub mod exceptions;
pub mod gic;
pub mod guest;
pub mod mmio;
pub mod net;
pub mod ring_layout;
pub mod stage2;
pub mod uart;
pub mod virtio_net;
pub mod virtio_queue;

pub use allocator::{allocate_aligned, Arena, ARENA_SIZE};
pub use boot::BootPath;
pub use exceptions::{ExceptionClass, IrqAction, SyncAction};
pub use guest::LaunchStep;
pub use gic::IrqSession;
pub use mmio::RegWrite;
pub use net::{VirtioNetDevice, VirtioRxToken, VirtioTxToken, MTU};
pub use stage2::{Stage2ActivationStep, Stage2Table, Stage2Tables};
pub use uart::{putc, putc_hex64, puts, put_decimal, reg, Uart};
pub use virtio_net::{Handshake, HandshakeState, QueueRegions};
pub use virtio_queue::{VirtQueue, VirtqAvail, VirtqDesc, VirtqUsed, VirtqUsedElem};
