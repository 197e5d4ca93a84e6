//! Stage-2 translation tables: an identity-mapped tree covering the first
//! 4 GB of guest-physical space.
//!
//! The tree has a root table whose first entry points at a level-1 table; the
//! level-1 table maps its first gigabyte through a level-2 table of 2 MB
//! blocks and the next three gigabytes as 1 GB blocks. Every block descriptor
//! carries Normal write-back memory attributes, read-write permissions, inner
//! shareability and the access flag, and its output address equals the input
//! address it translates — the identity-mapping invariant.
//!
//! The tables are built once as plain data; programming the table-base and
//! translation-control registers, invalidating stale translations and setting
//! the enable bit are the hardware layer's job, in the order
//! `stage2_activation_sequence` lays down.

use vstd::prelude::*;

verus! {

/// Bits 1:0 of a descriptor: 0b00 is invalid, 0b01 a block (at levels 1 and
/// 2), 0b11 a table pointer.
pub open spec fn desc_type(d: u64) -> u64 {
    d & 0b11
}

/// The valid bit, bit 0.
pub open spec fn desc_is_valid(d: u64) -> bool {
    d & 0b01 == 0b01
}

pub open spec fn desc_is_block(d: u64) -> bool {
    d & 0b11 == 0b01
}

pub open spec fn desc_is_table(d: u64) -> bool {
    d & 0b11 == 0b11
}

/// The access flag, bit 10; without it every use of the entry faults.
pub open spec fn desc_af(d: u64) -> bool {
    d & 0x400 == 0x400
}

/// Memory-attribute field, bits 5:2 (0b1111 is Normal write-back).
pub open spec fn desc_mem_attr(d: u64) -> u64 {
    (d >> 2) & 0xF
}

/// Stage-2 access permissions, bits 7:6 (0b11 is read-write).
pub open spec fn desc_s2ap(d: u64) -> u64 {
    (d >> 6) & 0b11
}

/// Shareability, bits 9:8 (0b11 is inner shareable).
pub open spec fn desc_shareability(d: u64) -> u64 {
    (d >> 8) & 0b11
}

/// Output address of a level-2 block descriptor (a 2 MB block).
pub open spec fn l2_block_output(d: u64) -> u64 {
    d & 0x0000_FFFF_FFE0_0000
}

/// Output address of a level-1 block descriptor (a 1 GB block).
pub open spec fn l1_block_output(d: u64) -> u64 {
    d & 0x0000_FFFF_C000_0000
}

/// Next-level table address of a table descriptor.
pub open spec fn table_next_addr(d: u64) -> u64 {
    d & 0x0000_FFFF_FFFF_F000
}

/// The attribute bits every block descriptor here carries: memory attributes
/// 0b1111 (Normal write-back, bits 5:2), access permissions 0b11 (read-write,
/// bits 7:6), shareability 0b11 (inner, bits 9:8), the access flag (bit 10)
/// and descriptor type 0b01 (block).
pub const BLOCK_ATTR_BITS: u64 = 0x7FD;


/// Builds a level-2 block descriptor mapping the 2 MB block at `block_addr`
/// back to itself.
pub fn l2_block_descriptor(block_addr: u64) -> (d: u64)
    requires
        block_addr % 0x20_0000 == 0,
        block_addr < 0x1_0000_0000_0000,
    ensures
        d == (block_addr & 0x0000_FFFF_FFE0_0000) | BLOCK_ATTR_BITS,
        desc_is_block(d),
        desc_is_valid(d),
        desc_af(d),
        desc_mem_attr(d) == 0b1111,
        desc_s2ap(d) == 0b11,
        desc_shareability(d) == 0b11,
        l2_block_output(d) == block_addr,
{
    let d = (block_addr & 0x0000_FFFF_FFE0_0000) | BLOCK_ATTR_BITS;
    proof {
        let a = block_addr;
        assert((a % 0x20_0000 == 0 && a < 0x1_0000_0000_0000) ==> {
            let x = (a & 0x0000_FFFF_FFE0_0000) | 0x7FDu64;
            &&& x & 0b11 == 0b01
            &&& x & 0b01 == 0b01
            &&& x & 0x400 == 0x400
            &&& (x >> 2) & 0xF == 0b1111
            &&& (x >> 6) & 0b11 == 0b11
            &&& (x >> 8) & 0b11 == 0b11
            &&& x & 0x0000_FFFF_FFE0_0000 == a
        }) by (bit_vector);
    }
    d
}

/// Builds a level-1 block descriptor mapping the 1 GB block at `block_addr`
/// back to itself.
pub fn l1_block_descriptor(block_addr: u64) -> (d: u64)
    requires
        block_addr % 0x4000_0000 == 0,
        block_addr < 0x1_0000_0000_0000,
    ensures
        d == (block_addr & 0x0000_FFFF_C000_0000) | BLOCK_ATTR_BITS,
        desc_is_block(d),
        desc_is_valid(d),
        desc_af(d),
        desc_mem_attr(d) == 0b1111,
        desc_s2ap(d) == 0b11,
        desc_shareability(d) == 0b11,
        l1_block_output(d) == block_addr,
{
    let d = (block_addr & 0x0000_FFFF_C000_0000) | BLOCK_ATTR_BITS;
    proof {
        let a = block_addr;
        assert((a % 0x4000_0000 == 0 && a < 0x1_0000_0000_0000) ==> {
            let x = (a & 0x0000_FFFF_C000_0000) | 0x7FDu64;
            &&& x & 0b11 == 0b01
            &&& x & 0b01 == 0b01
            &&& x & 0x400 == 0x400
            &&& (x >> 2) & 0xF == 0b1111
            &&& (x >> 6) & 0b11 == 0b11
            &&& (x >> 8) & 0b11 == 0b11
            &&& x & 0x0000_FFFF_C000_0000 == a
        }) by (bit_vector);
    }
    d
}

/// Builds a table descriptor pointing at the 4 KB-aligned next-level table.
pub fn table_descriptor(next: u64) -> (d: u64)
    requires
        next % 4096 == 0,
        next < 0x1_0000_0000_0000,
    ensures
        d == (next & 0x0000_FFFF_FFFF_F000) | 0b11,
        desc_is_table(d),
        desc_is_valid(d),
        table_next_addr(d) == next,
{
    let d = (next & 0x0000_FFFF_FFFF_F000) | 0b11u64;
    proof {
        let a = next;
        assert((a % 4096 == 0 && a < 0x1_0000_0000_0000) ==> {
            let x = (a & 0x0000_FFFF_FFFF_F000) | 0b11u64;
            &&& x & 0b11 == 0b11
            &&& x & 0b01 == 0b01
            &&& x & 0x0000_FFFF_FFFF_F000 == a
        }) by (bit_vector);
    }
    d
}

/// One 512-entry translation table.
pub struct Stage2Table {
    pub entries: Vec<u64>,
}

impl Stage2Table {
    pub open spec fn wf(self) -> bool {
        self.entries@.len() == 512
    }

    /// A table of 512 invalid entries.
    pub fn empty() -> (r: Stage2Table)
        ensures
            r.wf(),
            forall|i: int| 0 <= i < 512 ==> r.entries@[i] == 0u64,
    {
        let mut entries: Vec<u64> = Vec::new();
        let mut i: usize = 0;
        while i < 512
            invariant
                i <= 512,
                entries@.len() == i,
                forall|j: int| 0 <= j < i ==> entries@[j] == 0u64,
            decreases 512 - i,
        {
            entries.push(0u64);
            i += 1;
        }
        Stage2Table { entries }
    }
}

/// The three levels of the identity-mapping tree.
pub struct Stage2Tables {
    pub l0: Stage2Table,
    pub l1: Stage2Table,
    pub l2_0: Stage2Table,
}

/// The level-2 entry mapping the `i`-th 2 MB block of the first gigabyte.
pub open spec fn spec_l2_entry(i: int) -> u64 {
    ((i as u64) << 21) | BLOCK_ATTR_BITS
}

/// The level-1 entry mapping the `i`-th gigabyte as one block.
pub open spec fn spec_l1_entry(i: int) -> u64 {
    ((i as u64) << 30) | BLOCK_ATTR_BITS
}

/// Exact contents of a freshly built tree whose level-1 and level-2 tables
/// will live at `l1_addr` and `l2_addr`: the level-2 table maps the first
/// gigabyte in 2 MB blocks, the level-1 table points at it and maps three
/// more 1 GB blocks, everything else is invalid, and the root points at the
/// level-1 table.
pub open spec fn stage2_built(t: Stage2Tables, l1_addr: u64, l2_addr: u64) -> bool {
    &&& t.l0.wf()
    &&& t.l1.wf()
    &&& t.l2_0.wf()
    &&& (forall|i: int| 0 <= i < 512 ==> t.l2_0.entries@[i] == spec_l2_entry(i))
    &&& t.l1.entries@[0] == (l2_addr & 0x0000_FFFF_FFFF_F000) | 0b11
    &&& (forall|i: int| 1 <= i < 4 ==> t.l1.entries@[i] == spec_l1_entry(i))
    &&& (forall|i: int| 4 <= i < 512 ==> t.l1.entries@[i] == 0u64)
    &&& t.l0.entries@[0] == (l1_addr & 0x0000_FFFF_FFFF_F000) | 0b11
    &&& (forall|i: int| 1 <= i < 512 ==> t.l0.entries@[i] == 0u64)
}

/// Builds the whole identity-mapping tree as data. The addresses are where
/// the level-1 and level-2 tables will be placed, 4 KB aligned as the
/// walker demands.
pub fn init_stage2(l1_addr: u64, l2_addr: u64) -> (t: Stage2Tables)
    requires
        l1_addr % 4096 == 0,
        l2_addr % 4096 == 0,
        l1_addr < 0x1_0000_0000_0000,
        l2_addr < 0x1_0000_0000_0000,
    ensures
        stage2_built(t, l1_addr, l2_addr),
{
    // Level 2: the first gigabyte as 512 identity-mapped 2 MB blocks.
    let mut l2 = Stage2Table::empty();
    let mut i: usize = 0;
    while i < 512
        invariant
            i <= 512,
            l2.entries@.len() == 512,
            forall|j: int| 0 <= j < i ==> l2.entries@[j] == spec_l2_entry(j),
        decreases 512 - i,
    {
        let block_addr = (i as u64) << 21;
        proof {
            let k = i as u64;
            assert(k < 512 ==> ((k << 21) % 0x20_0000 == 0 && (k << 21) < 0x1_0000_0000_0000 && ((k
                << 21) & 0x0000_FFFF_FFE0_0000) == (k << 21))) by (bit_vector);
        }
        let desc = l2_block_descriptor(block_addr);
        l2.entries.set(i, desc);
        i += 1;
    }

    // Level 1: entry 0 points at the level-2 table; entries 1..4 are 1 GB
    // identity blocks; the rest stays invalid.
    let mut l1 = Stage2Table::empty();
    let l1e0 = table_descriptor(l2_addr);
    l1.entries.set(0, l1e0);
    let mut g: usize = 1;
    while g < 4
        invariant
            1 <= g <= 4,
            l1.entries@.len() == 512,
            l1.entries@[0] == (l2_addr & 0x0000_FFFF_FFFF_F000) | 0b11,
            forall|j: int| 1 <= j < g ==> l1.entries@[j] == spec_l1_entry(j),
            forall|j: int| g <= j < 512 ==> l1.entries@[j] == 0u64,
        decreases 4 - g,
    {
        let block_addr = (g as u64) << 30;
        proof {
            let k = g as u64;
            assert(k < 4 ==> ((k << 30) % 0x4000_0000 == 0 && (k << 30) < 0x1_0000_0000_0000 && ((k
                << 30) & 0x0000_FFFF_C000_0000) == (k << 30))) by (bit_vector);
        }
        let desc = l1_block_descriptor(block_addr);
        l1.entries.set(g, desc);
        g += 1;
    }

    // Level 0: the root's first entry points at the level-1 table.
    let mut l0 = Stage2Table::empty();
    let l0e0 = table_descriptor(l1_addr);
    l0.entries.set(0, l0e0);

    Stage2Tables { l0, l1, l2_0: l2 }
}

/// The identity-mapping invariant of the built tree: every block descriptor
/// is valid, carries the access flag, and its output address equals the input
/// address of the region it maps (index times block size); the two table
/// descriptors are valid and point at the next level; everything else is
/// invalid.
pub proof fn lemma_stage2_identity_mapping(t: Stage2Tables, l1_addr: u64, l2_addr: u64)
    requires
        stage2_built(t, l1_addr, l2_addr),
        l1_addr % 4096 == 0,
        l2_addr % 4096 == 0,
        l1_addr < 0x1_0000_0000_0000,
        l2_addr < 0x1_0000_0000_0000,
    ensures
        forall|i: int|
            0 <= i < 512 ==> desc_is_valid(#[trigger] t.l2_0.entries@[i]) && desc_is_block(
                t.l2_0.entries@[i],
            ) && desc_af(t.l2_0.entries@[i]) && l2_block_output(t.l2_0.entries@[i]) == i
                * 0x20_0000,
        forall|i: int|
            1 <= i < 4 ==> desc_is_valid(#[trigger] t.l1.entries@[i]) && desc_is_block(
                t.l1.entries@[i],
            ) && desc_af(t.l1.entries@[i]) && l1_block_output(t.l1.entries@[i]) == i
                * 0x4000_0000,
        desc_is_table(t.l1.entries@[0]) && table_next_addr(t.l1.entries@[0]) == l2_addr,
        desc_is_table(t.l0.entries@[0]) && table_next_addr(t.l0.entries@[0]) == l1_addr,
        forall|i: int| 4 <= i < 512 ==> !desc_is_valid(#[trigger] t.l1.entries@[i]),
        forall|i: int| 1 <= i < 512 ==> !desc_is_valid(#[trigger] t.l0.entries@[i]),
{
    assert forall|i: int| 0 <= i < 512 implies desc_is_valid(#[trigger] t.l2_0.entries@[i])
        && desc_is_block(t.l2_0.entries@[i]) && desc_af(t.l2_0.entries@[i]) && l2_block_output(
        t.l2_0.entries@[i],
    ) == i * 0x20_0000 by {
        let k = i as u64;
        assert(t.l2_0.entries@[i] == spec_l2_entry(i));
        assert(spec_l2_entry(i) == (k << 21) | 0x7FDu64);
        assert(k < 512 ==> {
            let x = (k << 21) | 0x7FDu64;
            &&& x & 0b01 == 0b01
            &&& x & 0b11 == 0b01
            &&& x & 0x400 == 0x400
            &&& x & 0x0000_FFFF_FFE0_0000 == k * 0x20_0000
        }) by (bit_vector);
    }
    assert forall|i: int| 1 <= i < 4 implies desc_is_valid(#[trigger] t.l1.entries@[i])
        && desc_is_block(t.l1.entries@[i]) && desc_af(t.l1.entries@[i]) && l1_block_output(
        t.l1.entries@[i],
    ) == i * 0x4000_0000 by {
        let k = i as u64;
        assert(t.l1.entries@[i] == spec_l1_entry(i));
        assert(spec_l1_entry(i) == (k << 30) | 0x7FDu64);
        assert(k < 4 ==> {
            let x = (k << 30) | 0x7FDu64;
            &&& x & 0b01 == 0b01
            &&& x & 0b11 == 0b01
            &&& x & 0x400 == 0x400
            &&& x & 0x0000_FFFF_C000_0000 == k * 0x4000_0000
        }) by (bit_vector);
    }
    let a1 = l1_addr;
    let a2 = l2_addr;
    assert((a1 % 4096 == 0 && a1 < 0x1_0000_0000_0000) ==> {
        let x = (a1 & 0x0000_FFFF_FFFF_F000) | 0b11u64;
        x & 0b11 == 0b11 && x & 0x0000_FFFF_FFFF_F000 == a1
    }) by (bit_vector);
    assert((a2 % 4096 == 0 && a2 < 0x1_0000_0000_0000) ==> {
        let x = (a2 & 0x0000_FFFF_FFFF_F000) | 0b11u64;
        x & 0b11 == 0b11 && x & 0x0000_FFFF_FFFF_F000 == a2
    }) by (bit_vector);
    assert(0u64 & 0b01 == 0) by (bit_vector);
}

/// Level-0 table index of an input address (bits 47:39).
pub open spec fn l0_index(addr: u64) -> int {
    ((addr >> 39) & 0x1FF) as int
}

/// Level-1 table index of an input address (bits 38:30).
pub open spec fn l1_index(addr: u64) -> int {
    ((addr >> 30) & 0x1FF) as int
}

/// Level-2 table index of an input address (bits 29:21).
pub open spec fn l2_index(addr: u64) -> int {
    ((addr >> 21) & 0x1FF) as int
}

/// What the hardware walker computes for `addr` over the built tree, with the
/// two table links followed structurally: the level-0 entry must be a table
/// pointer, then either a 1 GB block at level 1 or a 2 MB block behind the
/// level-1 table pointer supplies the output; anything else faults.
pub open spec fn stage2_translate(t: Stage2Tables, addr: u64) -> Option<u64>
    recommends
        t.l0.wf(),
        t.l1.wf(),
        t.l2_0.wf(),
{
    let e0 = t.l0.entries@[l0_index(addr)];
    if !desc_is_table(e0) {
        None
    } else {
        let e1 = t.l1.entries@[l1_index(addr)];
        if desc_is_block(e1) {
            Some(l1_block_output(e1) | (addr & 0x3FFF_FFFF))
        } else if desc_is_table(e1) {
            let e2 = t.l2_0.entries@[l2_index(addr)];
            if desc_is_block(e2) {
                Some(l2_block_output(e2) | (addr & 0x1F_FFFF))
            } else {
                None
            }
        } else {
            None
        }
    }
}

/// The built tree translates every input address below 4 GB to itself: the
/// walk lands on a valid block whose output address, recombined with the
/// offset bits, is the input address again.
pub proof fn lemma_stage2_translate_identity(
    t: Stage2Tables,
    l1_addr: u64,
    l2_addr: u64,
    addr: u64,
)
    requires
        stage2_built(t, l1_addr, l2_addr),
        l1_addr % 4096 == 0,
        l2_addr % 4096 == 0,
        l1_addr < 0x1_0000_0000_0000,
        l2_addr < 0x1_0000_0000_0000,
        addr < 0x1_0000_0000,
    ensures
        stage2_translate(t, addr) == Some(addr),
{
    let a = addr;
    assert(a < 0x1_0000_0000 ==> (a >> 39) & 0x1FF == 0) by (bit_vector);
    assert(((l1_addr & 0x0000_FFFF_FFFF_F000) | 0b11u64) & 0b11 == 0b11) by (bit_vector);
    assert(a < 0x1_0000_0000 ==> (a >> 30) & 0x1FF < 4) by (bit_vector);
    if l1_index(a) == 0 {
        // First gigabyte: through the level-1 table pointer into the 2 MB
        // blocks of the level-2 table.
        assert(((l2_addr & 0x0000_FFFF_FFFF_F000) | 0b11u64) & 0b11 == 0b11) by (bit_vector);
        assert((a >> 30) & 0x1FF == 0 && a < 0x1_0000_0000 ==> a < 0x4000_0000) by (bit_vector);
        assert((a >> 21) & 0x1FF < 512) by (bit_vector);
        let e2 = t.l2_0.entries@[l2_index(a)];
        assert(e2 == spec_l2_entry(l2_index(a)));
        assert(a < 0x4000_0000 ==> {
            let k = (a >> 21) & 0x1FF;
            let x = (k << 21) | 0x7FDu64;
            &&& x & 0b11 == 0b01
            &&& ((x & 0x0000_FFFF_FFE0_0000) | (a & 0x1F_FFFF)) == a
        }) by (bit_vector);
    } else {
        // One of the three 1 GB blocks at level 1.
        let e1 = t.l1.entries@[l1_index(a)];
        assert(e1 == spec_l1_entry(l1_index(a)));
        assert((a < 0x1_0000_0000 && 1 <= (a >> 30) & 0x1FF && (a >> 30) & 0x1FF < 4) ==> {
            let k = (a >> 30) & 0x1FF;
            let x = (k << 30) | 0x7FDu64;
            &&& x & 0b11 == 0b01
            &&& ((x & 0x0000_FFFF_C000_0000) | (a & 0x3FFF_FFFF)) == a
        }) by (bit_vector);
    }
}

/// The translation-control value: 4 KB granule, 40-bit physical-address size,
/// walk starting at level 0, 40-bit input-address size. These fields must
/// agree with the descriptor layout above, or translation silently produces
/// wrong addresses.
pub fn vtcr_value() -> (r: u64)
    ensures
        r == (0b10u64 << 16) | (0b10u64 << 6) | 24u64,
        r & 0x3F == 24,
        (r >> 6) & 0b11 == 0b10,
        (r >> 14) & 0b11 == 0b00,
        (r >> 16) & 0b111 == 0b10,
{
    let r = (0b10u64 << 16) | (0b10u64 << 6) | 24u64;
    proof {
        assert({
            let x = (0b10u64 << 16) | (0b10u64 << 6) | 24u64;
            &&& x & 0x3F == 24
            &&& (x >> 6) & 0b11 == 0b10
            &&& (x >> 14) & 0b11 == 0b00
            &&& (x >> 16) & 0b111 == 0b10
        }) by (bit_vector);
    }
    r
}

/// Turns on Stage-2 translation in a hypervisor-configuration value: sets the
/// translation-enable bit, 64-bit lower level, and trap-on-SMC, leaving every
/// other bit as read.
pub fn hcr_enable(hcr: u64) -> (r: u64)
    ensures
        r == hcr | 1u64 | (1u64 << 31) | (1u64 << 19),
        r & 1 == 1,
        r & (1u64 << 31) == (1u64 << 31),
        r & (1u64 << 19) == (1u64 << 19),
        r & !(1u64 | (1u64 << 31) | (1u64 << 19)) == hcr & !(1u64 | (1u64 << 31) | (1u64 << 19)),
{
    let r = hcr | 1u64 | (1u64 << 31) | (1u64 << 19);
    proof {
        let h = hcr;
        assert({
            let x = h | 1u64 | (1u64 << 31) | (1u64 << 19);
            &&& x & 1 == 1
            &&& x & (1u64 << 31) == (1u64 << 31)
            &&& x & (1u64 << 19) == (1u64 << 19)
            &&& x & !(1u64 | (1u64 << 31) | (1u64 << 19)) == h & !(1u64 | (1u64 << 31) | (1u64
                << 19))
        }) by (bit_vector);
    }
    r
}

/// The hardware steps that bring the tables live, in the one order that is
/// safe: the stale-translation invalidation (and the barrier that completes
/// it) comes strictly before the enable bit is set, and the enable comes
/// last.
#[derive(Clone, Copy, PartialEq, Eq, Structural, Debug)]
pub enum Stage2ActivationStep {
    WriteTableBase,
    WriteTranslationControl,
    InstructionBarrier,
    InvalidateStaleTranslations,
    DataBarrier,
    EnableTranslation,
}

/// The activation order: base register, control register, barrier, TLB
/// invalidation, barriers, and only then the enable bit.
pub fn stage2_activation_sequence() -> (r: Vec<Stage2ActivationStep>)
    ensures
        r@ == seq![
            Stage2ActivationStep::WriteTableBase,
            Stage2ActivationStep::WriteTranslationControl,
            Stage2ActivationStep::InstructionBarrier,
            Stage2ActivationStep::InvalidateStaleTranslations,
            Stage2ActivationStep::DataBarrier,
            Stage2ActivationStep::InstructionBarrier,
            Stage2ActivationStep::EnableTranslation,
        ],
        r@[3] == Stage2ActivationStep::InvalidateStaleTranslations,
        r@[6] == Stage2ActivationStep::EnableTranslation,
        forall|k: int|
            0 <= k < 7 && #[trigger] r@[k] == Stage2ActivationStep::EnableTranslation ==> k == 6,
{
    let mut r: Vec<Stage2ActivationStep> = Vec::new();
    r.push(Stage2ActivationStep::WriteTableBase);
    r.push(Stage2ActivationStep::WriteTranslationControl);
    r.push(Stage2ActivationStep::InstructionBarrier);
    r.push(Stage2ActivationStep::InvalidateStaleTranslations);
    r.push(Stage2ActivationStep::DataBarrier);
    r.push(Stage2ActivationStep::InstructionBarrier);
    r.push(Stage2ActivationStep::EnableTranslation);
    proof {
        assert(r@ =~= seq![
            Stage2ActivationStep::WriteTableBase,
            Stage2ActivationStep::WriteTranslationControl,
            Stage2ActivationStep::InstructionBarrier,
            Stage2ActivationStep::InvalidateStaleTranslations,
            Stage2ActivationStep::DataBarrier,
            Stage2ActivationStep::InstructionBarrier,
            Stage2ActivationStep::EnableTranslation,
        ]);
    }
    r
}

} // verus!
