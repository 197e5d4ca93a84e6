//! Bump allocator for the DMA-visible arena.
//!
//! The firmware keeps one statically sized arena from which the VirtIO queue
//! regions and packet buffers are carved. Allocation only ever moves forward;
//! nothing is freed or reused. The arena is modelled as an owned handle that
//! holds the backing bytes and the next-free offset, so every allocation and
//! every later read or write of a buffer is ordinary, bounds-checked data
//! access.

use vstd::prelude::*;
use vstd::arithmetic::div_mod::{lemma_fundamental_div_mod, lemma_mod_self_0, lemma_small_mod};

verus! {

/// Size in bytes of the arena that backs VirtIO queues and packet buffers.
pub const ARENA_SIZE: usize = 2 * 1024 * 1024;

/// True when `a` is a power of two, the only alignments the ring formats ask
/// for.
pub open spec fn is_power_of_two(a: usize) -> bool {
    a > 0 && (a & ((a - 1) as usize)) == 0
}

/// `n` rounded up to the next multiple of `a`.
pub open spec fn align_up(n: int, a: int) -> int
    recommends
        a > 0,
        n >= 0,
{
    n + ((a - (n % a)) % a)
}

/// Rounding up lands on a multiple of `a`, at or after `n`, and less than one
/// whole alignment past it.
pub proof fn lemma_align_up(n: int, a: int)
    requires
        a > 0,
        n >= 0,
    ensures
        align_up(n, a) % a == 0,
        n <= align_up(n, a) < n + a,
{
    let r = n % a;
    lemma_fundamental_div_mod(n, a);
    if r == 0 {
        lemma_mod_self_0(a);
        assert(align_up(n, a) == n);
        assert(n % a == 0);
    } else {
        lemma_small_mod((a - r) as nat, a as nat);
        assert(align_up(n, a) == n + (a - r));
        assert(n == a * (n / a) + r);
        assert(n + (a - r) == a * (n / a) + a);
        assert((n / a + 1) * a == a * (n / a) + a) by (nonlinear_arith);
        vstd::arithmetic::div_mod::lemma_mod_multiples_basic(n / a + 1, a);
    }
}

/// The arena: backing bytes plus the next-free offset. Descriptors refer to
/// buffers by offset into `bytes`, never by pointer.
pub struct Arena {
    bytes: Vec<u8>,
    next: usize,
}

impl View for Arena {
    type V = Seq<u8>;

    /// The backing bytes, as a sequence.
    closed spec fn view(&self) -> Seq<u8> {
        self.bytes@
    }
}

impl Arena {
    /// The arena's size in bytes.
    pub closed spec fn capacity(self) -> int {
        self.bytes@.len() as int
    }

    /// The next-free offset; everything before it has been handed out.
    pub closed spec fn spec_next(self) -> int {
        self.next as int
    }

    pub closed spec fn wf(self) -> bool {
        self.next <= self.bytes@.len()
    }

    /// Bounds every caller may rely on: the capacity is the length of the
    /// backing bytes, and in a well-formed arena the next-free offset sits
    /// inside it.
    pub proof fn lemma_bounds(self)
        ensures
            self.capacity() == self@.len(),
            self.capacity() <= usize::MAX,
            0 <= self.spec_next(),
            self.wf() ==> self.spec_next() <= self.capacity(),
    {
        vstd::std_specs::vec::axiom_spec_len(&self.bytes);
    }

    /// A zeroed arena of `cap` bytes with nothing allocated.
    pub fn with_capacity(cap: usize) -> (r: Arena)
        ensures
            r.wf(),
            r.capacity() == cap,
            r.spec_next() == 0,
            r@ == Seq::new(cap as nat, |i: int| 0u8),
    {
        let mut bytes: Vec<u8> = Vec::new();
        let mut i: usize = 0;
        while i < cap
            invariant
                i <= cap,
                bytes@ =~= Seq::new(i as nat, |j: int| 0u8),
            decreases cap - i,
        {
            bytes.push(0u8);
            i += 1;
        }
        proof {
            assert(bytes@ =~= Seq::new(cap as nat, |i: int| 0u8));
        }
        Arena { bytes, next: 0 }
    }

    /// The whole arena the boot path zeroes and hands to the drivers.
    pub fn new() -> (r: Arena)
        ensures
            r.wf(),
            r.capacity() == ARENA_SIZE,
            r.spec_next() == 0,
            r@ == Seq::new(ARENA_SIZE as nat, |i: int| 0u8),
    {
        Arena::with_capacity(ARENA_SIZE)
    }

    /// The backing bytes themselves: the DMA region the device reads and
    /// writes, for the hardware layer to take the region's address from.
    pub fn bytes(&self) -> (r: &Vec<u8>)
        ensures
            r@ == self@,
    {
        &self.bytes
    }

    /// The arena's size in bytes, for runtime bounds checks.
    pub fn len(&self) -> (r: usize)
        ensures
            r == self.capacity(),
    {
        self.bytes.len()
    }

    /// The next-free offset, for runtime bounds checks.
    pub fn next_offset(&self) -> (r: usize)
        ensures
            r == self.spec_next(),
    {
        self.next
    }

    /// Reads one byte of a buffer.
    pub fn byte_at(&self, off: usize) -> (r: u8)
        requires
            off < self.capacity(),
        ensures
            r == self@[off as int],
    {
        self.bytes[off]
    }

    /// Copies `data` into the arena at `off`, leaving every other byte alone.
    pub fn write_at(&mut self, off: usize, data: &[u8])
        requires
            old(self).wf(),
            off + data@.len() <= old(self).capacity(),
        ensures
            final(self).wf(),
            final(self).capacity() == old(self).capacity(),
            final(self).spec_next() == old(self).spec_next(),
            final(self)@.len() == old(self)@.len(),
            forall|j: int|
                off <= j < off + data@.len() ==> final(self)@[j] == data@[j - off],
            forall|j: int|
                0 <= j < old(self)@.len() && !(off <= j < off + data@.len()) ==> final(self)@[j]
                    == old(self)@[j],
    {
        let cap = self.bytes.len();
        let mut i: usize = 0;
        while i < data.len()
            invariant
                self.wf(),
                i <= data@.len(),
                off + data@.len() <= cap,
                off + data@.len() <= self.capacity(),
                self.capacity() == old(self).capacity(),
                self.spec_next() == old(self).spec_next(),
                self@.len() == old(self)@.len(),
                forall|j: int| off <= j < off + i ==> self@[j] == data@[j - off],
                forall|j: int|
                    0 <= j < old(self)@.len() && !(off <= j < off + i) ==> self@[j] == old(
                        self,
                    )@[j],
            decreases data@.len() - i,
        {
            let b = data[i];
            self.bytes.set(off + i, b);
            i += 1;
        }
    }

    /// Copies `len` bytes out of the arena starting at `off`.
    pub fn read_range(&self, off: usize, len: usize) -> (r: Vec<u8>)
        requires
            off + len <= self.capacity(),
        ensures
            r@ == self@.subrange(off as int, off as int + len as int),
    {
        let cap = self.bytes.len();
        let mut out: Vec<u8> = Vec::new();
        let mut i: usize = 0;
        while i < len
            invariant
                i <= len,
                off + len <= cap,
                off + len <= self.capacity(),
                out@ =~= self@.subrange(off as int, off as int + i as int),
            decreases len - i,
        {
            out.push(self.bytes[off + i]);
            i += 1;
        }
        proof {
            assert(out@ =~= self@.subrange(off as int, off as int + len as int));
        }
        out
    }
}

/// Rounds `n` up to a multiple of `align`, or reports that even the rounded
/// offset lies past `bound`.
pub fn try_align_up(n: usize, bound: usize, align: usize) -> (r: Option<usize>)
    requires
        is_power_of_two(align),
        n <= bound,
    ensures
        r is Some <==> align_up(n as int, align as int) <= bound,
        r is Some ==> r->Some_0 == align_up(n as int, align as int),
{
    let rem = n % align;
    let pad = if rem == 0 {
        0
    } else {
        align - rem
    };
    proof {
        if rem == 0 {
            lemma_mod_self_0(align as int);
        } else {
            lemma_small_mod((align - rem) as nat, align as nat);
        }
        assert(align_up(n as int, align as int) == n + pad);
    }
    if pad <= bound - n {
        Some(n + pad)
    } else {
        None
    }
}

/// Carves `size` bytes out of the arena at the next offset that satisfies
/// `align`, or reports exhaustion. Succeeds exactly when the aligned request
/// still fits: a request that exactly fills the remaining space is granted,
/// one byte more is refused, and an alignment whose padding alone exceeds the
/// remaining space is refused without touching the arena.
pub fn allocate_aligned(arena: &mut Arena, size: usize, align: usize) -> (r: Option<usize>)
    requires
        old(arena).wf(),
        is_power_of_two(align),
    ensures
        final(arena).wf(),
        final(arena).capacity() == old(arena).capacity(),
        final(arena)@ == old(arena)@,
        align_up(old(arena).spec_next(), align as int) + size <= old(arena).capacity() ==> r
            == Some(align_up(old(arena).spec_next(), align as int) as usize),
        align_up(old(arena).spec_next(), align as int) + size > old(arena).capacity() ==> r
            is None,
        r is Some ==> {
            &&& r->Some_0 == align_up(old(arena).spec_next(), align as int)
            &&& r->Some_0 % align == 0
            &&& old(arena).spec_next() <= r->Some_0
            &&& final(arena).spec_next() == r->Some_0 + size
            &&& final(arena).spec_next() <= final(arena).capacity()
        },
        r is None ==> final(arena).spec_next() == old(arena).spec_next(),
{
    let current = arena.next;
    let cap = arena.bytes.len();
    let rem = current % align;
    let pad = if rem == 0 {
        0
    } else {
        align - rem
    };
    proof {
        if rem == 0 {
            lemma_mod_self_0(align as int);
        } else {
            lemma_small_mod((align - rem) as nat, align as nat);
        }
        assert(align_up(current as int, align as int) == current + pad);
        lemma_align_up(current as int, align as int);
    }
    if pad > cap - current {
        return None;
    }
    let aligned = current + pad;
    if size > cap - aligned {
        return None;
    }
    arena.next = aligned + size;
    Some(aligned)
}

} // verus!
