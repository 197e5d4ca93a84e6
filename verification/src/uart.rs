//! Console output logic over the PL011 byte sink.
//!
//! The hardware side of the UART is a byte sink: the transmit register takes
//! one byte at a time, blocking while the FIFO is full. Everything above that
//! — the configuration values, newline translation, hexadecimal and decimal
//! formatting — is computed here, against a transcript model of the sink: the
//! `Uart` value records exactly the bytes pushed, in order, and every printing
//! function states precisely which bytes it appends.

use vstd::prelude::*;
use vstd::string::StringSliceAdditionalSpecFns;
use crate::mmio::RegWrite;

verus! {

/// MMIO base of the UART.
pub const UART_BASE: usize = 0x0900_0000;

/// Data (transmit) register offset.
pub const DR: usize = 0x00;

/// Flag register offset; bit 5 is "transmit FIFO full".
pub const FR: usize = 0x18;

/// Integer baud-rate divisor offset.
pub const IBRD: usize = 0x24;

/// Fractional baud-rate divisor offset.
pub const FBRD: usize = 0x28;

/// Line-control register offset.
pub const LCRH: usize = 0x2C;

/// Control register offset.
pub const CR: usize = 0x30;

/// Interrupt-mask register offset.
pub const IMSC: usize = 0x38;

/// Absolute address of a UART register.
pub fn reg(offset: usize) -> (r: usize)
    requires
        offset <= 0x1000,
    ensures
        r == UART_BASE + offset,
{
    UART_BASE + offset
}

/// The configuration writes, in order: disable while configuring, set the
/// baud divisors (24 MHz clock, 115200 baud), 8-bit frames with FIFOs, mask
/// all interrupts, then enable transmit and receive.
pub fn init_sequence() -> (r: Vec<RegWrite>)
    ensures
        r@.len() == 6,
        r@[0] == (RegWrite { offset: CR, value: 0 }),
        r@[1] == (RegWrite { offset: IBRD, value: 13 }),
        r@[2] == (RegWrite { offset: FBRD, value: 1 }),
        r@[3] == (RegWrite { offset: LCRH, value: (0b11u32 << 5) | (1u32 << 4) }),
        r@[4] == (RegWrite { offset: IMSC, value: 0 }),
        r@[5] == (RegWrite { offset: CR, value: 1u32 | (1u32 << 8) | (1u32 << 9) }),
{
    let mut r: Vec<RegWrite> = Vec::new();
    r.push(RegWrite::new(CR, 0));
    r.push(RegWrite::new(IBRD, 13));
    r.push(RegWrite::new(FBRD, 1));
    r.push(RegWrite::new(LCRH, (0b11u32 << 5) | (1u32 << 4)));
    r.push(RegWrite::new(IMSC, 0));
    r.push(RegWrite::new(CR, 1u32 | (1u32 << 8) | (1u32 << 9)));
    r
}

/// The transmit-FIFO-full bit of a flag-register value: the byte sink blocks
/// while this holds.
pub fn tx_fifo_full(flags: u32) -> (r: bool)
    ensures
        r == (flags & (1u32 << 5) != 0),
{
    flags & (1u32 << 5) != 0
}

/// The transcript of the byte sink: exactly the bytes handed to the data
/// register, in order.
pub struct Uart {
    pub tx: Vec<u8>,
}

impl Uart {
    pub fn new() -> (r: Uart)
        ensures
            r.tx@ == Seq::<u8>::empty(),
    {
        Uart { tx: Vec::new() }
    }
}

/// Pushes one byte to the sink.
pub fn putc(u: &mut Uart, c: u8)
    ensures
        final(u).tx@ == old(u).tx@.push(c),
{
    u.tx.push(c);
}

/// A byte string with every newline expanded to carriage return + newline.
pub open spec fn crlf_expand(s: Seq<u8>) -> Seq<u8>
    decreases s.len(),
{
    if s.len() == 0 {
        Seq::empty()
    } else {
        crlf_expand(s.drop_last()) + (if s.last() == 10u8 {
            seq![13u8, 10u8]
        } else {
            seq![s.last()]
        })
    }
}

/// Prints a string: every byte in order, with newline translated to carriage
/// return + newline for the serial console.
pub fn puts(u: &mut Uart, s: &str)
    ensures
        final(u).tx@ == old(u).tx@ + crlf_expand(s.spec_bytes()),
{
    let b = s.as_bytes();
    let mut i: usize = 0;
    while i < b.len()
        invariant
            i <= b@.len(),
            b@ == s.spec_bytes(),
            u.tx@ == old(u).tx@ + crlf_expand(b@.subrange(0, i as int)),
        decreases b@.len() - i,
    {
        let c = b[i];
        if c == 10 {
            putc(u, 13);
        }
        putc(u, c);
        proof {
            let pre = b@.subrange(0, i as int);
            let cur = b@.subrange(0, i as int + 1);
            assert(cur.drop_last() =~= pre);
            assert(cur.last() == c);
            if c == 10 {
                assert(u.tx@ =~= old(u).tx@ + (crlf_expand(pre) + seq![13u8, 10u8]));
            } else {
                assert(u.tx@ =~= old(u).tx@ + (crlf_expand(pre) + seq![c]));
            }
        }
        i += 1;
    }
    proof {
        assert(b@.subrange(0, b@.len() as int) =~= b@);
    }
}

/// The hexadecimal digit character of a nibble value.
pub open spec fn hex_digit(n: u64) -> u8
    recommends
        n < 16,
{
    if n < 10 {
        (48 + n) as u8
    } else {
        (55 + n) as u8
    }
}

/// The `k`-th nibble of `val`, counting from the least significant.
pub open spec fn hex_nibble(val: u64, k: int) -> u64
    recommends
        0 <= k < 16,
{
    (val >> ((4 * k) as u64)) & 0xF
}

/// The sixteen-character, upper-case, zero-padded hexadecimal rendering of a
/// 64-bit value, most significant nibble first.
pub open spec fn hex_seq(val: u64) -> Seq<u8> {
    Seq::new(16, |i: int| hex_digit(hex_nibble(val, 15 - i)))
}

/// Prints a 64-bit value as sixteen upper-case hexadecimal digits.
pub fn putc_hex64(u: &mut Uart, val: u64)
    ensures
        final(u).tx@ == old(u).tx@ + hex_seq(val),
{
    let mut i: usize = 0;
    while i < 16
        invariant
            i <= 16,
            u.tx@ == old(u).tx@ + hex_seq(val).subrange(0, i as int),
        decreases 16 - i,
    {
        let shift = ((15 - i) * 4) as u64;
        let nib = (val >> shift) & 0xF;
        proof {
            let v = val;
            let sh = shift;
            assert((v >> sh) & 0xF < 16) by (bit_vector);
        }
        let c = if nib < 10 {
            48 + nib as u8
        } else {
            55 + nib as u8
        };
        putc(u, c);
        proof {
            assert(nib == hex_nibble(val, 15 - i as int));
            assert(c == hex_digit(nib));
            assert(hex_seq(val)[i as int] == c);
            assert(hex_seq(val).subrange(0, i as int + 1) =~= hex_seq(val).subrange(
                0,
                i as int,
            ).push(c));
            assert(u.tx@ =~= old(u).tx@ + hex_seq(val).subrange(0, i as int + 1));
        }
        i += 1;
    }
    proof {
        assert(hex_seq(val).subrange(0, 16) =~= hex_seq(val));
    }
}

/// The decimal digit character of a value below ten.
pub open spec fn dec_digit(n: int) -> u8
    recommends
        0 <= n < 10,
{
    (48 + n) as u8
}

/// The decimal rendering of a non-negative value, most significant digit
/// first; zero renders as one digit.
pub open spec fn dec_seq(n: int) -> Seq<u8>
    recommends
        n >= 0,
    decreases n,
{
    if n < 10 {
        seq![dec_digit(n)]
    } else {
        dec_seq(n / 10).push(dec_digit(n % 10))
    }
}

/// Prints a value in decimal, most significant digit first.
pub fn put_decimal(u: &mut Uart, n: u64)
    ensures
        final(u).tx@ == old(u).tx@ + dec_seq(n as int),
{
    if n == 0 {
        putc(u, 48);
        proof {
            assert(u.tx@ =~= old(u).tx@ + dec_seq(0));
        }
        return;
    }
    // Collect the digits least significant first.
    let mut buf: Vec<u8> = Vec::new();
    let mut m: u64 = n;
    while m > 0
        invariant
            m > 0 ==> dec_seq(n as int) == dec_seq(m as int) + buf@.reverse(),
            m == 0 ==> dec_seq(n as int) == buf@.reverse(),
        decreases m,
    {
        let ghost buf0 = buf@;
        let ghost m0 = m as int;
        let d = 48 + (m % 10) as u8;
        buf.push(d);
        m = m / 10;
        proof {
            assert(buf@.reverse() =~= seq![d] + buf0.reverse());
            assert(d == dec_digit(m0 % 10));
            if m0 >= 10 {
                assert(dec_seq(m0) == dec_seq(m0 / 10).push(dec_digit(m0 % 10)));
                assert(dec_seq(m0 / 10).push(d) + buf0.reverse() =~= dec_seq(m0 / 10) + (seq![d]
                    + buf0.reverse()));
            } else {
                assert(dec_seq(m0) == seq![dec_digit(m0)]);
                assert(dec_seq(m0) + buf0.reverse() =~= seq![d] + buf0.reverse());
            }
        }
    }
    // Emit them most significant first.
    let ghost total = buf@.len() as int;
    let mut j: usize = buf.len();
    while j > 0
        invariant
            j <= buf@.len(),
            buf@.len() == total,
            dec_seq(n as int) == buf@.reverse(),
            u.tx@ == old(u).tx@ + dec_seq(n as int).subrange(0, total - j),
        decreases j,
    {
        j -= 1;
        let c = buf[j];
        putc(u, c);
        proof {
            assert(dec_seq(n as int)[total - j - 1] == buf@.reverse()[total - j - 1]);
            assert(buf@.reverse()[total - j - 1] == buf@[j as int]);
            assert(dec_seq(n as int).subrange(0, total - j) =~= dec_seq(n as int).subrange(
                0,
                total - j - 1,
            ).push(c));
            assert(u.tx@ =~= old(u).tx@ + dec_seq(n as int).subrange(0, total - j));
        }
    }
    proof {
        assert(dec_seq(n as int).subrange(0, total) =~= dec_seq(n as int));
    }
}

} // verus!
