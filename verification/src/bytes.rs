//! Big-endian integer primitives shared by every layer of the codec.
//!
//! The wire format stores `u16` and `u32` fields in network byte order and a
//! signed `i16` status as its two's-complement image. The spec functions here
//! are the mathematical definition of those encodings; the executable
//! functions are proved against them.

use vstd::prelude::*;
use vstd::arithmetic::div_mod::{lemma_fundamental_div_mod, lemma_fundamental_div_mod_converse};

verus! {

/// Big-endian image of a `u16`: high byte first.
pub open spec fn be2(x: u16) -> Seq<u8> {
    seq![(x / 256) as u8, (x % 256) as u8]
}

/// Value of two bytes read as a big-endian `u16`.
pub open spec fn be2v(b0: u8, b1: u8) -> u16 {
    (b0 as u16 * 256 + b1 as u16) as u16
}

/// Big-endian image of a `u32`: the two high bytes, then the two low bytes.
pub open spec fn be4(x: u32) -> Seq<u8> {
    be2((x / 0x10000) as u16) + be2((x % 0x10000) as u16)
}

/// Value of four bytes read as a big-endian `u32`.
pub open spec fn be4v(b0: u8, b1: u8, b2: u8, b3: u8) -> u32 {
    (be2v(b0, b1) as u32 * 0x10000 + be2v(b2, b3) as u32) as u32
}

/// Two's-complement image of an `i16` in a `u16` wire field.
pub open spec fn wire_of_i16(x: i16) -> u16 {
    if x >= 0 {
        x as u16
    } else {
        (x + 0x10000) as u16
    }
}

/// The `i16` denoted by a `u16` wire field, read as two's complement.
pub open spec fn i16_of_wire(x: u16) -> i16 {
    if x < 0x8000 {
        x as i16
    } else {
        (x - 0x10000) as i16
    }
}

pub proof fn lemma_be2_of_be2v(b0: u8, b1: u8)
    ensures
        be2(be2v(b0, b1)) == seq![b0, b1],
{
    let x = be2v(b0, b1);
    lemma_fundamental_div_mod_converse(x as int, 256, b0 as int, b1 as int);
    assert(be2(x) =~= seq![b0, b1]);
}

pub proof fn lemma_be2v_of_be2(x: u16)
    ensures
        be2v(be2(x)[0], be2(x)[1]) == x,
{
    lemma_fundamental_div_mod(x as int, 256);
}

pub proof fn lemma_be4_of_be4v(b0: u8, b1: u8, b2: u8, b3: u8)
    ensures
        be4(be4v(b0, b1, b2, b3)) == seq![b0, b1, b2, b3],
{
    let hi = be2v(b0, b1);
    let lo = be2v(b2, b3);
    let x = be4v(b0, b1, b2, b3);
    lemma_fundamental_div_mod_converse(x as int, 0x10000, hi as int, lo as int);
    lemma_be2_of_be2v(b0, b1);
    lemma_be2_of_be2v(b2, b3);
    assert(be4(x) =~= seq![b0, b1, b2, b3]);
}

pub proof fn lemma_be4v_of_be4(x: u32)
    ensures
        be4v(be4(x)[0], be4(x)[1], be4(x)[2], be4(x)[3]) == x,
{
    lemma_fundamental_div_mod(x as int, 0x10000);
    lemma_be2v_of_be2((x / 0x10000) as u16);
    lemma_be2v_of_be2((x % 0x10000) as u16);
}

pub proof fn lemma_i16_wire_roundtrip(x: i16)
    ensures
        i16_of_wire(wire_of_i16(x)) == x,
{
}

pub proof fn lemma_wire_i16_roundtrip(x: u16)
    ensures
        wire_of_i16(i16_of_wire(x)) == x,
{
}

/// Append one byte.
pub fn put_u8(out: &mut Vec<u8>, x: u8)
    ensures
        final(out)@ == old(out)@.push(x),
{
    out.push(x);
}

/// Append a `u16` in big-endian order.
pub fn put_u16(out: &mut Vec<u8>, x: u16)
    ensures
        final(out)@ == old(out)@ + be2(x),
{
    let ghost pre = out@;
    out.push((x / 256) as u8);
    out.push((x % 256) as u8);
    assert(out@ =~= pre + be2(x));
}

/// Append a `u32` in big-endian order.
pub fn put_u32(out: &mut Vec<u8>, x: u32)
    ensures
        final(out)@ == old(out)@ + be4(x),
{
    let ghost pre = out@;
    put_u16(out, (x / 0x10000) as u16);
    put_u16(out, (x % 0x10000) as u16);
    assert(out@ =~= pre + be4(x));
}

/// Append every byte of a slice.
pub fn put_bytes(out: &mut Vec<u8>, b: &[u8])
    ensures
        final(out)@ == old(out)@ + b@,
{
    let ghost pre = out@;
    let n: usize = b.len();
    let mut i: usize = 0;
    while i < n
        invariant
            i <= n,
            n == b@.len(),
            out@ == pre + b@.subrange(0, i as int),
        decreases n - i,
    {
        out.push(b[i]);
        i = i + 1;
        assert(out@ =~= pre + b@.subrange(0, i as int));
    }
    assert(out@ =~= pre + b@);
}

/// Read fifteen bytes at `pos` into a fixed array.
pub fn read_arr15(buf: &[u8], pos: usize) -> (r: [u8; 15])
    requires
        pos + 15 <= buf@.len(),
    ensures
        r@ == buf@.subrange(pos as int, pos + 15),
{
    let r: [u8; 15] = [
        buf[pos],
        buf[pos + 1],
        buf[pos + 2],
        buf[pos + 3],
        buf[pos + 4],
        buf[pos + 5],
        buf[pos + 6],
        buf[pos + 7],
        buf[pos + 8],
        buf[pos + 9],
        buf[pos + 10],
        buf[pos + 11],
        buf[pos + 12],
        buf[pos + 13],
        buf[pos + 14],
    ];
    assert(r@ =~= buf@.subrange(pos as int, pos + 15));
    r
}

/// Read a big-endian `u16` at `pos`.
pub fn read_u16(buf: &[u8], pos: usize) -> (r: u16)
    requires
        pos + 2 <= buf@.len(),
    ensures
        r == be2v(buf@[pos as int], buf@[pos + 1]),
{
    let b0 = buf[pos];
    let b1 = buf[pos + 1];
    b0 as u16 * 256 + b1 as u16
}

/// Read a big-endian `u32` at `pos`.
pub fn read_u32(buf: &[u8], pos: usize) -> (r: u32)
    requires
        pos + 4 <= buf@.len(),
    ensures
        r == be4v(buf@[pos as int], buf@[pos + 1], buf@[pos + 2], buf@[pos + 3]),
{
    // Pins buf@.len() to a usize, so pos + 2 below cannot overflow.
    let _n: usize = buf.len();
    let hi = read_u16(buf, pos);
    let lo = read_u16(buf, pos + 2);
    hi as u32 * 0x10000 + lo as u32
}

/// Convert a wire `u16` to the `i16` it denotes (two's complement).
pub fn u16_to_i16(x: u16) -> (r: i16)
    ensures
        r == i16_of_wire(x),
{
    if x < 0x8000 {
        x as i16
    } else {
        let m: i32 = (x as i32) - 0x10000;
        m as i16
    }
}

/// Convert an `i16` to its `u16` wire image (two's complement).
pub fn i16_to_u16(x: i16) -> (r: u16)
    ensures
        r == wire_of_i16(x),
{
    if x >= 0 {
        x as u16
    } else {
        let m: i32 = (x as i32) + 0x10000;
        m as u16
    }
}

} // verus!
