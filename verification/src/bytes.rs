//! Big-endian integers in byte sequences.
//!
//! Every multi-byte field of an HFS Plus volume is stored big-endian. The
//! spec functions here say what value a run of bytes denotes; the executable
//! readers and writers are proved against them.

use vstd::prelude::*;

verus! {

/// The unsigned 16-bit value stored big-endian at `s[at], s[at + 1]`.
pub open spec fn be_u16(s: Seq<u8>, at: int) -> u16 {
    (s[at] as int * 0x100 + s[at + 1] as int) as u16
}

/// The unsigned 32-bit value stored big-endian at `s[at] .. s[at + 3]`.
pub open spec fn be_u32(s: Seq<u8>, at: int) -> u32 {
    (be_u16(s, at) as int * 0x1_0000 + be_u16(s, at + 2) as int) as u32
}

/// The unsigned 64-bit value stored big-endian at `s[at] .. s[at + 7]`.
pub open spec fn be_u64(s: Seq<u8>, at: int) -> u64 {
    (be_u32(s, at) as int * 0x1_0000_0000 + be_u32(s, at + 4) as int) as u64
}

/// The two's-complement 16-bit value stored big-endian at `s[at], s[at + 1]`.
pub open spec fn be_i16(s: Seq<u8>, at: int) -> i16 {
    let raw = be_u16(s, at) as int;
    if raw < 0x8000 {
        raw as i16
    } else {
        (raw - 0x1_0000) as i16
    }
}

/// The two's-complement 32-bit value stored big-endian at `s[at] .. s[at + 3]`.
pub open spec fn be_i32(s: Seq<u8>, at: int) -> i32 {
    let raw = be_u32(s, at) as int;
    if raw < 0x8000_0000 {
        raw as i32
    } else {
        (raw - 0x1_0000_0000) as i32
    }
}

/// The two's-complement 8-bit value of the byte `s[at]`.
pub open spec fn be_i8(s: Seq<u8>, at: int) -> i8 {
    let raw = s[at] as int;
    if raw < 0x80 {
        raw as i8
    } else {
        (raw - 0x100) as i8
    }
}

/// The big-endian encoding of `v`, most significant byte first.
pub open spec fn u16_be_bytes(v: u16) -> Seq<u8> {
    seq![(v / 0x100) as u8, (v % 0x100) as u8]
}

/// The big-endian encoding of `v`, most significant byte first.
pub open spec fn u32_be_bytes(v: u32) -> Seq<u8> {
    u16_be_bytes((v / 0x1_0000) as u16) + u16_be_bytes((v % 0x1_0000) as u16)
}

/// Decoding the encoding of `v` gives `v` back.
pub proof fn lemma_u16_be_round_trip(v: u16)
    ensures
        u16_be_bytes(v).len() == 2,
        be_u16(u16_be_bytes(v), 0) == v,
{
}

/// Decoding the encoding of `v` gives `v` back.
pub proof fn lemma_u32_be_round_trip(v: u32)
    ensures
        u32_be_bytes(v).len() == 4,
        be_u32(u32_be_bytes(v), 0) == v,
{
    let hi = (v / 0x1_0000) as u16;
    let lo = (v % 0x1_0000) as u16;
    lemma_u16_be_round_trip(hi);
    lemma_u16_be_round_trip(lo);
    let s = u32_be_bytes(v);
    assert(s[0] == u16_be_bytes(hi)[0]);
    assert(s[1] == u16_be_bytes(hi)[1]);
    assert(s[2] == u16_be_bytes(lo)[0]);
    assert(s[3] == u16_be_bytes(lo)[1]);
}

/// Reads the big-endian `u16` at `b[at], b[at + 1]`.
pub fn read_be_u16(b: &[u8], at: usize) -> (v: u16)
    requires
        at + 2 <= b.len(),
    ensures
        v == be_u16(b@, at as int),
{
    let hi: u16 = b[at] as u16;
    let lo: u16 = b[at + 1] as u16;
    hi * 0x100 + lo
}

/// Reads the big-endian `u32` at `b[at] .. b[at + 3]`.
pub fn read_be_u32(b: &[u8], at: usize) -> (v: u32)
    requires
        at + 4 <= b.len(),
    ensures
        v == be_u32(b@, at as int),
{
    let hi: u32 = read_be_u16(b, at) as u32;
    let lo: u32 = read_be_u16(b, at + 2) as u32;
    hi * 0x1_0000 + lo
}

/// Reads the big-endian `u64` at `b[at] .. b[at + 7]`.
pub fn read_be_u64(b: &[u8], at: usize) -> (v: u64)
    requires
        at + 8 <= b.len(),
    ensures
        v == be_u64(b@, at as int),
{
    let hi: u64 = read_be_u32(b, at) as u64;
    let lo: u64 = read_be_u32(b, at + 4) as u64;
    hi * 0x1_0000_0000 + lo
}

/// Reads the byte `b[at]` as a two's-complement `i8`.
pub fn read_be_i8(b: &[u8], at: usize) -> (v: i8)
    requires
        at < b.len(),
    ensures
        v == be_i8(b@, at as int),
{
    let raw: i16 = b[at] as i16;
    if raw < 0x80 {
        raw as i8
    } else {
        (raw - 0x100) as i8
    }
}

/// Reads the big-endian two's-complement `i16` at `b[at], b[at + 1]`.
pub fn read_be_i16(b: &[u8], at: usize) -> (v: i16)
    requires
        at + 2 <= b.len(),
    ensures
        v == be_i16(b@, at as int),
{
    let raw: i32 = read_be_u16(b, at) as i32;
    if raw < 0x8000 {
        raw as i16
    } else {
        (raw - 0x1_0000) as i16
    }
}

/// Reads the big-endian two's-complement `i32` at `b[at] .. b[at + 3]`.
pub fn read_be_i32(b: &[u8], at: usize) -> (v: i32)
    requires
        at + 4 <= b.len(),
    ensures
        v == be_i32(b@, at as int),
{
    let raw: i64 = read_be_u32(b, at) as i64;
    if raw < 0x8000_0000 {
        raw as i32
    } else {
        (raw - 0x1_0000_0000) as i32
    }
}

/// Appends the big-endian encoding of `v` to `out`.
pub fn push_be_u16(out: &mut Vec<u8>, v: u16)
    ensures
        final(out)@ == old(out)@ + u16_be_bytes(v),
{
    out.push((v / 0x100) as u8);
    out.push((v % 0x100) as u8);
}

/// Appends the big-endian encoding of `v` to `out`.
pub fn push_be_u32(out: &mut Vec<u8>, v: u32)
    ensures
        final(out)@ == old(out)@ + u32_be_bytes(v),
{
    push_be_u16(out, (v / 0x1_0000) as u16);
    push_be_u16(out, (v % 0x1_0000) as u16);
}

} // verus!
