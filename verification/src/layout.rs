//! Byte-level reading of little-endian fields, stated over `Seq<u8>`.
use vstd::prelude::*;
use vstd::bytes::*;
use crate::pubkey::{zero_key, Pubkey};

verus! {

/// The `u16` stored little-endian at `off`.
pub open spec fn u16_at(s: Seq<u8>, off: int) -> u16 {
    spec_u16_from_le_bytes(s.subrange(off, off + 2))
}

/// The `u32` stored little-endian at `off`.
pub open spec fn u32_at(s: Seq<u8>, off: int) -> u32 {
    spec_u32_from_le_bytes(s.subrange(off, off + 4))
}

/// The `u64` stored little-endian at `off`.
pub open spec fn u64_at(s: Seq<u8>, off: int) -> u64 {
    spec_u64_from_le_bytes(s.subrange(off, off + 8))
}

/// The two's-complement `i64` stored little-endian at `off`.
pub open spec fn i64_at(s: Seq<u8>, off: int) -> i64 {
    u64_at(s, off) as i64
}

/// The `u128` stored little-endian at `off`.
pub open spec fn u128_at(s: Seq<u8>, off: int) -> u128 {
    spec_u128_from_le_bytes(s.subrange(off, off + 16))
}

/// The two's-complement `i128` stored little-endian at `off`.
pub open spec fn i128_at(s: Seq<u8>, off: int) -> i128 {
    u128_at(s, off) as i128
}

/// The 32-byte key stored at `off`.
pub open spec fn key_at(s: Seq<u8>, off: int) -> Seq<u8> {
    s.subrange(off, off + 32)
}

/// A slice is never longer than `usize::MAX`, so offsets inside it fit in a `usize`.
pub proof fn lemma_len_fits_usize(data: &[u8])
    ensures
        data@.len() <= usize::MAX,
{
    assert(data@.len() == data.len());
}

/// `n` bytes starting at `off` lie inside `s`.
pub open spec fn fits(s: Seq<u8>, off: int, n: int) -> bool {
    0 <= off && off + n <= s.len()
}

/// The byte at `off`, or 0 past the end.
pub open spec fn byte_or_zero(s: Seq<u8>, off: int) -> u8 {
    if 0 <= off < s.len() {
        s[off]
    } else {
        0
    }
}

/// The `u64` at `off`, or 0 when it does not fit.
pub open spec fn u64_or_zero(s: Seq<u8>, off: int) -> u64 {
    if fits(s, off, 8) {
        u64_at(s, off)
    } else {
        0
    }
}

/// The `i64` at `off`, or 0 when it does not fit.
pub open spec fn i64_or_zero(s: Seq<u8>, off: int) -> i64 {
    if fits(s, off, 8) {
        i64_at(s, off)
    } else {
        0
    }
}

/// The `i128` at `off`, or 0 when it does not fit.
pub open spec fn i128_or_zero(s: Seq<u8>, off: int) -> i128 {
    if fits(s, off, 16) {
        i128_at(s, off)
    } else {
        0
    }
}

/// The key at `off`, or the all-zero key when it does not fit.
pub open spec fn key_or_zero(s: Seq<u8>, off: int) -> Seq<u8> {
    if fits(s, off, 32) {
        key_at(s, off)
    } else {
        zero_key()
    }
}

/// Loads the `u16` at `off`.
pub fn load_u16(data: &[u8], off: usize) -> (r: u16)
    requires
        fits(data@, off as int, 2),
    ensures
        r == u16_at(data@, off as int),
{
    proof { lemma_len_fits_usize(data); }
    u16_from_le_bytes(&data[off..off + 2])
}

/// Loads the `u32` at `off`.
pub fn load_u32(data: &[u8], off: usize) -> (r: u32)
    requires
        fits(data@, off as int, 4),
    ensures
        r == u32_at(data@, off as int),
{
    proof { lemma_len_fits_usize(data); }
    u32_from_le_bytes(&data[off..off + 4])
}

/// Loads the `u64` at `off`.
pub fn load_u64(data: &[u8], off: usize) -> (r: u64)
    requires
        fits(data@, off as int, 8),
    ensures
        r == u64_at(data@, off as int),
{
    proof { lemma_len_fits_usize(data); }
    u64_from_le_bytes(&data[off..off + 8])
}

/// Loads the `i64` at `off`.
pub fn load_i64(data: &[u8], off: usize) -> (r: i64)
    requires
        fits(data@, off as int, 8),
    ensures
        r == i64_at(data@, off as int),
{
    proof { lemma_len_fits_usize(data); }
    u64_from_le_bytes(&data[off..off + 8]) as i64
}

/// Loads the `u128` at `off`.
pub fn load_u128(data: &[u8], off: usize) -> (r: u128)
    requires
        fits(data@, off as int, 16),
    ensures
        r == u128_at(data@, off as int),
{
    proof { lemma_len_fits_usize(data); }
    u128_from_le_bytes(&data[off..off + 16])
}

/// Loads the `i128` at `off`.
pub fn load_i128(data: &[u8], off: usize) -> (r: i128)
    requires
        fits(data@, off as int, 16),
    ensures
        r == i128_at(data@, off as int),
{
    proof { lemma_len_fits_usize(data); }
    u128_from_le_bytes(&data[off..off + 16]) as i128
}

/// Loads the key at `off`.
pub fn load_key(data: &[u8], off: usize) -> (r: Pubkey)
    requires
        fits(data@, off as int, 32),
    ensures
        r@ == key_at(data@, off as int),
{
    proof { lemma_len_fits_usize(data); }
    let mut bytes = [0u8; 32];
    let mut i: usize = 0;
    while i < 32
        invariant
            0 <= i <= 32,
            fits(data@, off as int, 32),
            data@.len() <= usize::MAX,
            bytes@.len() == 32,
            forall|j: int| 0 <= j < i ==> bytes@[j] == data@[off + j],
        decreases 32 - i,
    {
        bytes[i] = data[off + i];
        i = i + 1;
    }
    let k = Pubkey::new_from_array(bytes);
    assert(k@ =~= key_at(data@, off as int));
    k
}

/// Loads the byte at `off`, or 0 past the end.
pub fn load_byte_or_zero(data: &[u8], off: usize) -> (r: u8)
    ensures
        r == byte_or_zero(data@, off as int),
{
    if off < data.len() {
        data[off]
    } else {
        0
    }
}

/// Loads the `u64` at `off`, or 0 when it does not fit.
pub fn load_u64_or_zero(data: &[u8], off: usize) -> (r: u64)
    ensures
        r == u64_or_zero(data@, off as int),
{
    if off <= data.len() && data.len() - off >= 8 {
        load_u64(data, off)
    } else {
        0
    }
}

/// Loads the `i64` at `off`, or 0 when it does not fit.
pub fn load_i64_or_zero(data: &[u8], off: usize) -> (r: i64)
    ensures
        r == i64_or_zero(data@, off as int),
{
    if off <= data.len() && data.len() - off >= 8 {
        load_i64(data, off)
    } else {
        0
    }
}

/// Loads the `i128` at `off`, or 0 when it does not fit.
pub fn load_i128_or_zero(data: &[u8], off: usize) -> (r: i128)
    ensures
        r == i128_or_zero(data@, off as int),
{
    if off <= data.len() && data.len() - off >= 16 {
        load_i128(data, off)
    } else {
        0
    }
}

/// Loads the key at `off`, or the all-zero key when it does not fit.
pub fn load_key_or_zero(data: &[u8], off: usize) -> (r: Pubkey)
    ensures
        r@ == key_or_zero(data@, off as int),
{
    if off <= data.len() && data.len() - off >= 32 {
        load_key(data, off)
    } else {
        Pubkey::default()
    }
}

} // verus!
