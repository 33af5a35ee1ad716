//! Little-endian views of 16-bit and 32-bit words as their bytes.
//!
//! The bus composes its 16/32-bit accessors from byte accesses and exposes
//! the offset register as four byte-addressable cells; everything here is
//! stated arithmetically (lowest-address byte is least-significant).

use vstd::prelude::*;

verus! {

/// The 16-bit word whose little-endian bytes are `b0, b1`.
pub open spec fn le16(b0: u8, b1: u8) -> u16 {
    (b0 + b1 * 0x100) as u16
}

/// The 32-bit word whose little-endian bytes are `b0, b1, b2, b3`.
pub open spec fn le32(b0: u8, b1: u8, b2: u8, b3: u8) -> u32 {
    (b0 + b1 * 0x100 + b2 * 0x10000 + b3 * 0x1000000) as u32
}

/// Byte `i` (0 = least significant) of a 32-bit word.
pub open spec fn u32_byte(x: u32, i: int) -> u8 {
    if i == 0 {
        (x % 0x100) as u8
    } else if i == 1 {
        ((x / 0x100) % 0x100) as u8
    } else if i == 2 {
        ((x / 0x10000) % 0x100) as u8
    } else {
        ((x / 0x1000000) % 0x100) as u8
    }
}

/// `x` with byte `i` (little-endian) replaced by `v`.
pub open spec fn u32_with_byte(x: u32, i: int, v: u8) -> u32 {
    le32(
        if i == 0 { v } else { u32_byte(x, 0) },
        if i == 1 { v } else { u32_byte(x, 1) },
        if i == 2 { v } else { u32_byte(x, 2) },
        if i == 3 { v } else { u32_byte(x, 3) },
    )
}

/// A word is the little-endian composition of its own bytes.
pub proof fn lemma_le32_of_bytes(x: u32)
    ensures
        le32(u32_byte(x, 0), u32_byte(x, 1), u32_byte(x, 2), u32_byte(x, 3)) == x,
{
    assert(((x % 0x100) as u8) + ((x / 0x100) % 0x100) as u8 * 0x100 + ((x / 0x10000) % 0x100) as u8
        * 0x10000 + ((x / 0x1000000) % 0x100) as u8 * 0x1000000 == x) by (bit_vector);
}

/// Composing four bytes and taking the bytes back returns the same bytes.
pub proof fn lemma_bytes_of_le32(b0: u8, b1: u8, b2: u8, b3: u8)
    ensures
        u32_byte(le32(b0, b1, b2, b3), 0) == b0,
        u32_byte(le32(b0, b1, b2, b3), 1) == b1,
        u32_byte(le32(b0, b1, b2, b3), 2) == b2,
        u32_byte(le32(b0, b1, b2, b3), 3) == b3,
{
    assert(((b0 + b1 * 0x100 + b2 * 0x10000 + b3 * 0x1000000) as u32) % 0x100 == b0)
        by (bit_vector);
    assert((((b0 + b1 * 0x100 + b2 * 0x10000 + b3 * 0x1000000) as u32) / 0x100) % 0x100 == b1)
        by (bit_vector);
    assert((((b0 + b1 * 0x100 + b2 * 0x10000 + b3 * 0x1000000) as u32) / 0x10000) % 0x100 == b2)
        by (bit_vector);
    assert((((b0 + b1 * 0x100 + b2 * 0x10000 + b3 * 0x1000000) as u32) / 0x1000000) % 0x100 == b3)
        by (bit_vector);
}

/// A 16-bit word round-trips through its little-endian bytes.
pub proof fn lemma_le16_of_bytes(x: u16)
    ensures
        le16(u32_byte(x as u32, 0), u32_byte(x as u32, 1)) == x,
{
    assert((((x as u32) % 0x100) as u8) + (((x as u32) / 0x100) % 0x100) as u8 * 0x100 == x)
        by (bit_vector);
}

/// Composing two bytes and taking the bytes of the word returns them.
pub proof fn lemma_bytes_of_le16(b0: u8, b1: u8)
    ensures
        u32_byte(le16(b0, b1) as u32, 0) == b0,
        u32_byte(le16(b0, b1) as u32, 1) == b1,
{
    assert((((b0 + b1 * 0x100) as u16) as u32) % 0x100 == b0) by (bit_vector);
    assert(((((b0 + b1 * 0x100) as u16) as u32) / 0x100) % 0x100 == b1) by (bit_vector);
}

/// Compose two little-endian bytes into a 16-bit word.
pub fn compose16(b0: u8, b1: u8) -> (r: u16)
    ensures
        r == le16(b0, b1),
{
    b0 as u16 + b1 as u16 * 0x100
}

/// Compose four little-endian bytes into a 32-bit word.
pub fn compose32(b0: u8, b1: u8, b2: u8, b3: u8) -> (r: u32)
    ensures
        r == le32(b0, b1, b2, b3),
{
    b0 as u32 + b1 as u32 * 0x100 + b2 as u32 * 0x10000 + b3 as u32 * 0x1000000
}

/// Byte `i` (0 = least significant) of a 32-bit word.
pub fn extract_byte(x: u32, i: u32) -> (r: u8)
    requires
        i < 4,
    ensures
        r == u32_byte(x, i as int),
{
    if i == 0 {
        (x % 0x100) as u8
    } else if i == 1 {
        ((x / 0x100) % 0x100) as u8
    } else if i == 2 {
        ((x / 0x10000) % 0x100) as u8
    } else {
        ((x / 0x1000000) % 0x100) as u8
    }
}

/// `x` with byte `i` (little-endian) replaced by `v`.
pub fn replace_byte(x: u32, i: u32, v: u8) -> (r: u32)
    requires
        i < 4,
    ensures
        r == u32_with_byte(x, i as int, v),
{
    let b0 = if i == 0 { v } else { extract_byte(x, 0) };
    let b1 = if i == 1 { v } else { extract_byte(x, 1) };
    let b2 = if i == 2 { v } else { extract_byte(x, 2) };
    let b3 = if i == 3 { v } else { extract_byte(x, 3) };
    compose32(b0, b1, b2, b3)
}

} // verus!
