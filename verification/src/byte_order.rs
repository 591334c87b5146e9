//! Integers as bytes, in either byte order.

use vstd::prelude::*;

verus! {

/// Order in which the bytes of a multi-byte field lie in memory.
#[derive(Clone, Copy, Debug, PartialEq, Eq, Structural)]
pub enum ByteOrder {
    /// Least significant byte first.
    Little,
    /// Most significant byte first.
    Big,
}

/// The value of four bytes read as an unsigned integer.
pub open spec fn u32_from_bytes(order: ByteOrder, b: Seq<u8>) -> u32
    recommends
        b.len() == 4,
{
    match order {
        ByteOrder::Little => (b[0] + b[1] * 0x100 + b[2] * 0x1_0000 + b[3] * 0x100_0000) as u32,
        ByteOrder::Big => (b[3] + b[2] * 0x100 + b[1] * 0x1_0000 + b[0] * 0x100_0000) as u32,
    }
}

/// The four bytes that hold an unsigned integer.
pub open spec fn u32_to_bytes(order: ByteOrder, x: u32) -> Seq<u8> {
    let b0 = (x % 0x100) as u8;
    let b1 = ((x / 0x100) % 0x100) as u8;
    let b2 = ((x / 0x1_0000) % 0x100) as u8;
    let b3 = ((x / 0x100_0000) % 0x100) as u8;
    match order {
        ByteOrder::Little => seq![b0, b1, b2, b3],
        ByteOrder::Big => seq![b3, b2, b1, b0],
    }
}

/// Reading back the bytes of an integer gives the integer.
pub proof fn lemma_u32_from_to_bytes(order: ByteOrder, x: u32)
    ensures
        u32_to_bytes(order, x).len() == 4,
        u32_from_bytes(order, u32_to_bytes(order, x)) == x,
{
}

/// Writing out the integer read from four bytes gives the four bytes.
pub proof fn lemma_u32_to_from_bytes(order: ByteOrder, b: Seq<u8>)
    requires
        b.len() == 4,
    ensures
        u32_to_bytes(order, u32_from_bytes(order, b)) == b,
{
    match order {
        ByteOrder::Little => lemma_base_256_digits(b[0], b[1], b[2], b[3]),
        ByteOrder::Big => lemma_base_256_digits(b[3], b[2], b[1], b[0]),
    }
    assert(u32_to_bytes(order, u32_from_bytes(order, b)) =~= b);
}

/// Division and remainder by powers of 256 recover the base-256 digits.
proof fn lemma_base_256_digits(d0: u8, d1: u8, d2: u8, d3: u8)
    by (bit_vector)
    ensures
        ({
            let x = (d0 + d1 * 0x100 + d2 * 0x1_0000 + d3 * 0x100_0000) as u32;
            &&& x == d0 + d1 * 0x100 + d2 * 0x1_0000 + d3 * 0x100_0000
            &&& (x % 0x100) as u8 == d0
            &&& ((x / 0x100) % 0x100) as u8 == d1
            &&& ((x / 0x1_0000) % 0x100) as u8 == d2
            &&& ((x / 0x100_0000) % 0x100) as u8 == d3
        }),
{
}

/// Reads an unsigned integer from four bytes.
pub fn read_u32(order: ByteOrder, b: &[u8]) -> (x: u32)
    requires
        b@.len() == 4,
    ensures
        x == u32_from_bytes(order, b@),
{
    let b0: u32 = b[0] as u32;
    let b1: u32 = b[1] as u32;
    let b2: u32 = b[2] as u32;
    let b3: u32 = b[3] as u32;
    match order {
        ByteOrder::Little => b0 + b1 * 0x100 + b2 * 0x1_0000 + b3 * 0x100_0000,
        ByteOrder::Big => b3 + b2 * 0x100 + b1 * 0x1_0000 + b0 * 0x100_0000,
    }
}

/// Splits an unsigned integer into its four bytes.
pub fn write_u32(order: ByteOrder, x: u32) -> (b: [u8; 4])
    ensures
        b@ == u32_to_bytes(order, x),
{
    let b0: u8 = (x % 0x100) as u8;
    let b1: u8 = ((x / 0x100) % 0x100) as u8;
    let b2: u8 = ((x / 0x1_0000) % 0x100) as u8;
    let b3: u8 = ((x / 0x100_0000) % 0x100) as u8;
    let b = match order {
        ByteOrder::Little => [b0, b1, b2, b3],
        ByteOrder::Big => [b3, b2, b1, b0],
    };
    assert(b@ =~= u32_to_bytes(order, x));
    b
}

/// The value of eight bytes read as an unsigned integer: two halves of
/// four bytes each, the first half the lower one where the least significant
/// byte comes first.
pub open spec fn u64_from_bytes(order: ByteOrder, b: Seq<u8>) -> u64
    recommends
        b.len() == 8,
{
    let first = u32_from_bytes(order, b.subrange(0, 4));
    let second = u32_from_bytes(order, b.subrange(4, 8));
    match order {
        ByteOrder::Little => (first + second * 0x1_0000_0000) as u64,
        ByteOrder::Big => (second + first * 0x1_0000_0000) as u64,
    }
}

/// The value of eight bytes read as a signed integer in two's complement.
pub open spec fn i64_from_bytes(order: ByteOrder, b: Seq<u8>) -> i64
    recommends
        b.len() == 8,
{
    u64_from_bytes(order, b) as i64
}

/// Reads an unsigned integer from eight bytes.
pub fn read_u64(order: ByteOrder, b: &[u8]) -> (x: u64)
    requires
        b@.len() == 8,
    ensures
        x == u64_from_bytes(order, b@),
{
    let first = read_u32(order, vstd::slice::slice_subrange(b, 0, 4)) as u64;
    let second = read_u32(order, vstd::slice::slice_subrange(b, 4, 8)) as u64;
    match order {
        ByteOrder::Little => first + second * 0x1_0000_0000,
        ByteOrder::Big => second + first * 0x1_0000_0000,
    }
}

/// Reads a signed integer from eight bytes.
pub fn read_i64(order: ByteOrder, b: &[u8]) -> (x: i64)
    requires
        b@.len() == 8,
    ensures
        x == i64_from_bytes(order, b@),
{
    read_u64(order, b) as i64
}

} // verus!
