//! Speaker embeddings as files: raw arrays of little-endian single-precision numbers.

use vstd::prelude::*;
use crate::real32::Real32;

verus! {

/// The bits of the number that four bytes hold, least significant byte first.
pub open spec fn le_bits(b0: u8, b1: u8, b2: u8, b3: u8) -> int {
    b0 + 0x100 * b1 + 0x1_0000 * b2 + 0x100_0000 * b3
}

/// The numbers that some bytes hold, four bytes to a number. Bytes that make no whole number at
/// the end are left out.
pub open spec fn unpacked(bytes: Seq<u8>) -> Seq<Real32> {
    Seq::new(
        bytes.len() / 4,
        |i: int|
            Real32 {
                bits: le_bits(
                    bytes[4 * i],
                    bytes[4 * i + 1],
                    bytes[4 * i + 2],
                    bytes[4 * i + 3],
                ) as u32,
            },
    )
}

/// The `k`-th byte of a number, counted from the least significant.
pub open spec fn byte_at(bits: u32, k: int) -> u8 {
    if k == 0 {
        (bits % 0x100) as u8
    } else if k == 1 {
        ((bits / 0x100) % 0x100) as u8
    } else if k == 2 {
        ((bits / 0x1_0000) % 0x100) as u8
    } else {
        (bits / 0x100_0000) as u8
    }
}

/// The bytes that hold some numbers, four to each.
pub open spec fn packed(values: Seq<Real32>) -> Seq<u8> {
    Seq::new(4 * values.len(), |i: int| byte_at(values[i / 4].bits, i % 4))
}

/// What was packed is unpacked to the same numbers.
pub proof fn lemma_unpack_packed(values: Seq<Real32>)
    ensures
        unpacked(packed(values)) == values,
{
    let bytes = packed(values);
    assert forall|i: int| 0 <= i < values.len() implies unpacked(bytes)[i] == values[i] by {
        let bits = values[i].bits;
        assert(4 * i / 4 == i && (4 * i + 1) / 4 == i && (4 * i + 2) / 4 == i && (4 * i + 3) / 4
            == i);
        assert(bytes[4 * i] == byte_at(bits, 0));
        assert(bytes[4 * i + 1] == byte_at(bits, 1));
        assert(bytes[4 * i + 2] == byte_at(bits, 2));
        assert(bytes[4 * i + 3] == byte_at(bits, 3));
        lemma_bytes_of_bits(bits);
    }
    assert(unpacked(bytes) =~= values);
}

proof fn lemma_bytes_of_bits(bits: u32)
    ensures
        le_bits(byte_at(bits, 0), byte_at(bits, 1), byte_at(bits, 2), byte_at(bits, 3)) == bits,
{
    let n = bits as int;
    assert(n / 0x1_0000 == (n / 0x100) / 0x100);
    assert(n / 0x100_0000 == (n / 0x1_0000) / 0x100);
}

/// Whole numbers are packed back to the bytes that they were unpacked from.
pub proof fn lemma_pack_unpacked(bytes: Seq<u8>)
    requires
        bytes.len() % 4 == 0,
    ensures
        packed(unpacked(bytes)) == bytes,
{
    let values = unpacked(bytes);
    assert forall|j: int| 0 <= j < bytes.len() implies packed(values)[j] == bytes[j] by {
        let i = j / 4;
        assert(0 <= i < values.len());
        lemma_bits_of_bytes(bytes[4 * i], bytes[4 * i + 1], bytes[4 * i + 2], bytes[4 * i + 3]);
    }
    assert(packed(values) =~= bytes);
}

proof fn lemma_bits_of_bytes(b0: u8, b1: u8, b2: u8, b3: u8)
    ensures
        0 <= le_bits(b0, b1, b2, b3) <= u32::MAX,
        byte_at(le_bits(b0, b1, b2, b3) as u32, 0) == b0,
        byte_at(le_bits(b0, b1, b2, b3) as u32, 1) == b1,
        byte_at(le_bits(b0, b1, b2, b3) as u32, 2) == b2,
        byte_at(le_bits(b0, b1, b2, b3) as u32, 3) == b3,
{
    let n = le_bits(b0, b1, b2, b3);
    assert(n / 0x100 == b1 + 0x100 * b2 + 0x1_0000 * b3);
    assert(n / 0x1_0000 == b2 + 0x100 * b3);
    assert(n / 0x100_0000 == b3);
}

/// Reads the numbers that some bytes hold.
pub fn unpack(bytes: &Vec<u8>) -> (values: Vec<Real32>)
    ensures
        values@ == unpacked(bytes@),
{
    let mut values: Vec<Real32> = Vec::new();
    let len: usize = bytes.len();
    let n: usize = len / 4;
    let mut i: usize = 0;
    while i < n
        invariant
            i <= n,
            n == len / 4,
            len == bytes@.len(),
            values@ == unpacked(bytes@).take(i as int),
        decreases n - i,
    {
        let b0 = bytes[4 * i];
        let b1 = bytes[4 * i + 1];
        let b2 = bytes[4 * i + 2];
        let b3 = bytes[4 * i + 3];
        let bits: u32 = b0 as u32 + 0x100 * (b1 as u32) + 0x1_0000 * (b2 as u32) + 0x100_0000 * (
        b3 as u32);
        values.push(Real32 { bits });
        i = i + 1;
        assert(values@ =~= unpacked(bytes@).take(i as int));
    }
    values
}

/// Writes the bytes that hold some numbers.
pub fn pack(values: &Vec<Real32>) -> (bytes: Vec<u8>)
    ensures
        bytes@ == packed(values@),
{
    let mut bytes: Vec<u8> = Vec::new();
    let mut i: usize = 0;
    while i < values.len()
        invariant
            i <= values@.len(),
            bytes@ == packed(values@).take(4 * i),
        decreases values@.len() - i,
    {
        let bits = values[i].bits;
        bytes.push((bits % 0x100) as u8);
        bytes.push(((bits / 0x100) % 0x100) as u8);
        bytes.push(((bits / 0x1_0000) % 0x100) as u8);
        bytes.push((bits / 0x100_0000) as u8);
        i = i + 1;
        assert(bytes@ =~= packed(values@).take(4 * i));
    }
    assert(bytes@ =~= packed(values@));
    bytes
}

} // verus!
