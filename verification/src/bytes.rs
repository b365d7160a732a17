//! Little-endian encoding of unsigned 64-bit integers.

use vstd::prelude::*;

verus! {

/// The number that eight bytes denote when read with the least significant
/// byte first.
pub open spec fn le_value(s: Seq<u8>) -> int
    recommends
        s.len() == 8,
{
    s[0] as int
        + s[1] as int * 0x100
        + s[2] as int * 0x1_0000
        + s[3] as int * 0x100_0000
        + s[4] as int * 0x1_0000_0000
        + s[5] as int * 0x100_0000_0000
        + s[6] as int * 0x1_0000_0000_0000
        + s[7] as int * 0x100_0000_0000_0000
}

/// The eight bytes that denote `x`, least significant byte first.
pub open spec fn le_bytes(x: u64) -> Seq<u8> {
    seq![
        (x % 0x100) as u8,
        (x / 0x100 % 0x100) as u8,
        (x / 0x1_0000 % 0x100) as u8,
        (x / 0x100_0000 % 0x100) as u8,
        (x / 0x1_0000_0000 % 0x100) as u8,
        (x / 0x100_0000_0000 % 0x100) as u8,
        (x / 0x1_0000_0000_0000 % 0x100) as u8,
        (x / 0x100_0000_0000_0000 % 0x100) as u8,
    ]
}

/// Eight bytes always denote a number that fits in 64 bits.
pub proof fn lemma_le_value_bounds(s: Seq<u8>)
    requires
        s.len() == 8,
    ensures
        0 <= le_value(s) <= u64::MAX,
{
}

proof fn lemma_byte_shifts(x: u64)
    ensures
        x / 0x1_0000 == x / 0x100 / 0x100,
        x / 0x100_0000 == x / 0x1_0000 / 0x100,
        x / 0x1_0000_0000 == x / 0x100_0000 / 0x100,
        x / 0x100_0000_0000 == x / 0x1_0000_0000 / 0x100,
        x / 0x1_0000_0000_0000 == x / 0x100_0000_0000 / 0x100,
        x / 0x100_0000_0000_0000 == x / 0x1_0000_0000_0000 / 0x100,
        x / 0x100_0000_0000_0000 < 0x100,
{
    assert(x / 0x1_0000 == x / 0x100 / 0x100 && x / 0x100_0000 == x / 0x1_0000 / 0x100 && x
        / 0x1_0000_0000 == x / 0x100_0000 / 0x100 && x / 0x100_0000_0000 == x / 0x1_0000_0000
        / 0x100 && x / 0x1_0000_0000_0000 == x / 0x100_0000_0000 / 0x100 && x
        / 0x100_0000_0000_0000 == x / 0x1_0000_0000_0000 / 0x100 && x / 0x100_0000_0000_0000
        < 0x100) by (bit_vector);
}

/// Decoding the encoding of a number gives the number back.
pub proof fn lemma_le_value_of_le_bytes(x: u64)
    ensures
        le_bytes(x).len() == 8,
        le_value(le_bytes(x)) == x,
{
    lemma_byte_shifts(x);
}

/// Taking the lowest byte off a number: what is left and what was taken.
proof fn lemma_split_byte(q: u64, low: u8, high: int)
    requires
        q == low + 0x100 * high,
    ensures
        q % 0x100 == low,
        q / 0x100 == high,
{
}

/// Encoding the number that eight bytes denote gives the bytes back.
pub proof fn lemma_le_bytes_of_le_value(s: Seq<u8>)
    requires
        s.len() == 8,
    ensures
        le_bytes(le_value(s) as u64) == s,
{
    let x = le_value(s) as u64;
    lemma_byte_shifts(x);
    let t7: int = s[7] as int;
    let t6: int = s[6] + 0x100 * t7;
    let t5: int = s[5] + 0x100 * t6;
    let t4: int = s[4] + 0x100 * t5;
    let t3: int = s[3] + 0x100 * t4;
    let t2: int = s[2] + 0x100 * t3;
    let t1: int = s[1] + 0x100 * t2;
    assert(x == s[0] + 0x100 * t1);
    lemma_split_byte(x, s[0], t1);
    lemma_split_byte(t1 as u64, s[1], t2);
    lemma_split_byte(t2 as u64, s[2], t3);
    lemma_split_byte(t3 as u64, s[3], t4);
    lemma_split_byte(t4 as u64, s[4], t5);
    lemma_split_byte(t5 as u64, s[5], t6);
    lemma_split_byte(t6 as u64, s[6], t7);
    assert(le_bytes(x) =~= s);
}

/// Reads the unsigned 64-bit integer stored in `input[at..at + 8]`.
pub fn read_u64_le(input: &[u8], at: usize) -> (x: u64)
    requires
        at + 8 <= input@.len(),
    ensures
        x == le_value(input@.subrange(at as int, at + 8)),
{
    let b0: u64 = input[at] as u64;
    let b1: u64 = input[at + 1] as u64;
    let b2: u64 = input[at + 2] as u64;
    let b3: u64 = input[at + 3] as u64;
    let b4: u64 = input[at + 4] as u64;
    let b5: u64 = input[at + 5] as u64;
    let b6: u64 = input[at + 6] as u64;
    let b7: u64 = input[at + 7] as u64;
    b0 + b1 * 0x100 + b2 * 0x1_0000 + b3 * 0x100_0000 + b4 * 0x1_0000_0000 + b5
        * 0x100_0000_0000 + b6 * 0x1_0000_0000_0000 + b7 * 0x100_0000_0000_0000
}

/// The eight bytes of `x`, least significant byte first.
pub fn u64_le_bytes(x: u64) -> (out: [u8; 8])
    ensures
        out@ == le_bytes(x),
{
    let out: [u8; 8] = [
        (x % 0x100) as u8,
        (x / 0x100 % 0x100) as u8,
        (x / 0x1_0000 % 0x100) as u8,
        (x / 0x100_0000 % 0x100) as u8,
        (x / 0x1_0000_0000 % 0x100) as u8,
        (x / 0x100_0000_0000 % 0x100) as u8,
        (x / 0x1_0000_0000_0000 % 0x100) as u8,
        (x / 0x100_0000_0000_0000 % 0x100) as u8,
    ];
    assert(out@ =~= le_bytes(x));
    out
}

} // verus!
