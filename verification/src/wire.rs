//! Fixed-width integers as bytes on the wire.
//!
//! A byte string denotes a number by its digits in base 256. The cross-chain
//! message writes the most significant digit first; a seed that carries a
//! sequence number writes the least significant digit first.

use vstd::prelude::*;

verus! {

/// The digit of `value` that stands `place` places above the lowest, in base 256.
pub open spec fn digit(value: nat, place: nat) -> u8
    decreases place,
{
    if place == 0 {
        (value % 256) as u8
    } else {
        digit(value / 256, (place - 1) as nat)
    }
}

/// What one unit at `place` is worth: 256 to the power of `place`.
pub open spec fn place_value(place: nat) -> nat
    decreases place,
{
    if place == 0 {
        1
    } else {
        256 * place_value((place - 1) as nat)
    }
}

/// A digit is what is left of the quotient by its place's value.
pub proof fn lemma_digit_is_quotient(value: nat, place: nat)
    ensures
        place_value(place) > 0,
        digit(value, place) == ((value / place_value(place)) % 256) as u8,
    decreases place,
{
    if place > 0 {
        let below = (place - 1) as nat;
        lemma_digit_is_quotient(value / 256, below);
        vstd::arithmetic::div_mod::lemma_div_denominator(
            value as int,
            256,
            place_value(below) as int,
        );
        assert((value / 256) / place_value(below) == value / place_value(place));
    } else {
        assert(value / 1 == value);
    }
}

/// The four bytes of `value`, most significant first.
pub open spec fn be_bytes_u32(value: u32) -> Seq<u8> {
    Seq::new(4, |i: int| digit(value as nat, (3 - i) as nat))
}

/// The eight bytes of `value`, most significant first.
pub open spec fn be_bytes_u64(value: u64) -> Seq<u8> {
    Seq::new(8, |i: int| digit(value as nat, (7 - i) as nat))
}

/// The eight bytes of `value`, least significant first.
pub open spec fn le_bytes_u64(value: u64) -> Seq<u8> {
    Seq::new(8, |i: int| digit(value as nat, i as nat))
}

/// The number that `bytes` denotes when its first byte is the most significant.
pub open spec fn be_value(bytes: Seq<u8>) -> nat
    decreases bytes.len(),
{
    if bytes.len() == 0 {
        0
    } else {
        256 * be_value(bytes.drop_last()) + bytes.last() as nat
    }
}

/// Reading back the four bytes of a 32-bit number gives the number.
pub proof fn lemma_be_value_of_u32(value: u32)
    ensures
        be_value(be_bytes_u32(value)) == value,
{
    reveal_with_fuel(digit, 4);
    let s4 = be_bytes_u32(value);
    let s3 = s4.drop_last();
    let s2 = s3.drop_last();
    let s1 = s2.drop_last();
    let s0 = s1.drop_last();
    assert(be_value(s0) == 0);
    assert(be_value(s1) == s4[0]);
    assert(be_value(s2) == 256 * be_value(s1) + s4[1]);
    assert(be_value(s3) == 256 * be_value(s2) + s4[2]);
    assert(be_value(s4) == 256 * be_value(s3) + s4[3]);
}

/// Reading back the eight bytes of a 64-bit number gives the number.
pub proof fn lemma_be_value_of_u64(value: u64)
    ensures
        be_value(be_bytes_u64(value)) == value,
{
    reveal_with_fuel(digit, 8);
    let s8 = be_bytes_u64(value);
    let s7 = s8.drop_last();
    let s6 = s7.drop_last();
    let s5 = s6.drop_last();
    let s4 = s5.drop_last();
    let s3 = s4.drop_last();
    let s2 = s3.drop_last();
    let s1 = s2.drop_last();
    let s0 = s1.drop_last();
    assert(be_value(s0) == 0);
    assert(be_value(s1) == s8[0]);
    assert(be_value(s2) == 256 * be_value(s1) + s8[1]);
    assert(be_value(s3) == 256 * be_value(s2) + s8[2]);
    assert(be_value(s4) == 256 * be_value(s3) + s8[3]);
    assert(be_value(s5) == 256 * be_value(s4) + s8[4]);
    assert(be_value(s6) == 256 * be_value(s5) + s8[5]);
    assert(be_value(s7) == 256 * be_value(s6) + s8[6]);
    assert(be_value(s8) == 256 * be_value(s7) + s8[7]);
}

/// Each byte of a string is the digit of the number it denotes at the place
/// where the byte stands, counted from the end of the string.
pub proof fn lemma_digit_of_be_value(bytes: Seq<u8>, i: int)
    requires
        0 <= i < bytes.len(),
    ensures
        digit(be_value(bytes), (bytes.len() - 1 - i) as nat) == bytes[i],
    decreases bytes.len(),
{
    let rest = bytes.drop_last();
    assert(be_value(bytes) == 256 * be_value(rest) + bytes.last() as nat);
    if i == bytes.len() - 1 {
        assert(be_value(bytes) % 256 == bytes.last() as nat);
    } else {
        assert(be_value(bytes) / 256 == be_value(rest));
        lemma_digit_of_be_value(rest, i);
    }
}

/// Four bytes denote a number that fits in 32 bits, and writing that number
/// out again gives the same four bytes.
pub proof fn lemma_be_bytes_of_value_u32(bytes: Seq<u8>)
    requires
        bytes.len() == 4,
    ensures
        be_value(bytes) <= u32::MAX,
        be_bytes_u32(be_value(bytes) as u32) == bytes,
{
    let s3 = bytes.drop_last();
    let s2 = s3.drop_last();
    let s1 = s2.drop_last();
    let s0 = s1.drop_last();
    assert(be_value(s0) == 0);
    assert(be_value(s1) <= 0xff);
    assert(be_value(s2) <= 0xffff);
    assert(be_value(s3) <= 0xff_ffff);
    assert(be_value(bytes) <= 0xffff_ffff);
    assert forall|i: int| 0 <= i < 4 implies be_bytes_u32(be_value(bytes) as u32)[i]
        == bytes[i] by {
        lemma_digit_of_be_value(bytes, i);
    }
}

/// Eight bytes denote a number that fits in 64 bits, and writing that number
/// out again gives the same eight bytes.
pub proof fn lemma_be_bytes_of_value_u64(bytes: Seq<u8>)
    requires
        bytes.len() == 8,
    ensures
        be_value(bytes) <= u64::MAX,
        be_bytes_u64(be_value(bytes) as u64) == bytes,
{
    let s7 = bytes.drop_last();
    let s6 = s7.drop_last();
    let s5 = s6.drop_last();
    let s4 = s5.drop_last();
    let s3 = s4.drop_last();
    let s2 = s3.drop_last();
    let s1 = s2.drop_last();
    let s0 = s1.drop_last();
    assert(be_value(s0) == 0);
    assert(be_value(s1) <= 0xff);
    assert(be_value(s2) <= 0xffff);
    assert(be_value(s3) <= 0xff_ffff);
    assert(be_value(s4) <= 0xffff_ffff);
    assert(be_value(s5) <= 0xff_ffff_ffff);
    assert(be_value(s6) <= 0xffff_ffff_ffff);
    assert(be_value(s7) <= 0xff_ffff_ffff_ffff);
    assert(be_value(bytes) <= 0xffff_ffff_ffff_ffff);
    assert forall|i: int| 0 <= i < 8 implies be_bytes_u64(be_value(bytes) as u64)[i]
        == bytes[i] by {
        lemma_digit_of_be_value(bytes, i);
    }
}

/// Writes a 32-bit number as four bytes, most significant first.
pub fn u32_to_be(value: u32) -> (bytes: [u8; 4])
    ensures
        bytes@ == be_bytes_u32(value),
{
    let bytes: [u8; 4] = [
        (value / 0x100_0000) as u8,
        (value / 0x1_0000 % 0x100) as u8,
        (value / 0x100 % 0x100) as u8,
        (value % 0x100) as u8,
    ];
    proof {
        reveal_with_fuel(place_value, 4);
        assert forall|i: int| 0 <= i < 4 implies bytes@[i] == be_bytes_u32(value)[i] by {
            lemma_digit_is_quotient(value as nat, (3 - i) as nat);
        }
    }
    bytes
}

/// Writes a 64-bit number as eight bytes, most significant first.
pub fn u64_to_be(value: u64) -> (bytes: [u8; 8])
    ensures
        bytes@ == be_bytes_u64(value),
{
    let bytes: [u8; 8] = [
        (value / 0x100_0000_0000_0000) as u8,
        (value / 0x1_0000_0000_0000 % 0x100) as u8,
        (value / 0x100_0000_0000 % 0x100) as u8,
        (value / 0x1_0000_0000 % 0x100) as u8,
        (value / 0x100_0000 % 0x100) as u8,
        (value / 0x1_0000 % 0x100) as u8,
        (value / 0x100 % 0x100) as u8,
        (value % 0x100) as u8,
    ];
    proof {
        reveal_with_fuel(place_value, 8);
        assert forall|i: int| 0 <= i < 8 implies bytes@[i] == be_bytes_u64(value)[i] by {
            lemma_digit_is_quotient(value as nat, (7 - i) as nat);
        }
    }
    bytes
}

/// Writes a 64-bit number as eight bytes, least significant first.
pub fn u64_to_le(value: u64) -> (bytes: [u8; 8])
    ensures
        bytes@ == le_bytes_u64(value),
        bytes@ == be_bytes_u64(value).reverse(),
{
    let bytes: [u8; 8] = [
        (value % 0x100) as u8,
        (value / 0x100 % 0x100) as u8,
        (value / 0x1_0000 % 0x100) as u8,
        (value / 0x100_0000 % 0x100) as u8,
        (value / 0x1_0000_0000 % 0x100) as u8,
        (value / 0x100_0000_0000 % 0x100) as u8,
        (value / 0x1_0000_0000_0000 % 0x100) as u8,
        (value / 0x100_0000_0000_0000) as u8,
    ];
    proof {
        reveal_with_fuel(place_value, 8);
        assert forall|i: int| 0 <= i < 8 implies bytes@[i] == le_bytes_u64(value)[i] by {
            lemma_digit_is_quotient(value as nat, i as nat);
        }
        assert(le_bytes_u64(value) =~= be_bytes_u64(value).reverse());
    }
    bytes
}

/// Reads the 32-bit number that the four bytes from `at` on denote, most
/// significant first.
pub fn u32_from_be(bytes: &[u8], at: usize) -> (value: u32)
    requires
        at + 4 <= bytes@.len(),
    ensures
        value == be_value(bytes@.subrange(at as int, at + 4)),
{
    let b0: u32 = bytes[at] as u32;
    let b1: u32 = bytes[at + 1] as u32;
    let b2: u32 = bytes[at + 2] as u32;
    let b3: u32 = bytes[at + 3] as u32;
    proof {
        let s4 = bytes@.subrange(at as int, at + 4);
        let s3 = s4.drop_last();
        let s2 = s3.drop_last();
        let s1 = s2.drop_last();
        let s0 = s1.drop_last();
        assert(be_value(s0) == 0);
        assert(be_value(s1) == b0);
        assert(be_value(s2) == 256 * be_value(s1) + b1);
        assert(be_value(s3) == 256 * be_value(s2) + b2);
        assert(be_value(s4) == 256 * be_value(s3) + b3);
    }
    b0 * 0x100_0000 + b1 * 0x1_0000 + b2 * 0x100 + b3
}

/// Reads the 64-bit number that the eight bytes from `at` on denote, most
/// significant first.
pub fn u64_from_be(bytes: &[u8], at: usize) -> (value: u64)
    requires
        at + 8 <= bytes@.len(),
    ensures
        value == be_value(bytes@.subrange(at as int, at + 8)),
{
    let b0: u64 = bytes[at] as u64;
    let b1: u64 = bytes[at + 1] as u64;
    let b2: u64 = bytes[at + 2] as u64;
    let b3: u64 = bytes[at + 3] as u64;
    let b4: u64 = bytes[at + 4] as u64;
    let b5: u64 = bytes[at + 5] as u64;
    let b6: u64 = bytes[at + 6] as u64;
    let b7: u64 = bytes[at + 7] as u64;
    proof {
        let s8 = bytes@.subrange(at as int, at + 8);
        let s7 = s8.drop_last();
        let s6 = s7.drop_last();
        let s5 = s6.drop_last();
        let s4 = s5.drop_last();
        let s3 = s4.drop_last();
        let s2 = s3.drop_last();
        let s1 = s2.drop_last();
        let s0 = s1.drop_last();
        assert(be_value(s0) == 0);
        assert(be_value(s1) == b0);
        assert(be_value(s2) == 256 * be_value(s1) + b1);
        assert(be_value(s3) == 256 * be_value(s2) + b2);
        assert(be_value(s4) == 256 * be_value(s3) + b3);
        assert(be_value(s5) == 256 * be_value(s4) + b4);
        assert(be_value(s6) == 256 * be_value(s5) + b5);
        assert(be_value(s7) == 256 * be_value(s6) + b6);
        assert(be_value(s8) == 256 * be_value(s7) + b7);
    }
    b0 * 0x100_0000_0000_0000 + b1 * 0x1_0000_0000_0000 + b2 * 0x100_0000_0000 + b3
        * 0x1_0000_0000 + b4 * 0x100_0000 + b5 * 0x1_0000 + b6 * 0x100 + b7
}

} // verus!
