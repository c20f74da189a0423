//! 256-bit unsigned integers.

use crate::bytes::low_u32;
use crate::hex;
use crate::hex::prefixed_hex_text;
use vstd::prelude::*;

verus! {

/// A 256-bit unsigned integer, held as four 64-bit limbs, least significant
/// limb first.
#[derive(Clone, Copy, Debug, PartialEq, Eq)]
pub struct U256 {
    pub limbs: [u64; 4],
}

/// The eight bytes of a 64-bit number, most significant byte first.
pub open spec fn limb_be_bytes(x: u64) -> Seq<u8> {
    seq![
        (x / 0x100_0000_0000_0000) as u8,
        ((x / 0x1_0000_0000_0000) % 256) as u8,
        ((x / 0x100_0000_0000) % 256) as u8,
        ((x / 0x1_0000_0000) % 256) as u8,
        ((x / 0x100_0000) % 256) as u8,
        ((x / 0x1_0000) % 256) as u8,
        ((x / 0x100) % 256) as u8,
        (x % 256) as u8,
    ]
}

/// The number that eight bytes spell, most significant byte first.
pub open spec fn limb_from_be_bytes(bytes: Seq<u8>) -> u64
    recommends
        bytes.len() == 8,
{
    (bytes[0] * 0x100_0000_0000_0000 + bytes[1] * 0x1_0000_0000_0000 + bytes[2] * 0x100_0000_0000
        + bytes[3] * 0x1_0000_0000 + bytes[4] * 0x100_0000 + bytes[5] * 0x1_0000 + bytes[6] * 0x100
        + bytes[7]) as u64
}

/// The number that bytes spell, most significant byte first.
pub open spec fn be_value(bytes: Seq<u8>) -> nat
    decreases bytes.len(),
{
    if bytes.len() == 0 {
        0
    } else {
        be_value(bytes.drop_last()) * 256 + bytes.last() as nat
    }
}

/// One more byte at the end moves the number up by one byte.
proof fn lemma_be_value_push(bytes: Seq<u8>, byte: u8)
    ensures
        be_value(bytes.push(byte)) == be_value(bytes) * 256 + byte as nat,
{
    assert(bytes.push(byte).drop_last() =~= bytes);
}

/// A number is the sum of its eight bytes, each at its place.
proof fn lemma_limb_digits(x: u64)
    ensures
        x == limb_be_bytes(x)[0] * 0x100_0000_0000_0000 + limb_be_bytes(x)[1] * 0x1_0000_0000_0000
            + limb_be_bytes(x)[2] * 0x100_0000_0000 + limb_be_bytes(x)[3] * 0x1_0000_0000
            + limb_be_bytes(x)[4] * 0x100_0000 + limb_be_bytes(x)[5] * 0x1_0000 + limb_be_bytes(
            x,
        )[6] * 0x100 + limb_be_bytes(x)[7],
{
    let x = x as int;
    let q1 = x / 0x100;
    let q2 = x / 0x1_0000;
    let q3 = x / 0x100_0000;
    let q4 = x / 0x1_0000_0000;
    let q5 = x / 0x100_0000_0000;
    let q6 = x / 0x1_0000_0000_0000;
    let q7 = x / 0x100_0000_0000_0000;
    vstd::arithmetic::div_mod::lemma_div_denominator(x, 0x100, 0x100);
    vstd::arithmetic::div_mod::lemma_div_denominator(x, 0x1_0000, 0x100);
    vstd::arithmetic::div_mod::lemma_div_denominator(x, 0x100_0000, 0x100);
    vstd::arithmetic::div_mod::lemma_div_denominator(x, 0x1_0000_0000, 0x100);
    vstd::arithmetic::div_mod::lemma_div_denominator(x, 0x100_0000_0000, 0x100);
    vstd::arithmetic::div_mod::lemma_div_denominator(x, 0x1_0000_0000_0000, 0x100);
}

/// Eight more bytes at the end move the number up by eight bytes.
proof fn lemma_be_value_limb(bytes: Seq<u8>, x: u64)
    ensures
        be_value(bytes + limb_be_bytes(x)) == be_value(bytes) * 0x1_0000_0000_0000_0000 + x,
{
    let digits = limb_be_bytes(x);
    let s1 = bytes.push(digits[0]);
    let s2 = s1.push(digits[1]);
    let s3 = s2.push(digits[2]);
    let s4 = s3.push(digits[3]);
    let s5 = s4.push(digits[4]);
    let s6 = s5.push(digits[5]);
    let s7 = s6.push(digits[6]);
    let s8 = s7.push(digits[7]);
    assert(s8 =~= bytes + digits);
    lemma_be_value_push(bytes, digits[0]);
    lemma_be_value_push(s1, digits[1]);
    lemma_be_value_push(s2, digits[2]);
    lemma_be_value_push(s3, digits[3]);
    lemma_be_value_push(s4, digits[4]);
    lemma_be_value_push(s5, digits[5]);
    lemma_be_value_push(s6, digits[6]);
    lemma_be_value_push(s7, digits[7]);
    lemma_limb_digits(x);
}

/// The low 64 bits of a number.
pub open spec fn low_u64(x: int) -> u64 {
    (x % 0x1_0000_0000_0000_0000) as u64
}

/// The big-endian bytes of each number of a column.
pub open spec fn u256_seqs(column: Seq<U256>) -> Seq<Seq<u8>> {
    column.map_values(|value: U256| value.be_bytes())
}

/// The big-endian bytes of a number that may be absent.
pub open spec fn optional_u256_view(value: Option<U256>) -> Option<Seq<u8>> {
    match value {
        Some(number) => Some(number.be_bytes()),
        None => None,
    }
}

/// The big-endian bytes of each number of a column whose entries may be absent.
pub open spec fn optional_u256_seqs(column: Seq<Option<U256>>) -> Seq<Option<Seq<u8>>> {
    column.map_values(|value: Option<U256>| optional_u256_view(value))
}

/// The decimal digit of a value below ten.
pub open spec fn decimal_digit(value: nat) -> char {
    ('0' as u8 + value) as u8 as char
}

/// The decimal text of a number: its digits, most significant first, with
/// no leading zero; `0` for zero.
pub open spec fn decimal_text(value: nat) -> Seq<char>
    decreases value,
{
    if value < 10 {
        seq![decimal_digit(value)]
    } else {
        decimal_text(value / 10).push(decimal_digit(value % 10))
    }
}

impl U256 {
    /// The number that the limbs spell.
    pub open spec fn value(&self) -> nat {
        (self.limbs[0] + self.limbs[1] * 0x1_0000_0000_0000_0000 + self.limbs[2]
            * 0x1_0000_0000_0000_0000_0000_0000_0000_0000 + self.limbs[3]
            * 0x1_0000_0000_0000_0000_0000_0000_0000_0000_0000_0000_0000_0000) as nat
    }

    /// The 32 bytes of the number, most significant byte first.
    pub open spec fn be_bytes(&self) -> Seq<u8> {
        limb_be_bytes(self.limbs[3]) + limb_be_bytes(self.limbs[2]) + limb_be_bytes(self.limbs[1])
            + limb_be_bytes(self.limbs[0])
    }

    /// The 32 bytes of a number spell the number, most significant byte
    /// first.
    pub proof fn lemma_be_bytes_value(&self)
        ensures
            self.be_bytes().len() == 32,
            be_value(self.be_bytes()) == self.value(),
    {
        let b3 = limb_be_bytes(self.limbs[3]);
        let b2 = limb_be_bytes(self.limbs[2]);
        let b1 = limb_be_bytes(self.limbs[1]);
        let b0 = limb_be_bytes(self.limbs[0]);
        lemma_be_value_limb(Seq::<u8>::empty(), self.limbs[3]);
        lemma_be_value_limb(b3, self.limbs[2]);
        lemma_be_value_limb(b3 + b2, self.limbs[1]);
        lemma_be_value_limb(b3 + b2 + b1, self.limbs[0]);
    }

    /// The number zero.
    pub fn zero() -> (r: U256)
        ensures
            r.value() == 0,
    {
        U256 { limbs: [0u64, 0u64, 0u64, 0u64] }
    }

    /// The number that a 64-bit integer holds.
    pub fn from_u64(x: u64) -> (r: U256)
        ensures
            r.value() == x,
    {
        U256 { limbs: [x, 0u64, 0u64, 0u64] }
    }

    /// The number as a `u32`, if it fits.
    pub fn as_u32(&self) -> (r: Option<u32>)
        ensures
            r == (if self.value() <= u32::MAX {
                Some(self.value() as u32)
            } else {
                None
            }),
    {
        if self.limbs[1] == 0 && self.limbs[2] == 0 && self.limbs[3] == 0 && self.limbs[0]
            <= 0xffff_ffff {
            Some(self.limbs[0] as u32)
        } else {
            None
        }
    }

    /// The number as a `u64`, if it fits.
    pub fn as_u64(&self) -> (r: Option<u64>)
        ensures
            r == (if self.value() <= u64::MAX {
                Some(self.value() as u64)
            } else {
                None
            }),
    {
        if self.limbs[1] == 0 && self.limbs[2] == 0 && self.limbs[3] == 0 {
            Some(self.limbs[0])
        } else {
            None
        }
    }

    /// The low 32 bits of the number.
    pub fn low_u32(&self) -> (r: u32)
        ensures
            r == low_u32(self.value() as int),
    {
        let r: u32 = (self.limbs[0] % 0x1_0000_0000) as u32;
        proof {
            let high = self.limbs[0] / 0x1_0000_0000 + self.limbs[1] * 0x1_0000_0000
                + self.limbs[2] * 0x1_0000_0000_0000_0000_0000_0000 + self.limbs[3]
                * 0x1_0000_0000_0000_0000_0000_0000_0000_0000_0000_0000;
            lemma_split(self.value() as int, high, r as int, 0x1_0000_0000);
        }
        r
    }

    /// The low 64 bits of the number.
    pub fn low_u64(&self) -> (r: u64)
        ensures
            r == low_u64(self.value() as int),
    {
        let r: u64 = self.limbs[0];
        proof {
            let high = self.limbs[1] + self.limbs[2] * 0x1_0000_0000_0000_0000 + self.limbs[3]
                * 0x1_0000_0000_0000_0000_0000_0000_0000_0000;
            lemma_split(self.value() as int, high, r as int, 0x1_0000_0000_0000_0000);
        }
        r
    }

    /// Calls `to_string` of `ethers_core::types::U256` on the same limbs.
    /// Trusted: the result is the decimal text of the number.
    #[verifier::external_body]
    pub(crate) fn to_decimal(&self) -> (text: String)
        ensures
            text@ == decimal_text(self.value()),
    {
        ethers_core::types::U256(self.limbs).to_string()
    }

    /// The prefixed hex text of the 32 bytes of the number.
    pub fn to_hex(&self) -> (text: String)
        ensures
            text@ == prefixed_hex_text(self.be_bytes()),
    {
        let bytes = self.to_vec_u8();
        hex::encode(&bytes)
    }

    /// Reads a number from its 32 bytes, most significant byte first.
    pub fn from_big_endian(bytes: &[u8; 32]) -> (r: U256)
        ensures
            r.be_bytes() == bytes@,
    {
        let bytes = bytes.as_slice();
        let l3: u64 = limb_from_bytes(bytes, 0);
        let l2: u64 = limb_from_bytes(bytes, 8);
        let l1: u64 = limb_from_bytes(bytes, 16);
        let l0: u64 = limb_from_bytes(bytes, 24);
        U256 { limbs: [l0, l1, l2, l3] }
    }

    /// Reads a number from one word: 32 bytes, most significant byte first.
    /// A byte string of another length is no word.
    pub fn from_word(bytes: &[u8]) -> (r: Option<U256>)
        ensures
            r is Some <==> bytes@.len() == 32,
            r matches Some(number) ==> number.be_bytes() == bytes@,
    {
        if bytes.len() == 32 {
            let l3: u64 = limb_from_bytes(bytes, 0);
            let l2: u64 = limb_from_bytes(bytes, 8);
            let l1: u64 = limb_from_bytes(bytes, 16);
            let l0: u64 = limb_from_bytes(bytes, 24);
            Some(U256 { limbs: [l0, l1, l2, l3] })
        } else {
            None
        }
    }

    /// The 32 bytes of the number, most significant byte first.
    pub fn to_vec_u8(&self) -> (r: Vec<u8>)
        ensures
            r@ == self.be_bytes(),
    {
        let mut r: Vec<u8> = Vec::new();
        push_limb(&mut r, self.limbs[3]);
        push_limb(&mut r, self.limbs[2]);
        push_limb(&mut r, self.limbs[1]);
        push_limb(&mut r, self.limbs[0]);
        r
    }
}

/// Splitting a number at a power of the base: the high part is the quotient.
proof fn lemma_split(x: int, high: int, low: int, base: int)
    requires
        x == high * base + low,
        0 <= low < base,
    ensures
        x / base == high,
        x % base == low,
{
    vstd::arithmetic::div_mod::lemma_fundamental_div_mod_converse(x, base, high, low);
}

fn limb_from_bytes(bytes: &[u8], at: usize) -> (r: u64)
    requires
        at + 8 <= bytes@.len(),
    ensures
        limb_be_bytes(r) == bytes@.subrange(at as int, at + 8),
{
    let b7: u64 = bytes[at] as u64;
    let b6: u64 = bytes[at + 1] as u64;
    let b5: u64 = bytes[at + 2] as u64;
    let b4: u64 = bytes[at + 3] as u64;
    let b3: u64 = bytes[at + 4] as u64;
    let b2: u64 = bytes[at + 5] as u64;
    let b1: u64 = bytes[at + 6] as u64;
    let b0: u64 = bytes[at + 7] as u64;
    let x7: u64 = b7;
    let x6: u64 = x7 * 256 + b6;
    let x5: u64 = x6 * 256 + b5;
    let x4: u64 = x5 * 256 + b4;
    let x3: u64 = x4 * 256 + b3;
    let x2: u64 = x3 * 256 + b2;
    let x1: u64 = x2 * 256 + b1;
    let x0: u64 = x1 * 256 + b0;
    proof {
        let x = x0 as int;
        lemma_split(x, x1 as int, b0 as int, 0x100);
        lemma_split(x, x2 as int, b1 * 0x100 + b0, 0x1_0000);
        lemma_split(x, x3 as int, b2 * 0x1_0000 + b1 * 0x100 + b0, 0x100_0000);
        lemma_split(
            x,
            x4 as int,
            b3 * 0x100_0000 + b2 * 0x1_0000 + b1 * 0x100 + b0,
            0x1_0000_0000,
        );
        lemma_split(
            x,
            x5 as int,
            b4 * 0x1_0000_0000 + b3 * 0x100_0000 + b2 * 0x1_0000 + b1 * 0x100 + b0,
            0x100_0000_0000,
        );
        lemma_split(
            x,
            x6 as int,
            b5 * 0x100_0000_0000 + b4 * 0x1_0000_0000 + b3 * 0x100_0000 + b2 * 0x1_0000 + b1
                * 0x100 + b0,
            0x1_0000_0000_0000,
        );
        lemma_split(
            x,
            x7 as int,
            b6 * 0x1_0000_0000_0000 + b5 * 0x100_0000_0000 + b4 * 0x1_0000_0000 + b3 * 0x100_0000
                + b2 * 0x1_0000 + b1 * 0x100 + b0,
            0x100_0000_0000_0000,
        );
        lemma_split(x1 as int, x2 as int, b1 as int, 0x100);
        lemma_split(x2 as int, x3 as int, b2 as int, 0x100);
        lemma_split(x3 as int, x4 as int, b3 as int, 0x100);
        lemma_split(x4 as int, x5 as int, b4 as int, 0x100);
        lemma_split(x5 as int, x6 as int, b5 as int, 0x100);
        lemma_split(x6 as int, x7 as int, b6 as int, 0x100);
    }
    x0
}

fn push_limb(out: &mut Vec<u8>, x: u64)
    ensures
        final(out)@ == old(out)@ + limb_be_bytes(x),
{
    out.push((x / 0x100_0000_0000_0000) as u8);
    out.push(((x / 0x1_0000_0000_0000) % 256) as u8);
    out.push(((x / 0x100_0000_0000) % 256) as u8);
    out.push(((x / 0x1_0000_0000) % 256) as u8);
    out.push(((x / 0x100_0000) % 256) as u8);
    out.push(((x / 0x1_0000) % 256) as u8);
    out.push(((x / 0x100) % 256) as u8);
    out.push((x % 256) as u8);
}

} // verus!
