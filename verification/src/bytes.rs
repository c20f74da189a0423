//! Byte strings: fixed-size hashes and addresses, and their column form.

use vstd::prelude::*;
use vstd::slice::slice_to_vec;

verus! {

/// A 20-byte account address.
pub type H160 = [u8; 20];

/// A 32-byte hash or log topic.
pub type H256 = [u8; 32];

/// A 256-byte bloom filter.
pub type Bloom = [u8; 256];

/// The byte strings held by a binary column.
pub open spec fn byte_seqs(column: Seq<Vec<u8>>) -> Seq<Seq<u8>> {
    column.map_values(|value: Vec<u8>| value@)
}

/// The byte strings held by a binary column whose entries may be absent.
pub open spec fn optional_byte_seqs(column: Seq<Option<Vec<u8>>>) -> Seq<Option<Seq<u8>>> {
    column.map_values(|value: Option<Vec<u8>>| optional_bytes_view(value))
}

/// The bytes of an optional owned byte string.
pub open spec fn optional_bytes_view(value: Option<Vec<u8>>) -> Option<Seq<u8>> {
    match value {
        Some(bytes) => Some(bytes@),
        None => None,
    }
}

/// The bytes of an optional fixed-size byte string.
pub open spec fn optional_array_view<const N: usize>(value: Option<[u8; N]>) -> Option<Seq<u8>> {
    match value {
        Some(bytes) => Some(bytes@),
        None => None,
    }
}

/// `n` zero bytes.
pub open spec fn zeros(n: nat) -> Seq<u8> {
    Seq::new(n, |i: int| 0u8)
}

/// Copies a byte slice into an owned byte string.
pub fn to_vec(bytes: &[u8]) -> (r: Vec<u8>)
    ensures
        r@ == bytes@,
{
    slice_to_vec(bytes)
}

/// The bytes of an optional borrowed byte string.
pub open spec fn optional_slice_view(value: Option<&[u8]>) -> Option<Seq<u8>> {
    match value {
        Some(bytes) => Some(bytes@),
        None => None,
    }
}

/// Borrows an optional fixed-size byte string as a slice.
pub fn optional_slice<const N: usize>(value: &Option<[u8; N]>) -> (r: Option<&[u8]>)
    ensures
        optional_slice_view(r) == optional_array_view(*value),
{
    match value {
        Some(bytes) => Some(bytes.as_slice()),
        None => None,
    }
}

/// Borrows an optional owned byte string as a slice.
pub fn optional_vec_slice(value: &Option<Vec<u8>>) -> (r: Option<&[u8]>)
    ensures
        optional_slice_view(r) == optional_bytes_view(*value),
{
    match value {
        Some(bytes) => Some(bytes.as_slice()),
        None => None,
    }
}

/// Whether two byte strings are equal.
pub fn same_bytes(a: &[u8], b: &[u8]) -> (r: bool)
    ensures
        r == (a@ == b@),
{
    if a.len() != b.len() {
        return false;
    }
    let mut i: usize = 0;
    while i < a.len()
        invariant
            i <= a@.len() == b@.len(),
            forall|k: int| 0 <= k < i ==> a@[k] == b@[k],
        decreases a@.len() - i,
    {
        if a[i] != b[i] {
            return false;
        }
        i = i + 1;
    }
    assert(a@ =~= b@);
    true
}

/// The all-zero 20-byte address.
pub fn zero_address() -> (r: H160)
    ensures
        r@ == zeros(20),
{
    [0u8; 20]
}

/// The all-zero 32-byte hash.
pub fn zero_hash() -> (r: H256)
    ensures
        r@ == zeros(32),
{
    [0u8; 32]
}

/// The low 32 bits of a number.
pub open spec fn low_u32(x: int) -> u32 {
    (x % 0x1_0000_0000) as u32
}

/// Narrows a 64-bit number to its low 32 bits.
pub fn truncate_u32(x: u64) -> (r: u32)
    ensures
        r == low_u32(x as int),
{
    (x % 0x1_0000_0000) as u32
}

/// Narrows a position in a list to its low 32 bits.
pub fn truncate_index(i: usize) -> (r: u32)
    ensures
        r == low_u32(i as int),
{
    ((i as u64) % 0x1_0000_0000) as u32
}

} // verus!
