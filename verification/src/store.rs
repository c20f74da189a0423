//! The guarded store: a value reaches a column only if the schema activates it.

use crate::bytes::{byte_seqs, optional_byte_seqs, optional_slice_view, to_vec};
use crate::u256::{optional_u256_seqs, optional_u256_view, u256_seqs, U256};
use vstd::prelude::*;

verus! {

/// A column after a guarded store of `value`: one entry longer if the column
/// is active, untouched otherwise.
pub open spec fn stored<T>(active: bool, column: Seq<T>, value: T) -> Seq<T> {
    if active {
        column.push(value)
    } else {
        column
    }
}

/// Whether a column of the given length fits an accumulator of `n_rows` rows:
/// an active column has one entry per row, an inactive one is empty.
pub open spec fn column_fits(active: bool, len: nat, n_rows: nat) -> bool {
    if active {
        len == n_rows
    } else {
        len == 0
    }
}

/// Whether a row counter has room for more rows.
pub fn has_room_for(n_rows: u64, rows: usize) -> (r: bool)
    ensures
        r == (n_rows + rows <= u64::MAX),
{
    rows as u64 <= u64::MAX - n_rows
}

/// Guarded store of a plain value.
pub fn store<T>(active: bool, column: &mut Vec<T>, value: T)
    ensures
        final(column)@ == stored(active, old(column)@, value),
{
    if active {
        column.push(value);
    }
}

/// Guarded store of a byte string. The bytes are copied only if the column
/// is active.
pub fn store_bytes(active: bool, column: &mut Vec<Vec<u8>>, value: &[u8])
    ensures
        byte_seqs(final(column)@) == stored(active, byte_seqs(old(column)@), value@),
{
    if active {
        column.push(to_vec(value));
    }
}

/// Guarded store of a byte string that the caller owns.
pub fn store_owned_bytes(active: bool, column: &mut Vec<Vec<u8>>, value: Vec<u8>)
    ensures
        byte_seqs(final(column)@) == stored(active, byte_seqs(old(column)@), value@),
{
    if active {
        column.push(value);
    }
}

/// Guarded store of the 32 bytes of a 256-bit number, most significant byte
/// first. The bytes are written out only if the column is active.
pub fn store_u256_bytes(active: bool, column: &mut Vec<Vec<u8>>, value: &U256)
    ensures
        byte_seqs(final(column)@) == stored(active, byte_seqs(old(column)@), value.be_bytes()),
{
    if active {
        let bytes = value.to_vec_u8();
        column.push(bytes);
    }
}

/// Guarded store of a byte string that may be absent. The bytes are copied
/// only if the column is active.
pub fn store_optional_bytes(
    active: bool,
    column: &mut Vec<Option<Vec<u8>>>,
    value: Option<&[u8]>,
)
    ensures
        optional_byte_seqs(final(column)@) == stored(
            active,
            optional_byte_seqs(old(column)@),
            optional_slice_view(value),
        ),
{
    if active {
        let copy: Option<Vec<u8>> = match value {
            Some(bytes) => Some(to_vec(bytes)),
            None => None,
        };
        column.push(copy);
        assert(optional_byte_seqs(column@) =~= optional_byte_seqs(old(column)@).push(
            optional_slice_view(value),
        ));
    }
}

/// Guarded store of a 256-bit number.
pub fn store_u256(active: bool, column: &mut Vec<U256>, value: U256)
    ensures
        u256_seqs(final(column)@) == stored(active, u256_seqs(old(column)@), value.be_bytes()),
{
    if active {
        column.push(value);
    }
}

/// Guarded store of a 256-bit number that may be absent.
pub fn store_optional_u256(active: bool, column: &mut Vec<Option<U256>>, value: Option<U256>)
    ensures
        optional_u256_seqs(final(column)@) == stored(
            active,
            optional_u256_seqs(old(column)@),
            optional_u256_view(value),
        ),
{
    if active {
        column.push(value);
        assert(optional_u256_seqs(column@) =~= optional_u256_seqs(old(column)@).push(
            optional_u256_view(value),
        ));
    }
}

} // verus!
