//! Column encodings: how byte strings and 256-bit integers leave an
//! accumulator.
//!
//! The accumulators hold raw bytes and plain numbers. The schema decides, for
//! each column, whether byte strings leave as bytes or as hex text, and
//! whether 256-bit integers leave as bytes, as hex text or as decimal text.

use crate::bytes::to_vec;
use crate::hex;
use crate::hex::prefixed_hex_text;
use crate::schema::{ColumnEncoding, U256Type};
use crate::u256::{decimal_text, U256};
use vstd::prelude::*;

verus! {

/// A column ready to leave: bytes or text.
#[derive(Debug, PartialEq, Eq)]
pub enum EncodedColumn {
    Binary(Vec<Vec<u8>>),
    Text(Vec<String>),
}

/// A column whose entries may be absent, ready to leave: bytes or text.
#[derive(Debug, PartialEq, Eq)]
pub enum EncodedOptionalColumn {
    Binary(Vec<Option<Vec<u8>>>),
    Text(Vec<Option<String>>),
}

/// What leaves for a cell: bytes or text.
pub enum Cell {
    Binary(Seq<u8>),
    Text(Seq<char>),
}

/// The cell of a byte string under an encoding.
pub open spec fn bytes_cell(bytes: Seq<u8>, encoding: ColumnEncoding) -> Cell {
    match encoding {
        ColumnEncoding::Binary => Cell::Binary(bytes),
        ColumnEncoding::Hex => Cell::Text(prefixed_hex_text(bytes)),
    }
}

/// The cell of a byte string that may be absent.
pub open spec fn optional_bytes_cell(bytes: Option<Vec<u8>>, encoding: ColumnEncoding) -> Option<
    Cell,
> {
    match bytes {
        Some(bytes) => Some(bytes_cell(bytes@, encoding)),
        None => None,
    }
}

/// The cell of a 256-bit integer under a representation.
pub open spec fn u256_cell(value: U256, u256_type: U256Type) -> Cell {
    match u256_type {
        U256Type::Binary => Cell::Binary(value.be_bytes()),
        U256Type::Hex => Cell::Text(prefixed_hex_text(value.be_bytes())),
        U256Type::Decimal => Cell::Text(decimal_text(value.value())),
    }
}

/// The cell of a 256-bit integer that may be absent.
pub open spec fn optional_u256_cell(value: Option<U256>, u256_type: U256Type) -> Option<Cell> {
    match value {
        Some(value) => Some(u256_cell(value, u256_type)),
        None => None,
    }
}

/// The cell that holds bytes that may be absent.
pub open spec fn binary_cell(bytes: Option<Vec<u8>>) -> Option<Cell> {
    match bytes {
        Some(bytes) => Some(Cell::Binary(bytes@)),
        None => None,
    }
}

/// The cell that holds a text that may be absent.
pub open spec fn text_cell(text: Option<String>) -> Option<Cell> {
    match text {
        Some(text) => Some(Cell::Text(text@)),
        None => None,
    }
}

impl EncodedColumn {
    /// The cells of the column.
    pub open spec fn cells(&self) -> Seq<Cell> {
        match self {
            EncodedColumn::Binary(column) => column@.map_values(
                |bytes: Vec<u8>| Cell::Binary(bytes@),
            ),
            EncodedColumn::Text(column) => column@.map_values(|text: String| Cell::Text(text@)),
        }
    }
}

impl EncodedOptionalColumn {
    /// The cells of the column.
    pub open spec fn cells(&self) -> Seq<Option<Cell>> {
        match self {
            EncodedOptionalColumn::Binary(column) => column@.map_values(
                |bytes: Option<Vec<u8>>| binary_cell(bytes),
            ),
            EncodedOptionalColumn::Text(column) => column@.map_values(
                |text: Option<String>| text_cell(text),
            ),
        }
    }
}

/// The prefixed hex text of each byte string of a column.
pub fn to_vec_hex(column: &Vec<Vec<u8>>) -> (texts: Vec<String>)
    ensures
        texts@.len() == column@.len(),
        forall|i: int|
            0 <= i < column@.len() ==> (#[trigger] texts@[i])@ == prefixed_hex_text(column@[i]@),
{
    let mut texts: Vec<String> = Vec::new();
    let mut i: usize = 0;
    while i < column.len()
        invariant
            i <= column@.len(),
            texts@.len() == i,
            forall|k: int| 0 <= k < i ==> (#[trigger] texts@[k])@ == prefixed_hex_text(column@[k]@),
        decreases column@.len() - i,
    {
        texts.push(hex::encode(&column[i]));
        i = i + 1;
    }
    texts
}

/// Encodes a column of byte strings as the schema asks.
pub fn encode_bytes(column: &Vec<Vec<u8>>, encoding: ColumnEncoding) -> (encoded: EncodedColumn)
    ensures
        encoded.cells().len() == column@.len(),
        forall|i: int|
            0 <= i < column@.len() ==> #[trigger] encoded.cells()[i] == bytes_cell(
                column@[i]@,
                encoding,
            ),
{
    match encoding {
        ColumnEncoding::Binary => {
            let mut copies: Vec<Vec<u8>> = Vec::new();
            let mut i: usize = 0;
            while i < column.len()
                invariant
                    i <= column@.len(),
                    copies@.len() == i,
                    forall|k: int| 0 <= k < i ==> (#[trigger] copies@[k])@ == column@[k]@,
                decreases column@.len() - i,
            {
                copies.push(to_vec(column[i].as_slice()));
                i = i + 1;
            }
            EncodedColumn::Binary(copies)
        },
        ColumnEncoding::Hex => EncodedColumn::Text(to_vec_hex(column)),
    }
}

/// Encodes a column of byte strings that may be absent as the schema asks.
pub fn encode_optional_bytes(column: &Vec<Option<Vec<u8>>>, encoding: ColumnEncoding) -> (encoded:
    EncodedOptionalColumn)
    ensures
        encoded.cells().len() == column@.len(),
        forall|i: int|
            0 <= i < column@.len() ==> #[trigger] encoded.cells()[i] == optional_bytes_cell(
                column@[i],
                encoding,
            ),
{
    match encoding {
        ColumnEncoding::Binary => {
            let mut copies: Vec<Option<Vec<u8>>> = Vec::new();
            let mut i: usize = 0;
            while i < column.len()
                invariant
                    i <= column@.len(),
                    copies@.len() == i,
                    encoding == ColumnEncoding::Binary,
                    forall|k: int|
                        0 <= k < i ==> binary_cell(#[trigger] copies@[k]) == optional_bytes_cell(
                            column@[k],
                            encoding,
                        ),
                decreases column@.len() - i,
            {
                let copy: Option<Vec<u8>> = match &column[i] {
                    Some(bytes) => Some(to_vec(bytes.as_slice())),
                    None => None,
                };
                copies.push(copy);
                i = i + 1;
            }
            EncodedOptionalColumn::Binary(copies)
        },
        ColumnEncoding::Hex => {
            let mut texts: Vec<Option<String>> = Vec::new();
            let mut i: usize = 0;
            while i < column.len()
                invariant
                    i <= column@.len(),
                    texts@.len() == i,
                    encoding == ColumnEncoding::Hex,
                    forall|k: int|
                        0 <= k < i ==> text_cell(#[trigger] texts@[k]) == optional_bytes_cell(
                            column@[k],
                            encoding,
                        ),
                decreases column@.len() - i,
            {
                let text: Option<String> = match &column[i] {
                    Some(bytes) => Some(hex::encode(bytes)),
                    None => None,
                };
                texts.push(text);
                i = i + 1;
            }
            EncodedOptionalColumn::Text(texts)
        },
    }
}

/// Encodes a 256-bit integer as text: hex, or decimal if asked for.
fn u256_text(value: &U256, u256_type: U256Type) -> (text: String)
    requires
        u256_type != U256Type::Binary,
    ensures
        Cell::Text(text@) == u256_cell(*value, u256_type),
{
    match u256_type {
        U256Type::Decimal => value.to_decimal(),
        _ => value.to_hex(),
    }
}

/// Encodes a column of 256-bit integers as the schema asks.
pub fn encode_u256(column: &Vec<U256>, u256_type: U256Type) -> (encoded: EncodedColumn)
    ensures
        encoded.cells().len() == column@.len(),
        forall|i: int|
            0 <= i < column@.len() ==> #[trigger] encoded.cells()[i] == u256_cell(
                column@[i],
                u256_type,
            ),
{
    match u256_type {
        U256Type::Binary => {
            let mut bytes: Vec<Vec<u8>> = Vec::new();
            let mut i: usize = 0;
            while i < column.len()
                invariant
                    i <= column@.len(),
                    bytes@.len() == i,
                    forall|k: int| 0 <= k < i ==> (#[trigger] bytes@[k])@ == column@[k].be_bytes(),
                decreases column@.len() - i,
            {
                bytes.push(column[i].to_vec_u8());
                i = i + 1;
            }
            EncodedColumn::Binary(bytes)
        },
        _ => {
            let mut texts: Vec<String> = Vec::new();
            let mut i: usize = 0;
            while i < column.len()
                invariant
                    i <= column@.len(),
                    texts@.len() == i,
                    u256_type != U256Type::Binary,
                    forall|k: int|
                        0 <= k < i ==> Cell::Text((#[trigger] texts@[k])@) == u256_cell(
                            column@[k],
                            u256_type,
                        ),
                decreases column@.len() - i,
            {
                texts.push(u256_text(&column[i], u256_type));
                i = i + 1;
            }
            EncodedColumn::Text(texts)
        },
    }
}

/// Encodes a column of 256-bit integers that may be absent as the schema
/// asks.
pub fn encode_optional_u256(column: &Vec<Option<U256>>, u256_type: U256Type) -> (encoded:
    EncodedOptionalColumn)
    ensures
        encoded.cells().len() == column@.len(),
        forall|i: int|
            0 <= i < column@.len() ==> #[trigger] encoded.cells()[i] == optional_u256_cell(
                column@[i],
                u256_type,
            ),
{
    match u256_type {
        U256Type::Binary => {
            let mut bytes: Vec<Option<Vec<u8>>> = Vec::new();
            let mut i: usize = 0;
            while i < column.len()
                invariant
                    i <= column@.len(),
                    bytes@.len() == i,
                    u256_type == U256Type::Binary,
                    forall|k: int|
                        0 <= k < i ==> binary_cell(#[trigger] bytes@[k]) == optional_u256_cell(
                            column@[k],
                            u256_type,
                        ),
                decreases column@.len() - i,
            {
                let entry: Option<Vec<u8>> = match &column[i] {
                    Some(value) => Some(value.to_vec_u8()),
                    None => None,
                };
                bytes.push(entry);
                i = i + 1;
            }
            EncodedOptionalColumn::Binary(bytes)
        },
        _ => {
            let mut texts: Vec<Option<String>> = Vec::new();
            let mut i: usize = 0;
            while i < column.len()
                invariant
                    i <= column@.len(),
                    texts@.len() == i,
                    u256_type != U256Type::Binary,
                    forall|k: int|
                        0 <= k < i ==> text_cell(#[trigger] texts@[k]) == optional_u256_cell(
                            column@[k],
                            u256_type,
                        ),
                decreases column@.len() - i,
            {
                let entry: Option<String> = match &column[i] {
                    Some(value) => Some(u256_text(value, u256_type)),
                    None => None,
                };
                texts.push(entry);
                i = i + 1;
            }
            EncodedOptionalColumn::Text(texts)
        },
    }
}

} // verus!
