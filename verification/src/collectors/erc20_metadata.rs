//! ERC-20 metadata: the name, symbol and decimals that a token contract
//! reports of itself at a block.

use crate::bytes::{byte_seqs, low_u32, to_vec, truncate_u32, H160};
use crate::hex;
use crate::collect::CollectByBlock;
use crate::errors::{CollectError, Datatype};
use crate::request::ChunkDim;
use crate::schema::{Schemas, Table};
use crate::store::{column_fits, store, store_owned_bytes, stored};
use crate::text::{decode_text, decoded_text, optional_text_seqs, optional_text_view};
use vstd::prelude::*;

verus! {

/// The column accumulator of ERC-20 metadata.
#[derive(Debug)]
pub struct Erc20MetadataColumns {
    pub n_rows: u64,
    pub block_number: Vec<u32>,
    pub erc20: Vec<Vec<u8>>,
    pub name: Vec<Option<String>>,
    pub symbol: Vec<Option<String>>,
    pub decimals: Vec<Option<u32>>,
}

/// The metadata of one token at one block.
pub struct Erc20MetadataRow {
    pub block_number: u32,
    pub erc20: Seq<u8>,
    pub name: Option<Seq<char>>,
    pub symbol: Option<Seq<char>>,
    pub decimals: Option<u32>,
}

/// What an ERC-20 metadata accumulator holds.
pub struct Erc20MetadataColumnsView {
    pub n_rows: nat,
    pub block_number: Seq<u32>,
    pub erc20: Seq<Seq<u8>>,
    pub name: Seq<Option<Seq<char>>>,
    pub symbol: Seq<Option<Seq<char>>>,
    pub decimals: Seq<Option<u32>>,
}

impl View for Erc20MetadataColumns {
    type V = Erc20MetadataColumnsView;

    open spec fn view(&self) -> Erc20MetadataColumnsView {
        Erc20MetadataColumnsView {
            n_rows: self.n_rows as nat,
            block_number: self.block_number@,
            erc20: byte_seqs(self.erc20@),
            name: optional_text_seqs(self.name@),
            symbol: optional_text_seqs(self.symbol@),
            decimals: self.decimals@,
        }
    }
}

impl Erc20MetadataColumnsView {
    /// The accumulator after one more row, stored under the guard of the schema.
    pub open spec fn push_row(self, schema: Table, row: Erc20MetadataRow) -> Self {
        Erc20MetadataColumnsView {
            n_rows: self.n_rows + 1,
            block_number: stored(
                schema.has_column("block_number"),
                self.block_number,
                row.block_number,
            ),
            erc20: stored(schema.has_column("erc20"), self.erc20, row.erc20),
            name: stored(schema.has_column("name"), self.name, row.name),
            symbol: stored(schema.has_column("symbol"), self.symbol, row.symbol),
            decimals: stored(schema.has_column("decimals"), self.decimals, row.decimals),
        }
    }

    /// Whether the accumulator holds nothing: no rows, and no entry in any
    /// column.
    pub open spec fn is_empty(self) -> bool {
        &&& self.n_rows == 0
        &&& self.block_number.len() == 0
        &&& self.erc20.len() == 0
        &&& self.name.len() == 0
        &&& self.symbol.len() == 0
        &&& self.decimals.len() == 0
    }

    /// The row-count invariant: every active column has one entry per row,
    /// and every inactive column is empty.
    pub open spec fn wf(self, schema: Table) -> bool {
        &&& column_fits(schema.has_column("block_number"), self.block_number.len(), self.n_rows)
        &&& column_fits(schema.has_column("erc20"), self.erc20.len(), self.n_rows)
        &&& column_fits(schema.has_column("name"), self.name.len(), self.n_rows)
        &&& column_fits(schema.has_column("symbol"), self.symbol.len(), self.n_rows)
        &&& column_fits(schema.has_column("decimals"), self.decimals.len(), self.n_rows)
    }

    /// One more row keeps the row-count invariant.
    pub proof fn lemma_push_row(self, schema: Table, row: Erc20MetadataRow)
        ensures
            self.wf(schema) ==> self.push_row(schema, row).wf(schema),
    {
    }
}

impl Erc20MetadataColumns {
    /// An accumulator without rows.
    pub fn new() -> (r: Erc20MetadataColumns)
        ensures
            r@.is_empty(),
            forall|schema: Table| #[trigger] r@.wf(schema),
    {
        Erc20MetadataColumns {
            n_rows: 0,
            block_number: Vec::new(),
            erc20: Vec::new(),
            name: Vec::new(),
            symbol: Vec::new(),
            decimals: Vec::new(),
        }
    }
}

impl Default for Erc20MetadataColumns {
    fn default() -> (r: Erc20MetadataColumns)
        ensures
            r@.is_empty(),
            forall|schema: Table| #[trigger] r@.wf(schema),
    {
        Erc20MetadataColumns::new()
    }
}

/// The three questions that are put to a token contract.
#[derive(Clone, Copy, Debug, PartialEq, Eq, Structural)]
pub enum Erc20Call {
    Name,
    Symbol,
    Decimals,
}

/// The four bytes that select a question in the call data.
pub open spec fn selector(call: Erc20Call) -> Seq<u8> {
    match call {
        Erc20Call::Name => seq![0x06u8, 0xfd, 0xde, 0x03],
        Erc20Call::Symbol => seq![0x95u8, 0xd8, 0x9b, 0x41],
        Erc20Call::Decimals => seq![0x31u8, 0x3c, 0xe5, 0x67],
    }
}

/// The call data of a question: its selector, without arguments.
pub fn call_data(call: Erc20Call) -> (r: Vec<u8>)
    ensures
        r@ == selector(call),
{
    let decoded = match call {
        Erc20Call::Name => {
            proof {
                reveal_strlit("0x06fdde03");
            }
            hex::decode("0x06fdde03")
        },
        Erc20Call::Symbol => {
            proof {
                reveal_strlit("0x95d89b41");
            }
            hex::decode("0x95d89b41")
        },
        Erc20Call::Decimals => {
            proof {
                reveal_strlit("0x313ce567");
            }
            hex::decode("0x313ce567")
        },
    };
    match decoded {
        Ok(bytes) => bytes,
        Err(_) => {
            assert(false);
            Vec::new()
        },
    }
}

/// The small number that the output of a call spells: the output is one
/// 32-byte word, most significant byte first, whose first 28 bytes are zero.
pub open spec fn small_integer(output: Seq<u8>) -> Option<u32> {
    if output.len() == 32 && forall|i: int| 0 <= i < 28 ==> output[i] == 0 {
        Some(
            (output[28] * 0x100_0000 + output[29] * 0x1_0000 + output[30] * 0x100
                + output[31]) as u32,
        )
    } else {
        None
    }
}

/// Reads the output of a call as a small number; `None` where it is not one.
pub fn bytes_to_u32(output: &Vec<u8>) -> (r: Option<u32>)
    ensures
        r == small_integer(output@),
{
    if output.len() != 32 {
        return None;
    }
    let mut i: usize = 0;
    while i < 28
        invariant
            i <= 28,
            output@.len() == 32,
            forall|k: int| 0 <= k < i ==> output@[k] == 0,
        decreases 28 - i,
    {
        if output[i] != 0 {
            return None;
        }
        i = i + 1;
    }
    Some(
        (output[28] as u32) * 0x100_0000 + (output[29] as u32) * 0x1_0000 + (output[30] as u32)
            * 0x100 + (output[31] as u32),
    )
}

/// The text that the outcome of a call gives: none where the call failed or
/// its output is not UTF-8.
pub open spec fn answered_text(output: Option<Vec<u8>>) -> Option<Seq<char>> {
    match output {
        Some(bytes) => decoded_text(bytes@),
        None => None,
    }
}

/// The small number that the outcome of a call gives: none where the call
/// failed or its output is not one.
pub open spec fn answered_number(output: Option<Vec<u8>>) -> Option<u32> {
    match output {
        Some(bytes) => small_integer(bytes@),
        None => None,
    }
}

/// The answer for one token at one block: the block number, the address of
/// the token, and its name, symbol and decimals as far as it reported them.
pub type BlockAddressNameSymbolDecimals = (
    u32,
    Vec<u8>,
    Option<String>,
    Option<String>,
    Option<u32>,
);

/// How far the questions to a token have got.
#[derive(Clone, Copy, Debug, PartialEq, Eq, Structural)]
pub enum Erc20MetadataStage {
    /// The name is asked next.
    Name,
    /// The symbol is asked next.
    Symbol,
    /// The decimals are asked next.
    Decimals,
    /// Every question has been answered.
    Done,
}

/// The questions to one token at one block, and the answers so far. The
/// caller puts each question to the node and hands back the output, or
/// `None` where the call failed: a token need not answer every question.
#[derive(Debug)]
pub struct Erc20MetadataQuery {
    pub block_number: u64,
    pub address: H160,
    pub stage: Erc20MetadataStage,
    pub name: Option<String>,
    pub symbol: Option<String>,
    pub decimals: Option<u32>,
}

impl Erc20MetadataQuery {
    /// Starts with the first question.
    pub fn new(block_number: u64, address: H160) -> (r: Erc20MetadataQuery)
        ensures
            r.block_number == block_number,
            r.address == address,
            r.stage == Erc20MetadataStage::Name,
            r.name is None,
            r.symbol is None,
            r.decimals is None,
    {
        Erc20MetadataQuery {
            block_number,
            address,
            stage: Erc20MetadataStage::Name,
            name: None,
            symbol: None,
            decimals: None,
        }
    }

    /// The question that is due, if any is left.
    pub open spec fn spec_pending(&self) -> Option<Erc20Call> {
        match self.stage {
            Erc20MetadataStage::Name => Some(Erc20Call::Name),
            Erc20MetadataStage::Symbol => Some(Erc20Call::Symbol),
            Erc20MetadataStage::Decimals => Some(Erc20Call::Decimals),
            Erc20MetadataStage::Done => None,
        }
    }

    /// The question that is due, if any is left.
    #[verifier::when_used_as_spec(spec_pending)]
    pub fn pending(&self) -> (r: Option<Erc20Call>)
        ensures
            r == self.spec_pending(),
    {
        match self.stage {
            Erc20MetadataStage::Name => Some(Erc20Call::Name),
            Erc20MetadataStage::Symbol => Some(Erc20Call::Symbol),
            Erc20MetadataStage::Decimals => Some(Erc20Call::Decimals),
            Erc20MetadataStage::Done => None,
        }
    }

    /// The call data to send to the token at the block, if a question is left.
    pub fn next_call(&self) -> (r: Option<Vec<u8>>)
        ensures
            match self.pending() {
                Some(call) => r matches Some(data) && data@ == selector(call),
                None => r is None,
            },
    {
        match self.pending() {
            Some(call) => Some(call_data(call)),
            None => None,
        }
    }

    /// Takes the outcome of the call that was due and moves on to the next
    /// question. A call that failed, or whose output cannot be read, leaves
    /// its answer absent. Once every question is answered, further outcomes
    /// change nothing.
    pub fn receive(&mut self, output: Option<Vec<u8>>)
        ensures
            final(self).block_number == old(self).block_number,
            final(self).address == old(self).address,
            match old(self).stage {
                Erc20MetadataStage::Name => {
                    &&& final(self).stage == Erc20MetadataStage::Symbol
                    &&& optional_text_view(final(self).name) == answered_text(output)
                    &&& final(self).symbol == old(self).symbol
                    &&& final(self).decimals == old(self).decimals
                },
                Erc20MetadataStage::Symbol => {
                    &&& final(self).stage == Erc20MetadataStage::Decimals
                    &&& final(self).name == old(self).name
                    &&& optional_text_view(final(self).symbol) == answered_text(output)
                    &&& final(self).decimals == old(self).decimals
                },
                Erc20MetadataStage::Decimals => {
                    &&& final(self).stage == Erc20MetadataStage::Done
                    &&& final(self).name == old(self).name
                    &&& final(self).symbol == old(self).symbol
                    &&& final(self).decimals == answered_number(output)
                },
                Erc20MetadataStage::Done => *final(self) == *old(self),
            },
    {
        match self.stage {
            Erc20MetadataStage::Name => {
                self.name = match output {
                    Some(bytes) => decode_text(bytes),
                    None => None,
                };
                self.stage = Erc20MetadataStage::Symbol;
            },
            Erc20MetadataStage::Symbol => {
                self.symbol = match output {
                    Some(bytes) => decode_text(bytes),
                    None => None,
                };
                self.stage = Erc20MetadataStage::Decimals;
            },
            Erc20MetadataStage::Decimals => {
                self.decimals = match output {
                    Some(bytes) => bytes_to_u32(&bytes),
                    None => None,
                };
                self.stage = Erc20MetadataStage::Done;
            },
            Erc20MetadataStage::Done => {},
        }
    }

    /// The answer, once every question has been answered.
    pub fn response(self) -> (r: Option<BlockAddressNameSymbolDecimals>)
        ensures
            r is Some <==> self.stage == Erc20MetadataStage::Done,
            r matches Some(response) ==> {
                &&& response.0 == low_u32(self.block_number as int)
                &&& response.1@ == self.address@
                &&& response.2 == self.name
                &&& response.3 == self.symbol
                &&& response.4 == self.decimals
            },
    {
        match self.stage {
            Erc20MetadataStage::Done => Some(
                (
                    truncate_u32(self.block_number),
                    to_vec(self.address.as_slice()),
                    self.name,
                    self.symbol,
                    self.decimals,
                ),
            ),
            _ => None,
        }
    }
}

/// The row of an answer.
pub open spec fn erc20_metadata_row(response: BlockAddressNameSymbolDecimals) -> Erc20MetadataRow {
    Erc20MetadataRow {
        block_number: response.0,
        erc20: response.1@,
        name: optional_text_view(response.2),
        symbol: optional_text_view(response.3),
        decimals: response.4,
    }
}

fn store_text(active: bool, column: &mut Vec<Option<String>>, value: Option<String>)
    ensures
        optional_text_seqs(final(column)@) == stored(
            active,
            optional_text_seqs(old(column)@),
            optional_text_view(value),
        ),
{
    if active {
        column.push(value);
        assert(optional_text_seqs(column@) =~= optional_text_seqs(old(column)@).push(
            optional_text_view(value),
        ));
    }
}

/// Appends the row of an answer. An absent name, symbol or number of decimals
/// is stored as absent: the row is appended all the same.
pub fn process_erc20_metadata(
    response: BlockAddressNameSymbolDecimals,
    columns: &mut Erc20MetadataColumns,
    schema: &Table,
)
    requires
        old(columns).n_rows < u64::MAX,
    ensures
        final(columns)@ == old(columns)@.push_row(*schema, erc20_metadata_row(response)),
        old(columns)@.wf(*schema) ==> final(columns)@.wf(*schema),
{
    let (block, address, name, symbol, decimals) = response;
    columns.n_rows = columns.n_rows + 1;
    store(schema.has_column("block_number"), &mut columns.block_number, block);
    store_owned_bytes(schema.has_column("erc20"), &mut columns.erc20, address);
    store_text(schema.has_column("name"), &mut columns.name, name);
    store_text(schema.has_column("symbol"), &mut columns.symbol, symbol);
    store(schema.has_column("decimals"), &mut columns.decimals, decimals);
}

/// The data kind of ERC-20 metadata.
pub struct Erc20Metadata;

/// Appends the row of an answer under the guard of the table that the
/// registry holds for ERC-20 metadata.
pub fn transform_erc20_metadata(
    response: BlockAddressNameSymbolDecimals,
    columns: &mut Erc20MetadataColumns,
    schemas: &Schemas,
)
    requires
        schemas@.contains_key(Datatype::Erc20Metadata),
        old(columns).n_rows < u64::MAX,
    ensures
        final(columns)@ == old(columns)@.push_row(
            schemas@[Datatype::Erc20Metadata],
            erc20_metadata_row(response),
        ),
        old(columns)@.wf(schemas@[Datatype::Erc20Metadata]) ==> final(columns)@.wf(
            schemas@[Datatype::Erc20Metadata],
        ),
{
    process_erc20_metadata(response, columns, schemas.get(Datatype::Erc20Metadata).unwrap());
}

impl CollectByBlock for Erc20Metadata {
    type Response = BlockAddressNameSymbolDecimals;

    type Columns = Erc20MetadataColumns;

    open spec fn datatype() -> Datatype {
        Datatype::Erc20Metadata
    }

    open spec fn admits(
        response: BlockAddressNameSymbolDecimals,
        columns: Erc20MetadataColumns,
    ) -> bool {
        columns.n_rows < u64::MAX
    }

    open spec fn defect(
        response: BlockAddressNameSymbolDecimals,
        schema: Table,
    ) -> Option<CollectError> {
        None
    }

    open spec fn appended(
        before: Erc20MetadataColumns,
        after: Erc20MetadataColumns,
        response: BlockAddressNameSymbolDecimals,
        schema: Table,
    ) -> bool {
        after@ == before@.push_row(schema, erc20_metadata_row(response))
    }

    open spec fn columns_wf(columns: Erc20MetadataColumns, schema: Table) -> bool {
        columns@.wf(schema)
    }

    fn kind() -> (r: Datatype) {
        Datatype::Erc20Metadata
    }

    fn fits(
        response: &BlockAddressNameSymbolDecimals,
        columns: &Erc20MetadataColumns,
    ) -> (r: bool) {
        columns.n_rows < u64::MAX
    }

    fn block_parameters() -> (r: Vec<ChunkDim>)
        ensures
            r@ == seq![ChunkDim::BlockNumber, ChunkDim::Address],
    {
        vec![ChunkDim::BlockNumber, ChunkDim::Address]
    }

    fn transform(
        response: BlockAddressNameSymbolDecimals,
        columns: &mut Erc20MetadataColumns,
        schemas: &Schemas,
    ) -> (r: Result<(), CollectError>) {
        transform_erc20_metadata(response, columns, schemas);
        Ok(())
    }
}

} // verus!
