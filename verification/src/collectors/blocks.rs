//! Blocks: one row for every block.

use crate::bytes::{
    byte_seqs, low_u32, optional_array_view, optional_byte_seqs, optional_slice, truncate_u32,
    H256,
};
use crate::chain::Block;
use crate::collect::{CollectByBlock, CollectByTransaction};
use crate::errors::{outcome, CollectError, Datatype};
use crate::request::ChunkDim;
use crate::schema::{Schemas, Table};
use crate::store::{
    column_fits, store, store_bytes, store_optional_bytes, store_optional_u256, stored,
};
use crate::u256::{low_u64, optional_u256_seqs, optional_u256_view, U256};
use vstd::prelude::*;

verus! {

/// The column accumulator of blocks.
#[derive(Debug)]
pub struct BlockColumns {
    pub n_rows: u64,
    pub hash: Vec<Vec<u8>>,
    pub parent_hash: Vec<Vec<u8>>,
    pub author: Vec<Vec<u8>>,
    pub state_root: Vec<Vec<u8>>,
    pub transactions_root: Vec<Vec<u8>>,
    pub receipts_root: Vec<Vec<u8>>,
    pub block_number: Vec<Option<u32>>,
    pub gas_used: Vec<u32>,
    pub extra_data: Vec<Vec<u8>>,
    pub logs_bloom: Vec<Option<Vec<u8>>>,
    pub timestamp: Vec<u32>,
    pub total_difficulty: Vec<Option<U256>>,
    pub size: Vec<Option<u32>>,
    pub base_fee_per_gas: Vec<Option<u64>>,
}

/// One block.
pub struct BlockRow {
    pub hash: Seq<u8>,
    pub parent_hash: Seq<u8>,
    pub author: Seq<u8>,
    pub state_root: Seq<u8>,
    pub transactions_root: Seq<u8>,
    pub receipts_root: Seq<u8>,
    pub block_number: Option<u32>,
    pub gas_used: u32,
    pub extra_data: Seq<u8>,
    pub logs_bloom: Option<Seq<u8>>,
    pub timestamp: u32,
    pub total_difficulty: Option<Seq<u8>>,
    pub size: Option<u32>,
    pub base_fee_per_gas: Option<u64>,
}

/// What a block accumulator holds. A 256-bit number stands as its 32 bytes,
/// most significant first.
pub struct BlockColumnsView {
    pub n_rows: nat,
    pub hash: Seq<Seq<u8>>,
    pub parent_hash: Seq<Seq<u8>>,
    pub author: Seq<Seq<u8>>,
    pub state_root: Seq<Seq<u8>>,
    pub transactions_root: Seq<Seq<u8>>,
    pub receipts_root: Seq<Seq<u8>>,
    pub block_number: Seq<Option<u32>>,
    pub gas_used: Seq<u32>,
    pub extra_data: Seq<Seq<u8>>,
    pub logs_bloom: Seq<Option<Seq<u8>>>,
    pub timestamp: Seq<u32>,
    pub total_difficulty: Seq<Option<Seq<u8>>>,
    pub size: Seq<Option<u32>>,
    pub base_fee_per_gas: Seq<Option<u64>>,
}

impl View for BlockColumns {
    type V = BlockColumnsView;

    open spec fn view(&self) -> BlockColumnsView {
        BlockColumnsView {
            n_rows: self.n_rows as nat,
            hash: byte_seqs(self.hash@),
            parent_hash: byte_seqs(self.parent_hash@),
            author: byte_seqs(self.author@),
            state_root: byte_seqs(self.state_root@),
            transactions_root: byte_seqs(self.transactions_root@),
            receipts_root: byte_seqs(self.receipts_root@),
            block_number: self.block_number@,
            gas_used: self.gas_used@,
            extra_data: byte_seqs(self.extra_data@),
            logs_bloom: optional_byte_seqs(self.logs_bloom@),
            timestamp: self.timestamp@,
            total_difficulty: optional_u256_seqs(self.total_difficulty@),
            size: self.size@,
            base_fee_per_gas: self.base_fee_per_gas@,
        }
    }
}

impl BlockColumnsView {
    /// The accumulator after one more row, stored under the guard of the schema.
    pub open spec fn push_row(self, schema: Table, row: BlockRow) -> Self {
        BlockColumnsView {
            n_rows: self.n_rows + 1,
            hash: stored(schema.has_column("hash"), self.hash, row.hash),
            parent_hash: stored(
                schema.has_column("parent_hash"),
                self.parent_hash,
                row.parent_hash,
            ),
            author: stored(schema.has_column("author"), self.author, row.author),
            state_root: stored(schema.has_column("state_root"), self.state_root, row.state_root),
            transactions_root: stored(
                schema.has_column("transactions_root"),
                self.transactions_root,
                row.transactions_root,
            ),
            receipts_root: stored(
                schema.has_column("receipts_root"),
                self.receipts_root,
                row.receipts_root,
            ),
            block_number: stored(
                schema.has_column("block_number"),
                self.block_number,
                row.block_number,
            ),
            gas_used: stored(schema.has_column("gas_used"), self.gas_used, row.gas_used),
            extra_data: stored(schema.has_column("extra_data"), self.extra_data, row.extra_data),
            logs_bloom: stored(schema.has_column("logs_bloom"), self.logs_bloom, row.logs_bloom),
            timestamp: stored(schema.has_column("timestamp"), self.timestamp, row.timestamp),
            total_difficulty: stored(
                schema.has_column("total_difficulty"),
                self.total_difficulty,
                row.total_difficulty,
            ),
            size: stored(schema.has_column("size"), self.size, row.size),
            base_fee_per_gas: stored(
                schema.has_column("base_fee_per_gas"),
                self.base_fee_per_gas,
                row.base_fee_per_gas,
            ),
        }
    }

    /// Whether the accumulator holds nothing: no rows, and no entry in any
    /// column.
    pub open spec fn is_empty(self) -> bool {
        &&& self.n_rows == 0
        &&& self.hash.len() == 0
        &&& self.parent_hash.len() == 0
        &&& self.author.len() == 0
        &&& self.state_root.len() == 0
        &&& self.transactions_root.len() == 0
        &&& self.receipts_root.len() == 0
        &&& self.block_number.len() == 0
        &&& self.gas_used.len() == 0
        &&& self.extra_data.len() == 0
        &&& self.logs_bloom.len() == 0
        &&& self.timestamp.len() == 0
        &&& self.total_difficulty.len() == 0
        &&& self.size.len() == 0
        &&& self.base_fee_per_gas.len() == 0
    }

    /// The row-count invariant: every active column has one entry per row,
    /// and every inactive column is empty.
    pub open spec fn wf(self, schema: Table) -> bool {
        &&& column_fits(schema.has_column("hash"), self.hash.len(), self.n_rows)
        &&& column_fits(schema.has_column("parent_hash"), self.parent_hash.len(), self.n_rows)
        &&& column_fits(schema.has_column("author"), self.author.len(), self.n_rows)
        &&& column_fits(schema.has_column("state_root"), self.state_root.len(), self.n_rows)
        &&& column_fits(
            schema.has_column("transactions_root"),
            self.transactions_root.len(),
            self.n_rows,
        )
        &&& column_fits(schema.has_column("receipts_root"), self.receipts_root.len(), self.n_rows)
        &&& column_fits(schema.has_column("block_number"), self.block_number.len(), self.n_rows)
        &&& column_fits(schema.has_column("gas_used"), self.gas_used.len(), self.n_rows)
        &&& column_fits(schema.has_column("extra_data"), self.extra_data.len(), self.n_rows)
        &&& column_fits(schema.has_column("logs_bloom"), self.logs_bloom.len(), self.n_rows)
        &&& column_fits(schema.has_column("timestamp"), self.timestamp.len(), self.n_rows)
        &&& column_fits(
            schema.has_column("total_difficulty"),
            self.total_difficulty.len(),
            self.n_rows,
        )
        &&& column_fits(schema.has_column("size"), self.size.len(), self.n_rows)
        &&& column_fits(
            schema.has_column("base_fee_per_gas"),
            self.base_fee_per_gas.len(),
            self.n_rows,
        )
    }

    /// One more row keeps the row-count invariant.
    pub proof fn lemma_push_row(self, schema: Table, row: BlockRow)
        ensures
            self.wf(schema) ==> self.push_row(schema, row).wf(schema),
    {
    }
}

impl BlockColumns {
    /// An accumulator without rows.
    pub fn new() -> (r: BlockColumns)
        ensures
            r@.is_empty(),
            forall|schema: Table| #[trigger] r@.wf(schema),
    {
        BlockColumns {
            n_rows: 0,
            hash: Vec::new(),
            parent_hash: Vec::new(),
            author: Vec::new(),
            state_root: Vec::new(),
            transactions_root: Vec::new(),
            receipts_root: Vec::new(),
            block_number: Vec::new(),
            gas_used: Vec::new(),
            extra_data: Vec::new(),
            logs_bloom: Vec::new(),
            timestamp: Vec::new(),
            total_difficulty: Vec::new(),
            size: Vec::new(),
            base_fee_per_gas: Vec::new(),
        }
    }
}

impl Default for BlockColumns {
    fn default() -> (r: BlockColumns)
        ensures
            r@.is_empty(),
            forall|schema: Table| #[trigger] r@.wf(schema),
    {
        BlockColumns::new()
    }
}

/// Whether a number of a block does not fit the integer type of its column,
/// where the schema activates that column.
pub open spec fn block_overflows<TX>(block: Block<TX>, schema: Table) -> bool {
    ||| schema.has_column("block_number") && block.number is Some && block.number.unwrap()
        > u32::MAX
    ||| schema.has_column("gas_used") && block.gas_used.value() > u32::MAX
    ||| schema.has_column("timestamp") && block.timestamp.value() > u32::MAX
    ||| schema.has_column("base_fee_per_gas") && block.base_fee_per_gas is Some
        && block.base_fee_per_gas.unwrap().value() > u64::MAX
    ||| schema.has_column("size") && block.size is Some && block.size.unwrap().value() > u32::MAX
}

/// Whether a block is complete: it has its hash and its author. A block
/// without them is still pending, and gives no row whatever the schema
/// activates.
pub open spec fn block_is_complete<TX>(block: Block<TX>) -> bool {
    block.hash is Some && block.author is Some
}

/// The required field that a block lacks, if it lacks one: the hash comes
/// before the author.
pub open spec fn missing_field<TX>(block: Block<TX>) -> Option<CollectError> {
    if block.hash is None {
        Some(CollectError::MissingBlockHash)
    } else if block.author is None {
        Some(CollectError::MissingAuthor)
    } else {
        None
    }
}

/// Says which required field a block lacks, if it lacks one. A caller asks
/// this before it hands the block on: a block that is not complete is not
/// taken.
pub fn block_missing_field<TX>(block: &Block<TX>) -> (r: Option<CollectError>)
    ensures
        r == missing_field(*block),
        r is None <==> block_is_complete(*block),
{
    if block.hash.is_none() {
        Some(CollectError::MissingBlockHash)
    } else if block.author.is_none() {
        Some(CollectError::MissingAuthor)
    } else {
        None
    }
}

/// What is wrong with a complete block as a row: a number that does not fit
/// its active column.
pub open spec fn block_defect<TX>(block: Block<TX>, schema: Table) -> Option<CollectError> {
    if block_overflows(block, schema) {
        Some(CollectError::IntegerOverflow)
    } else {
        None
    }
}

/// The row of a block that has its hash and its author.
pub open spec fn block_row<TX>(block: Block<TX>) -> BlockRow {
    BlockRow {
        hash: block.hash.unwrap()@,
        parent_hash: block.parent_hash@,
        author: block.author.unwrap()@,
        state_root: block.state_root@,
        transactions_root: block.transactions_root@,
        receipts_root: block.receipts_root@,
        block_number: match block.number {
            Some(number) => Some(low_u32(number as int)),
            None => None,
        },
        gas_used: low_u32(block.gas_used.value() as int),
        extra_data: block.extra_data@,
        logs_bloom: optional_array_view(block.logs_bloom),
        timestamp: low_u32(block.timestamp.value() as int),
        total_difficulty: optional_u256_view(block.total_difficulty),
        size: match block.size {
            Some(size) => Some(low_u32(size.value() as int)),
            None => None,
        },
        base_fee_per_gas: match block.base_fee_per_gas {
            Some(fee) => Some(low_u64(fee.value() as int)),
            None => None,
        },
    }
}

fn find_block_defect<TX>(block: &Block<TX>, schema: &Table) -> (r: Option<CollectError>)
    ensures
        r == block_defect(*block, *schema),
{
    let number_overflows = match block.number {
        Some(number) => schema.has_column("block_number") && number > 0xffff_ffff,
        None => false,
    };
    let gas_used_overflows = schema.has_column("gas_used") && block.gas_used.as_u32().is_none();
    let timestamp_overflows = schema.has_column("timestamp") && block.timestamp.as_u32().is_none();
    let fee_overflows = match block.base_fee_per_gas {
        Some(fee) => schema.has_column("base_fee_per_gas") && fee.as_u64().is_none(),
        None => false,
    };
    let size_overflows = match block.size {
        Some(size) => schema.has_column("size") && size.as_u32().is_none(),
        None => false,
    };
    if number_overflows || gas_used_overflows || timestamp_overflows || fee_overflows
        || size_overflows {
        Some(CollectError::IntegerOverflow)
    } else {
        None
    }
}

/// Appends the row of a complete block, or fails, leaving the accumulator as
/// it was, if one of its numbers does not fit its active column.
pub fn process_block<TX>(block: Block<TX>, columns: &mut BlockColumns, schema: &Table) -> (r:
    Result<(), CollectError>)
    requires
        old(columns).n_rows < u64::MAX,
        block_is_complete(block),
    ensures
        r == outcome(block_defect(block, *schema)),
        r is Ok ==> final(columns)@ == old(columns)@.push_row(*schema, block_row(block)),
        r matches Err(error) ==> error.is_fatal() && *final(columns) == *old(columns),
        old(columns)@.wf(*schema) ==> final(columns)@.wf(*schema),
{
    if let Some(error) = find_block_defect(&block, schema) {
        return Err(error);
    }
    proof {
        old(columns)@.lemma_push_row(*schema, block_row(block));
    }
    store_block(&block, columns, schema);
    Ok(())
}

fn store_block<TX>(block: &Block<TX>, columns: &mut BlockColumns, schema: &Table)
    requires
        old(columns).n_rows < u64::MAX,
        block.hash is Some,
        block.author is Some,
    ensures
        final(columns)@ == old(columns)@.push_row(*schema, block_row(*block)),
{
    columns.n_rows = columns.n_rows + 1;
    store_bytes(
        schema.has_column("hash"),
        &mut columns.hash,
        block.hash.unwrap().as_slice(),
    );
    store_bytes(
        schema.has_column("parent_hash"),
        &mut columns.parent_hash,
        block.parent_hash.as_slice(),
    );
    store_bytes(
        schema.has_column("author"),
        &mut columns.author,
        block.author.unwrap().as_slice(),
    );
    store_bytes(
        schema.has_column("state_root"),
        &mut columns.state_root,
        block.state_root.as_slice(),
    );
    store_bytes(
        schema.has_column("transactions_root"),
        &mut columns.transactions_root,
        block.transactions_root.as_slice(),
    );
    store_bytes(
        schema.has_column("receipts_root"),
        &mut columns.receipts_root,
        block.receipts_root.as_slice(),
    );
    let number: Option<u32> = match block.number {
        Some(number) => Some(truncate_u32(number)),
        None => None,
    };
    store(schema.has_column("block_number"), &mut columns.block_number, number);
    store(schema.has_column("gas_used"), &mut columns.gas_used, block.gas_used.low_u32());
    store_bytes(
        schema.has_column("extra_data"),
        &mut columns.extra_data,
        block.extra_data.as_slice(),
    );
    store_optional_bytes(
        schema.has_column("logs_bloom"),
        &mut columns.logs_bloom,
        optional_slice(&block.logs_bloom),
    );
    store(schema.has_column("timestamp"), &mut columns.timestamp, block.timestamp.low_u32());
    store_optional_u256(
        schema.has_column("total_difficulty"),
        &mut columns.total_difficulty,
        block.total_difficulty,
    );
    let fee: Option<u64> = match block.base_fee_per_gas {
        Some(fee) => Some(fee.low_u64()),
        None => None,
    };
    store(schema.has_column("base_fee_per_gas"), &mut columns.base_fee_per_gas, fee);
    let size: Option<u32> = match block.size {
        Some(size) => Some(size.low_u32()),
        None => None,
    };
    store(schema.has_column("size"), &mut columns.size, size);
}

/// The data kind of blocks.
pub struct Blocks;

/// Appends the row of a complete block under the guard of the table that the
/// registry holds for blocks.
pub fn transform_block<TX>(
    response: Block<TX>,
    columns: &mut BlockColumns,
    schemas: &Schemas,
) -> (r: Result<(), CollectError>)
    requires
        schemas@.contains_key(Datatype::Blocks),
        old(columns).n_rows < u64::MAX,
        block_is_complete(response),
    ensures
        r == outcome(block_defect(response, schemas@[Datatype::Blocks])),
        r matches Err(error) ==> error.is_fatal() && *final(columns) == *old(columns),
        r is Ok ==> final(columns)@ == old(columns)@.push_row(
            schemas@[Datatype::Blocks],
            block_row(response),
        ),
        old(columns)@.wf(schemas@[Datatype::Blocks]) ==> final(columns)@.wf(
            schemas@[Datatype::Blocks],
        ),
{
    process_block(response, columns, schemas.get(Datatype::Blocks).unwrap())
}

impl CollectByBlock for Blocks {
    type Response = Block<H256>;

    type Columns = BlockColumns;

    open spec fn datatype() -> Datatype {
        Datatype::Blocks
    }

    open spec fn admits(response: Block<H256>, columns: BlockColumns) -> bool {
        columns.n_rows < u64::MAX && block_is_complete(response)
    }

    open spec fn defect(response: Block<H256>, schema: Table) -> Option<CollectError> {
        block_defect(response, schema)
    }

    open spec fn appended(
        before: BlockColumns,
        after: BlockColumns,
        response: Block<H256>,
        schema: Table,
    ) -> bool {
        after@ == before@.push_row(schema, block_row(response))
    }

    open spec fn columns_wf(columns: BlockColumns, schema: Table) -> bool {
        columns@.wf(schema)
    }

    fn kind() -> (r: Datatype) {
        Datatype::Blocks
    }

    fn fits(response: &Block<H256>, columns: &BlockColumns) -> (r: bool) {
        columns.n_rows < u64::MAX && block_missing_field(response).is_none()
    }

    fn block_parameters() -> (r: Vec<ChunkDim>)
        ensures
            r@ == seq![ChunkDim::BlockNumber],
    {
        vec![ChunkDim::BlockNumber]
    }

    fn transform(
        response: Block<H256>,
        columns: &mut BlockColumns,
        schemas: &Schemas,
    ) -> (r: Result<(), CollectError>) {
        transform_block(response, columns, schemas)
    }
}

impl CollectByTransaction for Blocks {
    type Response = Block<H256>;

    type Columns = BlockColumns;

    open spec fn datatype() -> Datatype {
        Datatype::Blocks
    }

    open spec fn admits(response: Block<H256>, columns: BlockColumns) -> bool {
        columns.n_rows < u64::MAX && block_is_complete(response)
    }

    open spec fn defect(response: Block<H256>, schema: Table) -> Option<CollectError> {
        block_defect(response, schema)
    }

    open spec fn appended(
        before: BlockColumns,
        after: BlockColumns,
        response: Block<H256>,
        schema: Table,
    ) -> bool {
        after@ == before@.push_row(schema, block_row(response))
    }

    open spec fn columns_wf(columns: BlockColumns, schema: Table) -> bool {
        columns@.wf(schema)
    }

    fn kind() -> (r: Datatype) {
        Datatype::Blocks
    }

    fn fits(response: &Block<H256>, columns: &BlockColumns) -> (r: bool) {
        columns.n_rows < u64::MAX && block_missing_field(response).is_none()
    }

    fn transaction_parameters() -> (r: Vec<ChunkDim>)
        ensures
            r@ == seq![ChunkDim::TransactionHash],
    {
        vec![ChunkDim::TransactionHash]
    }

    fn transform(
        response: Block<H256>,
        columns: &mut BlockColumns,
        schemas: &Schemas,
    ) -> (r: Result<(), CollectError>) {
        transform_block(response, columns, schemas)
    }
}

} // verus!
