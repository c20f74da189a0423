//! Code diffs: one row for every account whose code a traced execution
//! touched.

use crate::bytes::{
    byte_seqs, optional_byte_seqs, optional_bytes_view, optional_vec_slice, to_vec, zero_hash,
    zeros, H160,
};
use crate::chain::{BlockTrace, Diff};
use crate::collect::{CollectByBlock, CollectByTransaction};
use crate::errors::{CollectError, Datatype};
use crate::request::ChunkDim;
use crate::schema::{Schemas, Table};
use crate::store::{
    column_fits, store, store_bytes, store_optional_bytes, store_owned_bytes, stored,
};
use vstd::prelude::*;

verus! {

/// The column accumulator of code diffs.
#[derive(Debug)]
pub struct CodeDiffColumns {
    pub n_rows: u64,
    pub block_number: Vec<Option<u32>>,
    pub transaction_index: Vec<Option<u64>>,
    pub transaction_hash: Vec<Option<Vec<u8>>>,
    pub address: Vec<Vec<u8>>,
    pub from_value: Vec<Vec<u8>>,
    pub to_value: Vec<Vec<u8>>,
}

/// One code diff.
pub struct CodeDiffRow {
    pub block_number: Option<u32>,
    pub transaction_index: Option<u64>,
    pub transaction_hash: Option<Seq<u8>>,
    pub address: Seq<u8>,
    pub from_value: Seq<u8>,
    pub to_value: Seq<u8>,
}

/// What a code-diff accumulator holds.
pub struct CodeDiffColumnsView {
    pub n_rows: nat,
    pub block_number: Seq<Option<u32>>,
    pub transaction_index: Seq<Option<u64>>,
    pub transaction_hash: Seq<Option<Seq<u8>>>,
    pub address: Seq<Seq<u8>>,
    pub from_value: Seq<Seq<u8>>,
    pub to_value: Seq<Seq<u8>>,
}

impl View for CodeDiffColumns {
    type V = CodeDiffColumnsView;

    open spec fn view(&self) -> CodeDiffColumnsView {
        CodeDiffColumnsView {
            n_rows: self.n_rows as nat,
            block_number: self.block_number@,
            transaction_index: self.transaction_index@,
            transaction_hash: optional_byte_seqs(self.transaction_hash@),
            address: byte_seqs(self.address@),
            from_value: byte_seqs(self.from_value@),
            to_value: byte_seqs(self.to_value@),
        }
    }
}

impl CodeDiffColumnsView {
    /// The accumulator after one more row, stored under the guard of the schema.
    pub open spec fn push_row(self, schema: Table, row: CodeDiffRow) -> Self {
        CodeDiffColumnsView {
            n_rows: self.n_rows + 1,
            block_number: stored(
                schema.has_column("block_number"),
                self.block_number,
                row.block_number,
            ),
            transaction_index: stored(
                schema.has_column("transaction_index"),
                self.transaction_index,
                row.transaction_index,
            ),
            transaction_hash: stored(
                schema.has_column("transaction_hash"),
                self.transaction_hash,
                row.transaction_hash,
            ),
            address: stored(schema.has_column("address"), self.address, row.address),
            from_value: stored(schema.has_column("from_value"), self.from_value, row.from_value),
            to_value: stored(schema.has_column("to_value"), self.to_value, row.to_value),
        }
    }

    /// The accumulator after the given rows, in order.
    pub open spec fn append(self, schema: Table, rows: Seq<CodeDiffRow>) -> Self
        decreases rows.len(),
    {
        if rows.len() == 0 {
            self
        } else {
            self.append(schema, rows.drop_last()).push_row(schema, rows.last())
        }
    }

    /// Whether the accumulator holds nothing: no rows, and no entry in any
    /// column.
    pub open spec fn is_empty(self) -> bool {
        &&& self.n_rows == 0
        &&& self.block_number.len() == 0
        &&& self.transaction_index.len() == 0
        &&& self.transaction_hash.len() == 0
        &&& self.address.len() == 0
        &&& self.from_value.len() == 0
        &&& self.to_value.len() == 0
    }

    /// The row-count invariant: every active column has one entry per row,
    /// and every inactive column is empty.
    pub open spec fn wf(self, schema: Table) -> bool {
        &&& column_fits(schema.has_column("block_number"), self.block_number.len(), self.n_rows)
        &&& column_fits(
            schema.has_column("transaction_index"),
            self.transaction_index.len(),
            self.n_rows,
        )
        &&& column_fits(
            schema.has_column("transaction_hash"),
            self.transaction_hash.len(),
            self.n_rows,
        )
        &&& column_fits(schema.has_column("address"), self.address.len(), self.n_rows)
        &&& column_fits(schema.has_column("from_value"), self.from_value.len(), self.n_rows)
        &&& column_fits(schema.has_column("to_value"), self.to_value.len(), self.n_rows)
    }

    /// Appending one more row.
    pub proof fn lemma_append_push(self, schema: Table, rows: Seq<CodeDiffRow>, row: CodeDiffRow)
        ensures
            self.append(schema, rows.push(row)) == self.append(schema, rows).push_row(schema, row),
    {
        assert(rows.push(row).drop_last() =~= rows);
    }

    /// Appending rows keeps the row-count invariant, adds one to the row
    /// counter for each row, and leaves every inactive column as it was.
    pub proof fn lemma_append(self, schema: Table, rows: Seq<CodeDiffRow>)
        ensures
            self.append(schema, rows).n_rows == self.n_rows + rows.len(),
            self.wf(schema) ==> self.append(schema, rows).wf(schema),
            !schema.has_column("block_number") ==> self.append(schema, rows).block_number
                == self.block_number,
            !schema.has_column("transaction_index") ==> self.append(schema, rows).transaction_index
                == self.transaction_index,
            !schema.has_column("transaction_hash") ==> self.append(schema, rows).transaction_hash
                == self.transaction_hash,
            !schema.has_column("address") ==> self.append(schema, rows).address == self.address,
            !schema.has_column("from_value") ==> self.append(schema, rows).from_value
                == self.from_value,
            !schema.has_column("to_value") ==> self.append(schema, rows).to_value == self.to_value,
        decreases rows.len(),
    {
        if rows.len() > 0 {
            self.lemma_append(schema, rows.drop_last());
        }
    }
}

impl CodeDiffColumns {
    /// An accumulator without rows.
    pub fn new() -> (r: CodeDiffColumns)
        ensures
            r@.is_empty(),
            forall|schema: Table| #[trigger] r@.wf(schema),
    {
        CodeDiffColumns {
            n_rows: 0,
            block_number: Vec::new(),
            transaction_index: Vec::new(),
            transaction_hash: Vec::new(),
            address: Vec::new(),
            from_value: Vec::new(),
            to_value: Vec::new(),
        }
    }
}

impl Default for CodeDiffColumns {
    fn default() -> (r: CodeDiffColumns)
        ensures
            r@.is_empty(),
            forall|schema: Table| #[trigger] r@.wf(schema),
    {
        CodeDiffColumns::new()
    }
}

/// The code before and after a diff. Where there is no code on one side, the
/// zero hash stands in its place: on both sides for code that stayed as it
/// was, before for code that was born, after for code that died.
pub open spec fn code_diff_pair(diff: Diff) -> (Seq<u8>, Seq<u8>) {
    match diff {
        Diff::Same => (zeros(32), zeros(32)),
        Diff::Born(code) => (zeros(32), code@),
        Diff::Died(code) => (code@, zeros(32)),
        Diff::Changed { from, to } => (from@, to@),
    }
}

/// The code before and after a diff.
pub fn code_diff_values(diff: &Diff) -> (r: (Vec<u8>, Vec<u8>))
    ensures
        (r.0@, r.1@) == code_diff_pair(*diff),
{
    let zero = zero_hash();
    match diff {
        Diff::Same => (to_vec(zero.as_slice()), to_vec(zero.as_slice())),
        Diff::Born(code) => (to_vec(zero.as_slice()), to_vec(code.as_slice())),
        Diff::Died(code) => (to_vec(code.as_slice()), to_vec(zero.as_slice())),
        Diff::Changed { from, to } => (to_vec(from.as_slice()), to_vec(to.as_slice())),
    }
}

/// The row of the code diff of one account. The transaction index is the
/// place of the trace in its list.
pub open spec fn code_diff_row(
    address: H160,
    diff: Diff,
    block_number: Option<u32>,
    transaction_hash: Option<Vec<u8>>,
    transaction_index: int,
) -> CodeDiffRow {
    CodeDiffRow {
        block_number,
        transaction_index: Some(transaction_index as u64),
        transaction_hash: optional_bytes_view(transaction_hash),
        address: address@,
        from_value: code_diff_pair(diff).0,
        to_value: code_diff_pair(diff).1,
    }
}

/// The rows of the trace at place `index` of its list: one for each account
/// of its state diff, in order; none where the trace has no state diff.
pub open spec fn trace_code_diff_rows(
    trace: BlockTrace,
    block_number: Option<u32>,
    transaction_hash: Option<Vec<u8>>,
    index: int,
) -> Seq<CodeDiffRow> {
    match trace.state_diff {
        Some(state_diff) => Seq::new(
            state_diff.accounts@.len(),
            |k: int|
                code_diff_row(
                    state_diff.accounts@[k].address,
                    state_diff.accounts@[k].code,
                    block_number,
                    transaction_hash,
                    index,
                ),
        ),
        None => Seq::empty(),
    }
}

/// The rows of a list of traces: those of each trace, in order.
pub open spec fn code_diff_rows(
    block_number: Option<u32>,
    transaction_hash: Option<Vec<u8>>,
    traces: Seq<BlockTrace>,
) -> Seq<CodeDiffRow>
    decreases traces.len(),
{
    if traces.len() == 0 {
        Seq::empty()
    } else {
        code_diff_rows(block_number, transaction_hash, traces.drop_last()) + trace_code_diff_rows(
            traces.last(),
            block_number,
            transaction_hash,
            traces.len() - 1,
        )
    }
}

/// The rows of the first traces of a list are no more than the rows of the
/// whole list.
pub proof fn lemma_code_diff_rows_grow(
    block_number: Option<u32>,
    transaction_hash: Option<Vec<u8>>,
    traces: Seq<BlockTrace>,
    n: int,
)
    requires
        0 <= n <= traces.len(),
    ensures
        code_diff_rows(block_number, transaction_hash, traces.take(n)).len() <= code_diff_rows(
            block_number,
            transaction_hash,
            traces,
        ).len(),
    decreases traces.len(),
{
    if n < traces.len() {
        assert(traces.drop_last().take(n) =~= traces.take(n));
        lemma_code_diff_rows_grow(block_number, transaction_hash, traces.drop_last(), n);
    } else {
        assert(traces.take(n) =~= traces);
    }
}

/// Appends the row of the code diff of one account.
pub fn process_code_diff(
    addr: &H160,
    diff: &Diff,
    block_number: &Option<u32>,
    transaction_hash: &Option<Vec<u8>>,
    transaction_index: usize,
    columns: &mut CodeDiffColumns,
    schema: &Table,
)
    requires
        old(columns).n_rows < u64::MAX,
    ensures
        final(columns)@ == old(columns)@.push_row(
            *schema,
            code_diff_row(*addr, *diff, *block_number, *transaction_hash, transaction_index as int),
        ),
{
    columns.n_rows = columns.n_rows + 1;
    let (from, to) = code_diff_values(diff);
    store(schema.has_column("block_number"), &mut columns.block_number, *block_number);
    store(
        schema.has_column("transaction_index"),
        &mut columns.transaction_index,
        Some(transaction_index as u64),
    );
    store_optional_bytes(
        schema.has_column("transaction_hash"),
        &mut columns.transaction_hash,
        optional_vec_slice(transaction_hash),
    );
    store_bytes(schema.has_column("address"), &mut columns.address, addr.as_slice());
    store_owned_bytes(schema.has_column("from_value"), &mut columns.from_value, from);
    store_owned_bytes(schema.has_column("to_value"), &mut columns.to_value, to);
}

/// Appends one row for every account in the state diff of every trace of a
/// response: the block number, the transaction hash and the traces.
pub fn process_code_diffs(
    response: &(Option<u32>, Option<Vec<u8>>, Vec<BlockTrace>),
    columns: &mut CodeDiffColumns,
    schema: &Table,
)
    requires
        old(columns).n_rows + code_diff_rows(response.0, response.1, response.2@).len()
            <= u64::MAX,
    ensures
        final(columns)@ == old(columns)@.append(
            *schema,
            code_diff_rows(response.0, response.1, response.2@),
        ),
        old(columns)@.wf(*schema) ==> final(columns)@.wf(*schema),
{
    let block_number = &response.0;
    let tx = &response.1;
    let traces = &response.2;
    let ghost total = code_diff_rows(*block_number, *tx, traces@);
    let mut index: usize = 0;
    while index < traces.len()
        invariant
            index <= traces@.len(),
            block_number == &response.0,
            tx == &response.1,
            traces == &response.2,
            total == code_diff_rows(*block_number, *tx, traces@),
            old(columns).n_rows + total.len() <= u64::MAX,
            columns.n_rows == old(columns).n_rows + code_diff_rows(
                *block_number,
                *tx,
                traces@.take(index as int),
            ).len(),
            columns@ == old(columns)@.append(
                *schema,
                code_diff_rows(*block_number, *tx, traces@.take(index as int)),
            ),
        decreases traces@.len() - index,
    {
        let trace = &traces[index];
        let ghost done = code_diff_rows(*block_number, *tx, traces@.take(index as int));
        let ghost rows = trace_code_diff_rows(*trace, *block_number, *tx, index as int);
        proof {
            assert(traces@.take(index + 1).drop_last() =~= traces@.take(index as int));
            lemma_code_diff_rows_grow(*block_number, *tx, traces@, index + 1);
        }
        if let Some(state_diff) = &trace.state_diff {
            let mut k: usize = 0;
            while k < state_diff.accounts.len()
                invariant
                    k <= state_diff.accounts@.len() == rows.len(),
                    trace.state_diff == Some(*state_diff),
                    rows == trace_code_diff_rows(*trace, *block_number, *tx, index as int),
                    old(columns).n_rows + done.len() + rows.len() <= u64::MAX,
                    columns.n_rows == old(columns).n_rows + done.len() + k,
                    columns@ == old(columns)@.append(*schema, done + rows.take(k as int)),
                decreases state_diff.accounts@.len() - k,
            {
                let account = &state_diff.accounts[k];
                proof {
                    assert(done + rows.take(k + 1) =~= (done + rows.take(k as int)).push(
                        rows[k as int],
                    ));
                    old(columns)@.lemma_append_push(
                        *schema,
                        done + rows.take(k as int),
                        rows[k as int],
                    );
                }
                process_code_diff(
                    &account.address,
                    &account.code,
                    block_number,
                    tx,
                    index,
                    columns,
                    schema,
                );
                k = k + 1;
            }
            assert(rows.take(k as int) =~= rows);
        }
        index = index + 1;
    }
    proof {
        assert(traces@.take(index as int) =~= traces@);
        old(columns)@.lemma_append(*schema, total);
    }
}

/// The answer to the request for the state diffs of a block or transaction:
/// the block number, the transaction hash, and the traces.
pub type CodeDiffResponse = (Option<u32>, Option<Vec<u8>>, Vec<BlockTrace>);

/// The data kind of code diffs.
pub struct CodeDiffs;

/// Whether the row counter of the accumulator has room for the rows of a
/// response.
pub fn code_diffs_fit(response: &CodeDiffResponse, columns: &CodeDiffColumns) -> (r: bool)
    ensures
        r == (columns.n_rows + code_diff_rows(response.0, response.1, response.2@).len()
            <= u64::MAX),
{
    let traces = &response.2;
    let ghost total = code_diff_rows(response.0, response.1, traces@);
    let mut room: u64 = u64::MAX - columns.n_rows;
    let mut index: usize = 0;
    while index < traces.len()
        invariant
            index <= traces@.len(),
            traces == &response.2,
            total == code_diff_rows(response.0, response.1, traces@),
            room + code_diff_rows(response.0, response.1, traces@.take(index as int)).len()
                == u64::MAX - columns.n_rows,
        decreases traces@.len() - index,
    {
        let trace = &traces[index];
        proof {
            assert(traces@.take(index + 1).drop_last() =~= traces@.take(index as int));
            lemma_code_diff_rows_grow(response.0, response.1, traces@, index + 1);
        }
        if let Some(state_diff) = &trace.state_diff {
            let rows: usize = state_diff.accounts.len();
            if rows as u64 > room {
                return false;
            }
            room = room - rows as u64;
        }
        index = index + 1;
    }
    assert(traces@.take(index as int) =~= traces@);
    true
}

/// Appends the rows of a response under the guard of the table that the
/// registry holds for code diffs.
pub fn transform_code_diffs(
    response: CodeDiffResponse,
    columns: &mut CodeDiffColumns,
    schemas: &Schemas,
)
    requires
        schemas@.contains_key(Datatype::CodeDiffs),
        old(columns).n_rows + code_diff_rows(response.0, response.1, response.2@).len()
            <= u64::MAX,
    ensures
        final(columns)@ == old(columns)@.append(
            schemas@[Datatype::CodeDiffs],
            code_diff_rows(response.0, response.1, response.2@),
        ),
        old(columns)@.wf(schemas@[Datatype::CodeDiffs]) ==> final(columns)@.wf(
            schemas@[Datatype::CodeDiffs],
        ),
{
    process_code_diffs(&response, columns, schemas.get(Datatype::CodeDiffs).unwrap());
}

impl CollectByBlock for CodeDiffs {
    type Response = CodeDiffResponse;

    type Columns = CodeDiffColumns;

    open spec fn datatype() -> Datatype {
        Datatype::CodeDiffs
    }

    open spec fn admits(response: CodeDiffResponse, columns: CodeDiffColumns) -> bool {
        columns.n_rows + code_diff_rows(response.0, response.1, response.2@).len()
            <= u64::MAX
    }

    open spec fn defect(response: CodeDiffResponse, schema: Table) -> Option<CollectError> {
        None
    }

    open spec fn appended(
        before: CodeDiffColumns,
        after: CodeDiffColumns,
        response: CodeDiffResponse,
        schema: Table,
    ) -> bool {
        after@ == before@.append(
            schema,
            code_diff_rows(response.0, response.1, response.2@),
        )
    }

    open spec fn columns_wf(columns: CodeDiffColumns, schema: Table) -> bool {
        columns@.wf(schema)
    }

    fn kind() -> (r: Datatype) {
        Datatype::CodeDiffs
    }

    fn fits(response: &CodeDiffResponse, columns: &CodeDiffColumns) -> (r: bool) {
        code_diffs_fit(response, columns)
    }

    fn block_parameters() -> (r: Vec<ChunkDim>)
        ensures
            r@ == seq![ChunkDim::BlockNumber],
    {
        vec![ChunkDim::BlockNumber]
    }

    fn transform(
        response: CodeDiffResponse,
        columns: &mut CodeDiffColumns,
        schemas: &Schemas,
    ) -> (r: Result<(), CollectError>) {
        transform_code_diffs(response, columns, schemas);
        Ok(())
    }
}

impl CollectByTransaction for CodeDiffs {
    type Response = CodeDiffResponse;

    type Columns = CodeDiffColumns;

    open spec fn datatype() -> Datatype {
        Datatype::CodeDiffs
    }

    open spec fn admits(response: CodeDiffResponse, columns: CodeDiffColumns) -> bool {
        columns.n_rows + code_diff_rows(response.0, response.1, response.2@).len()
            <= u64::MAX
    }

    open spec fn defect(response: CodeDiffResponse, schema: Table) -> Option<CollectError> {
        None
    }

    open spec fn appended(
        before: CodeDiffColumns,
        after: CodeDiffColumns,
        response: CodeDiffResponse,
        schema: Table,
    ) -> bool {
        after@ == before@.append(
            schema,
            code_diff_rows(response.0, response.1, response.2@),
        )
    }

    open spec fn columns_wf(columns: CodeDiffColumns, schema: Table) -> bool {
        columns@.wf(schema)
    }

    fn kind() -> (r: Datatype) {
        Datatype::CodeDiffs
    }

    fn fits(response: &CodeDiffResponse, columns: &CodeDiffColumns) -> (r: bool) {
        code_diffs_fit(response, columns)
    }

    fn transaction_parameters() -> (r: Vec<ChunkDim>)
        ensures
            r@ == seq![ChunkDim::TransactionHash],
    {
        vec![ChunkDim::TransactionHash]
    }

    fn transform(
        response: CodeDiffResponse,
        columns: &mut CodeDiffColumns,
        schemas: &Schemas,
    ) -> (r: Result<(), CollectError>) {
        transform_code_diffs(response, columns, schemas);
        Ok(())
    }
}

} // verus!
