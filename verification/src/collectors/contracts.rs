//! Contract creations: one row for every creation that succeeded.

use crate::bytes::{
    byte_seqs, low_u32, optional_array_view, optional_byte_seqs, optional_slice, truncate_u32,
    zero_address, zeros, H160,
};
use crate::chain::{Action, Res, Trace};
use crate::collectors::traces::{filter_failed_traces, lemma_successful_traces, successful_traces};
use crate::hashing::{keccak256, keccak256_digest};
use crate::collect::{CollectByBlock, CollectByTransaction};
use crate::errors::{CollectError, Datatype};
use crate::request::ChunkDim;
use crate::schema::{Schemas, Table};
use crate::store::{
    column_fits, has_room_for, store, store_bytes, store_optional_bytes, store_owned_bytes,
    stored,
};
use vstd::prelude::*;

verus! {

/// The column accumulator of contract creations.
#[derive(Debug)]
pub struct TraceColumns {
    pub n_rows: u64,
    pub block_number: Vec<u32>,
    pub create_index: Vec<u32>,
    pub transaction_hash: Vec<Option<Vec<u8>>>,
    pub contract_address: Vec<Vec<u8>>,
    pub deployer: Vec<Vec<u8>>,
    pub factory: Vec<Vec<u8>>,
    pub init_code: Vec<Vec<u8>>,
    pub code: Vec<Vec<u8>>,
    pub init_code_hash: Vec<Vec<u8>>,
    pub code_hash: Vec<Vec<u8>>,
}

/// One contract creation.
pub struct ContractRow {
    pub block_number: u32,
    pub create_index: u32,
    pub transaction_hash: Option<Seq<u8>>,
    pub contract_address: Seq<u8>,
    pub deployer: Seq<u8>,
    pub factory: Seq<u8>,
    pub init_code: Seq<u8>,
    pub code: Seq<u8>,
    pub init_code_hash: Seq<u8>,
    pub code_hash: Seq<u8>,
}

/// What a contract-creation accumulator holds.
pub struct TraceColumnsView {
    pub n_rows: nat,
    pub block_number: Seq<u32>,
    pub create_index: Seq<u32>,
    pub transaction_hash: Seq<Option<Seq<u8>>>,
    pub contract_address: Seq<Seq<u8>>,
    pub deployer: Seq<Seq<u8>>,
    pub factory: Seq<Seq<u8>>,
    pub init_code: Seq<Seq<u8>>,
    pub code: Seq<Seq<u8>>,
    pub init_code_hash: Seq<Seq<u8>>,
    pub code_hash: Seq<Seq<u8>>,
}

impl View for TraceColumns {
    type V = TraceColumnsView;

    open spec fn view(&self) -> TraceColumnsView {
        TraceColumnsView {
            n_rows: self.n_rows as nat,
            block_number: self.block_number@,
            create_index: self.create_index@,
            transaction_hash: optional_byte_seqs(self.transaction_hash@),
            contract_address: byte_seqs(self.contract_address@),
            deployer: byte_seqs(self.deployer@),
            factory: byte_seqs(self.factory@),
            init_code: byte_seqs(self.init_code@),
            code: byte_seqs(self.code@),
            init_code_hash: byte_seqs(self.init_code_hash@),
            code_hash: byte_seqs(self.code_hash@),
        }
    }
}

impl TraceColumnsView {
    /// The accumulator after one more row, stored under the guard of the schema.
    pub open spec fn push_row(self, schema: Table, row: ContractRow) -> Self {
        TraceColumnsView {
            n_rows: self.n_rows + 1,
            block_number: stored(
                schema.has_column("block_number"),
                self.block_number,
                row.block_number,
            ),
            create_index: stored(
                schema.has_column("create_index"),
                self.create_index,
                row.create_index,
            ),
            transaction_hash: stored(
                schema.has_column("transaction_hash"),
                self.transaction_hash,
                row.transaction_hash,
            ),
            contract_address: stored(
                schema.has_column("contract_address"),
                self.contract_address,
                row.contract_address,
            ),
            deployer: stored(schema.has_column("deployer"), self.deployer, row.deployer),
            factory: stored(schema.has_column("factory"), self.factory, row.factory),
            init_code: stored(schema.has_column("init_code"), self.init_code, row.init_code),
            code: stored(schema.has_column("code"), self.code, row.code),
            init_code_hash: stored(
                schema.has_column("init_code_hash"),
                self.init_code_hash,
                row.init_code_hash,
            ),
            code_hash: stored(schema.has_column("code_hash"), self.code_hash, row.code_hash),
        }
    }

    /// The accumulator after the given rows, in order.
    pub open spec fn append(self, schema: Table, rows: Seq<ContractRow>) -> Self
        decreases rows.len(),
    {
        if rows.len() == 0 {
            self
        } else {
            self.append(schema, rows.drop_last()).push_row(schema, rows.last())
        }
    }

    /// Whether the accumulator holds nothing: no rows, and no entry in any
    /// column.
    pub open spec fn is_empty(self) -> bool {
        &&& self.n_rows == 0
        &&& self.block_number.len() == 0
        &&& self.create_index.len() == 0
        &&& self.transaction_hash.len() == 0
        &&& self.contract_address.len() == 0
        &&& self.deployer.len() == 0
        &&& self.factory.len() == 0
        &&& self.init_code.len() == 0
        &&& self.code.len() == 0
        &&& self.init_code_hash.len() == 0
        &&& self.code_hash.len() == 0
    }

    /// The row-count invariant: every active column has one entry per row,
    /// and every inactive column is empty.
    pub open spec fn wf(self, schema: Table) -> bool {
        &&& column_fits(schema.has_column("block_number"), self.block_number.len(), self.n_rows)
        &&& column_fits(schema.has_column("create_index"), self.create_index.len(), self.n_rows)
        &&& column_fits(
            schema.has_column("transaction_hash"),
            self.transaction_hash.len(),
            self.n_rows,
        )
        &&& column_fits(
            schema.has_column("contract_address"),
            self.contract_address.len(),
            self.n_rows,
        )
        &&& column_fits(schema.has_column("deployer"), self.deployer.len(), self.n_rows)
        &&& column_fits(schema.has_column("factory"), self.factory.len(), self.n_rows)
        &&& column_fits(schema.has_column("init_code"), self.init_code.len(), self.n_rows)
        &&& column_fits(schema.has_column("code"), self.code.len(), self.n_rows)
        &&& column_fits(
            schema.has_column("init_code_hash"),
            self.init_code_hash.len(),
            self.n_rows,
        )
        &&& column_fits(schema.has_column("code_hash"), self.code_hash.len(), self.n_rows)
    }

    /// Appending one more row.
    pub proof fn lemma_append_push(self, schema: Table, rows: Seq<ContractRow>, row: ContractRow)
        ensures
            self.append(schema, rows.push(row)) == self.append(schema, rows).push_row(schema, row),
    {
        assert(rows.push(row).drop_last() =~= rows);
    }

    /// Appending rows keeps the row-count invariant, adds one to the row
    /// counter for each row, and leaves every inactive column as it was.
    pub proof fn lemma_append(self, schema: Table, rows: Seq<ContractRow>)
        ensures
            self.append(schema, rows).n_rows == self.n_rows + rows.len(),
            self.wf(schema) ==> self.append(schema, rows).wf(schema),
            !schema.has_column("block_number") ==> self.append(schema, rows).block_number
                == self.block_number,
            !schema.has_column("create_index") ==> self.append(schema, rows).create_index
                == self.create_index,
            !schema.has_column("transaction_hash") ==> self.append(schema, rows).transaction_hash
                == self.transaction_hash,
            !schema.has_column("contract_address") ==> self.append(schema, rows).contract_address
                == self.contract_address,
            !schema.has_column("deployer") ==> self.append(schema, rows).deployer == self.deployer,
            !schema.has_column("factory") ==> self.append(schema, rows).factory == self.factory,
            !schema.has_column("init_code") ==> self.append(schema, rows).init_code
                == self.init_code,
            !schema.has_column("code") ==> self.append(schema, rows).code == self.code,
            !schema.has_column("init_code_hash") ==> self.append(schema, rows).init_code_hash
                == self.init_code_hash,
            !schema.has_column("code_hash") ==> self.append(schema, rows).code_hash
                == self.code_hash,
        decreases rows.len(),
    {
        if rows.len() > 0 {
            self.lemma_append(schema, rows.drop_last());
        }
    }
}

impl TraceColumns {
    /// An accumulator without rows.
    pub fn new() -> (r: TraceColumns)
        ensures
            r@.is_empty(),
            forall|schema: Table| #[trigger] r@.wf(schema),
    {
        TraceColumns {
            n_rows: 0,
            block_number: Vec::new(),
            create_index: Vec::new(),
            transaction_hash: Vec::new(),
            contract_address: Vec::new(),
            deployer: Vec::new(),
            factory: Vec::new(),
            init_code: Vec::new(),
            code: Vec::new(),
            init_code_hash: Vec::new(),
            code_hash: Vec::new(),
        }
    }
}

impl Default for TraceColumns {
    fn default() -> (r: TraceColumns)
        ensures
            r@.is_empty(),
            forall|schema: Table| #[trigger] r@.wf(schema),
    {
        TraceColumns::new()
    }
}

/// The deployer in force after a list of traces: the origin of the last
/// top-level trace, or the zero address where there has been none.
pub open spec fn deployer_after(traces: Seq<Trace>) -> Seq<u8>
    decreases traces.len(),
{
    if traces.len() == 0 {
        zeros(20)
    } else if traces.last().is_root() {
        traces.last().action.origin()@
    } else {
        deployer_after(traces.drop_last())
    }
}

/// Whether a trace created a contract: a creation with a creation result.
pub open spec fn is_creation(trace: Trace) -> bool {
    trace.action is Create && trace.result matches Some(Res::Create(_))
}

/// The row of a creation, given the deployer in force and the number of
/// creations before it.
pub open spec fn contract_row(trace: Trace, deployer: Seq<u8>, create_index: int) -> ContractRow {
    let create = trace.action->Create_0;
    let result = trace.result.unwrap()->Create_0;
    ContractRow {
        block_number: low_u32(trace.block_number as int),
        create_index: create_index as u32,
        transaction_hash: optional_array_view(trace.transaction_hash),
        contract_address: result.address@,
        deployer,
        factory: create.from@,
        init_code: create.init@,
        code: result.code@,
        init_code_hash: keccak256_digest(create.init@),
        code_hash: keccak256_digest(result.code@),
    }
}

/// The rows of a list of traces: one for each creation, in order, numbered
/// from zero, each with the deployer in force at its place.
pub open spec fn contract_rows(traces: Seq<Trace>) -> Seq<ContractRow>
    decreases traces.len(),
{
    if traces.len() == 0 {
        Seq::empty()
    } else {
        let rows = contract_rows(traces.drop_last());
        if is_creation(traces.last()) {
            rows.push(contract_row(traces.last(), deployer_after(traces), rows.len() as int))
        } else {
            rows
        }
    }
}

/// A list of traces gives at most one row for each trace, and the rows are
/// numbered by their place: the counter goes up by one with every row and
/// with nothing else.
pub proof fn lemma_contract_rows(traces: Seq<Trace>)
    requires
        traces.len() <= u32::MAX,
    ensures
        contract_rows(traces).len() <= traces.len(),
        forall|i: int|
            0 <= i < contract_rows(traces).len() ==> (#[trigger] contract_rows(
                traces,
            )[i]).create_index == i,
    decreases traces.len(),
{
    if traces.len() > 0 {
        lemma_contract_rows(traces.drop_last());
    }
}

/// The deployer in force after a list of traces is the origin of its last
/// top-level trace: every trace nested below that one inherits it.
pub proof fn lemma_deployer_tracking(traces: Seq<Trace>, root: int)
    requires
        0 <= root < traces.len(),
        traces[root].is_root(),
        forall|k: int| root < k < traces.len() ==> !(#[trigger] traces[k]).is_root(),
    ensures
        deployer_after(traces) == traces[root].action.origin()@,
    decreases traces.len(),
{
    if root < traces.len() - 1 {
        lemma_deployer_tracking(traces.drop_last(), root);
    }
}

/// A creation that follows a top-level trace, with nothing but nested traces
/// in between, gives a row whose deployer is the origin of that top-level
/// trace.
pub proof fn lemma_nested_creation_deployer(traces: Seq<Trace>, root: int)
    requires
        0 <= root < traces.len(),
        traces[root].is_root(),
        forall|k: int| root < k < traces.len() ==> !(#[trigger] traces[k]).is_root(),
        is_creation(traces.last()),
    ensures
        contract_rows(traces).len() > 0,
        contract_rows(traces).last().deployer == traces[root].action.origin()@,
{
    lemma_deployer_tracking(traces, root);
}

/// Whether every entry of a column from a place on is a digest: 32 bytes.
pub open spec fn digests_from(column: Seq<Seq<u8>>, start: int) -> bool {
    forall|i: int| start <= i < column.len() ==> (#[trigger] column[i]).len() == 32
}

fn store_contract(
    trace: &Trace,
    deployer: &H160,
    create_index: u32,
    columns: &mut TraceColumns,
    schema: &Table,
)
    requires
        is_creation(*trace),
        old(columns).n_rows < u64::MAX,
    ensures
        final(columns)@ == old(columns)@.push_row(
            *schema,
            contract_row(*trace, deployer@, create_index as int),
        ),
        final(columns).n_rows == old(columns).n_rows + 1,
        schema.has_column("init_code_hash") ==> contract_row(
            *trace,
            deployer@,
            create_index as int,
        ).init_code_hash.len() == 32,
        schema.has_column("code_hash") ==> contract_row(
            *trace,
            deployer@,
            create_index as int,
        ).code_hash.len() == 32,
{
    if let (Action::Create(create), Some(Res::Create(result))) = (&trace.action, &trace.result) {
        columns.n_rows = columns.n_rows + 1;
        store(
            schema.has_column("block_number"),
            &mut columns.block_number,
            truncate_u32(trace.block_number),
        );
        store(schema.has_column("create_index"), &mut columns.create_index, create_index);
        store_optional_bytes(
            schema.has_column("transaction_hash"),
            &mut columns.transaction_hash,
            optional_slice(&trace.transaction_hash),
        );
        store_bytes(
            schema.has_column("contract_address"),
            &mut columns.contract_address,
            result.address.as_slice(),
        );
        store_bytes(
            schema.has_column("deployer"),
            &mut columns.deployer,
            deployer.as_slice(),
        );
        store_bytes(
            schema.has_column("factory"),
            &mut columns.factory,
            create.from.as_slice(),
        );
        store_bytes(
            schema.has_column("init_code"),
            &mut columns.init_code,
            create.init.as_slice(),
        );
        store_bytes(schema.has_column("code"), &mut columns.code, result.code.as_slice());
        if schema.has_column("init_code_hash") {
            store_owned_bytes(true, &mut columns.init_code_hash, keccak256(&create.init));
        }
        if schema.has_column("code_hash") {
            store_owned_bytes(true, &mut columns.code_hash, keccak256(&result.code));
        }
    }
}

/// Appends one row for every contract that the traces of the list created.
/// Traces that failed are removed first. Every hash that is stored is a
/// Keccak-256 digest of 32 bytes.
pub fn process_contracts(traces: Vec<Trace>, columns: &mut TraceColumns, schema: &Table)
    requires
        old(columns).n_rows + traces.len() <= u64::MAX,
        traces.len() <= u32::MAX,
    ensures
        final(columns)@ == old(columns)@.append(
            *schema,
            contract_rows(successful_traces(traces@)),
        ),
        digests_from(final(columns)@.init_code_hash, old(columns)@.init_code_hash.len() as int),
        digests_from(final(columns)@.code_hash, old(columns)@.code_hash.len() as int),
        old(columns)@.wf(*schema) ==> final(columns)@.wf(*schema),
{
    let ghost given = traces@;
    let traces = filter_failed_traces(traces);
    proof {
        lemma_successful_traces(given);
    }
    let mut deployer: H160 = zero_address();
    let mut create_index: u32 = 0;
    let mut i: usize = 0;
    while i < traces.len()
        invariant
            i <= traces@.len() <= u32::MAX,
            old(columns).n_rows + traces.len() <= u64::MAX,
            create_index == contract_rows(traces@.take(i as int)).len() <= i,
            columns.n_rows == old(columns).n_rows + create_index,
            deployer@ == deployer_after(traces@.take(i as int)),
            columns@ == old(columns)@.append(*schema, contract_rows(traces@.take(i as int))),
            old(columns)@.init_code_hash.len() <= columns@.init_code_hash.len(),
            old(columns)@.code_hash.len() <= columns@.code_hash.len(),
            digests_from(columns@.init_code_hash, old(columns)@.init_code_hash.len() as int),
            digests_from(columns@.code_hash, old(columns)@.code_hash.len() as int),
        decreases traces@.len() - i,
    {
        let trace = &traces[i];
        proof {
            assert(traces@.take(i + 1).drop_last() =~= traces@.take(i as int));
        }
        if trace.is_root() {
            deployer = trace.action.origin();
        }
        let creation = match (&trace.action, &trace.result) {
            (Action::Create(_), Some(Res::Create(_))) => true,
            _ => false,
        };
        if creation {
            proof {
                old(columns)@.lemma_append_push(
                    *schema,
                    contract_rows(traces@.take(i as int)),
                    contract_row(*trace, deployer@, create_index as int),
                );
            }
            store_contract(trace, &deployer, create_index, columns, schema);
            create_index = create_index + 1;
        }
        i = i + 1;
    }
    proof {
        assert(traces@.take(i as int) =~= traces@);
        old(columns)@.lemma_append(*schema, contract_rows(traces@));
    }
}

/// The data kind of contract creations.
pub struct Contracts;

/// Appends the rows of a list of traces under the guard of the table that
/// the registry holds for contract creations.
pub fn transform_contracts(response: Vec<Trace>, columns: &mut TraceColumns, schemas: &Schemas)
    requires
        schemas@.contains_key(Datatype::Contracts),
        old(columns).n_rows + response.len() <= u64::MAX,
        response.len() <= u32::MAX,
    ensures
        final(columns)@ == old(columns)@.append(
            schemas@[Datatype::Contracts],
            contract_rows(successful_traces(response@)),
        ),
        digests_from(final(columns)@.init_code_hash, old(columns)@.init_code_hash.len() as int),
        digests_from(final(columns)@.code_hash, old(columns)@.code_hash.len() as int),
        old(columns)@.wf(schemas@[Datatype::Contracts]) ==> final(columns)@.wf(
            schemas@[Datatype::Contracts],
        ),
{
    process_contracts(response, columns, schemas.get(Datatype::Contracts).unwrap());
}

impl CollectByBlock for Contracts {
    type Response = Vec<Trace>;

    type Columns = TraceColumns;

    open spec fn datatype() -> Datatype {
        Datatype::Contracts
    }

    open spec fn admits(response: Vec<Trace>, columns: TraceColumns) -> bool {
        columns.n_rows + response.len() <= u64::MAX && response.len() <= u32::MAX
    }

    open spec fn defect(response: Vec<Trace>, schema: Table) -> Option<CollectError> {
        None
    }

    open spec fn appended(
        before: TraceColumns,
        after: TraceColumns,
        response: Vec<Trace>,
        schema: Table,
    ) -> bool {
        &&& after@ == before@.append(schema, contract_rows(successful_traces(response@)))
        &&& digests_from(after@.init_code_hash, before@.init_code_hash.len() as int)
        &&& digests_from(after@.code_hash, before@.code_hash.len() as int)
    }

    open spec fn columns_wf(columns: TraceColumns, schema: Table) -> bool {
        columns@.wf(schema)
    }

    fn kind() -> (r: Datatype) {
        Datatype::Contracts
    }

    fn fits(response: &Vec<Trace>, columns: &TraceColumns) -> (r: bool) {
        has_room_for(columns.n_rows, response.len()) && response.len() <= 0xffff_ffff
    }

    fn block_parameters() -> (r: Vec<ChunkDim>)
        ensures
            r@ == seq![ChunkDim::BlockNumber],
    {
        vec![ChunkDim::BlockNumber]
    }

    fn transform(
        response: Vec<Trace>,
        columns: &mut TraceColumns,
        schemas: &Schemas,
    ) -> (r: Result<(), CollectError>) {
        transform_contracts(response, columns, schemas);
        Ok(())
    }
}

impl CollectByTransaction for Contracts {
    type Response = Vec<Trace>;

    type Columns = TraceColumns;

    open spec fn datatype() -> Datatype {
        Datatype::Contracts
    }

    open spec fn admits(response: Vec<Trace>, columns: TraceColumns) -> bool {
        columns.n_rows + response.len() <= u64::MAX && response.len() <= u32::MAX
    }

    open spec fn defect(response: Vec<Trace>, schema: Table) -> Option<CollectError> {
        None
    }

    open spec fn appended(
        before: TraceColumns,
        after: TraceColumns,
        response: Vec<Trace>,
        schema: Table,
    ) -> bool {
        &&& after@ == before@.append(schema, contract_rows(successful_traces(response@)))
        &&& digests_from(after@.init_code_hash, before@.init_code_hash.len() as int)
        &&& digests_from(after@.code_hash, before@.code_hash.len() as int)
    }

    open spec fn columns_wf(columns: TraceColumns, schema: Table) -> bool {
        columns@.wf(schema)
    }

    fn kind() -> (r: Datatype) {
        Datatype::Contracts
    }

    fn fits(response: &Vec<Trace>, columns: &TraceColumns) -> (r: bool) {
        has_room_for(columns.n_rows, response.len()) && response.len() <= 0xffff_ffff
    }

    fn transaction_parameters() -> (r: Vec<ChunkDim>)
        ensures
            r@ == seq![ChunkDim::TransactionHash],
    {
        vec![ChunkDim::TransactionHash]
    }

    fn transform(
        response: Vec<Trace>,
        columns: &mut TraceColumns,
        schemas: &Schemas,
    ) -> (r: Result<(), CollectError>) {
        transform_contracts(response, columns, schemas);
        Ok(())
    }
}

} // verus!
