//! Native transfers: one row for every trace, whatever its action.

use crate::bytes::{
    byte_seqs, low_u32, optional_array_view, optional_byte_seqs, optional_slice,
    truncate_index, truncate_u32, zero_address, zeros,
};
use crate::chain::{Action, Res, Trace};
use crate::collect::{CollectByBlock, CollectByTransaction};
use crate::errors::{first_defect, lemma_first_defect, lemma_no_defect, CollectError, Datatype};
use crate::request::ChunkDim;
use crate::schema::{Schemas, Table};
use crate::store::{
    column_fits, has_room_for, store, store_bytes, store_optional_bytes, store_u256_bytes,
    stored,
};
use vstd::prelude::*;

verus! {

/// The column accumulator of native transfers.
#[derive(Debug)]
pub struct NativeTransferColumns {
    pub n_rows: u64,
    pub block_number: Vec<u32>,
    pub transaction_index: Vec<Option<u32>>,
    pub transfer_index: Vec<u32>,
    pub transaction_hash: Vec<Option<Vec<u8>>>,
    pub from_address: Vec<Vec<u8>>,
    pub to_address: Vec<Vec<u8>>,
    pub value: Vec<Vec<u8>>,
}

/// One native transfer.
pub struct NativeTransferRow {
    pub block_number: u32,
    pub transaction_index: Option<u32>,
    pub transfer_index: u32,
    pub transaction_hash: Option<Seq<u8>>,
    pub from_address: Seq<u8>,
    pub to_address: Seq<u8>,
    pub value: Seq<u8>,
}

/// What a native-transfer accumulator holds.
pub struct NativeTransferColumnsView {
    pub n_rows: nat,
    pub block_number: Seq<u32>,
    pub transaction_index: Seq<Option<u32>>,
    pub transfer_index: Seq<u32>,
    pub transaction_hash: Seq<Option<Seq<u8>>>,
    pub from_address: Seq<Seq<u8>>,
    pub to_address: Seq<Seq<u8>>,
    pub value: Seq<Seq<u8>>,
}

impl View for NativeTransferColumns {
    type V = NativeTransferColumnsView;

    open spec fn view(&self) -> NativeTransferColumnsView {
        NativeTransferColumnsView {
            n_rows: self.n_rows as nat,
            block_number: self.block_number@,
            transaction_index: self.transaction_index@,
            transfer_index: self.transfer_index@,
            transaction_hash: optional_byte_seqs(self.transaction_hash@),
            from_address: byte_seqs(self.from_address@),
            to_address: byte_seqs(self.to_address@),
            value: byte_seqs(self.value@),
        }
    }
}

impl NativeTransferColumnsView {
    /// The accumulator after one more row, stored under the guard of the schema.
    pub open spec fn push_row(self, schema: Table, row: NativeTransferRow) -> Self {
        NativeTransferColumnsView {
            n_rows: self.n_rows + 1,
            block_number: stored(
                schema.has_column("block_number"),
                self.block_number,
                row.block_number,
            ),
            transaction_index: stored(
                schema.has_column("transaction_index"),
                self.transaction_index,
                row.transaction_index,
            ),
            transfer_index: stored(
                schema.has_column("transfer_index"),
                self.transfer_index,
                row.transfer_index,
            ),
            transaction_hash: stored(
                schema.has_column("transaction_hash"),
                self.transaction_hash,
                row.transaction_hash,
            ),
            from_address: stored(
                schema.has_column("from_address"),
                self.from_address,
                row.from_address,
            ),
            to_address: stored(schema.has_column("to_address"), self.to_address, row.to_address),
            value: stored(schema.has_column("value"), self.value, row.value),
        }
    }

    /// The accumulator after the given rows, in order.
    pub open spec fn append(self, schema: Table, rows: Seq<NativeTransferRow>) -> Self
        decreases rows.len(),
    {
        if rows.len() == 0 {
            self
        } else {
            self.append(schema, rows.drop_last()).push_row(schema, rows.last())
        }
    }

    /// Whether the accumulator holds nothing: no rows, and no entry in any
    /// column.
    pub open spec fn is_empty(self) -> bool {
        &&& self.n_rows == 0
        &&& self.block_number.len() == 0
        &&& self.transaction_index.len() == 0
        &&& self.transfer_index.len() == 0
        &&& self.transaction_hash.len() == 0
        &&& self.from_address.len() == 0
        &&& self.to_address.len() == 0
        &&& self.value.len() == 0
    }

    /// The row-count invariant: every active column has one entry per row,
    /// and every inactive column is empty.
    pub open spec fn wf(self, schema: Table) -> bool {
        &&& column_fits(schema.has_column("block_number"), self.block_number.len(), self.n_rows)
        &&& column_fits(
            schema.has_column("transaction_index"),
            self.transaction_index.len(),
            self.n_rows,
        )
        &&& column_fits(
            schema.has_column("transfer_index"),
            self.transfer_index.len(),
            self.n_rows,
        )
        &&& column_fits(
            schema.has_column("transaction_hash"),
            self.transaction_hash.len(),
            self.n_rows,
        )
        &&& column_fits(schema.has_column("from_address"), self.from_address.len(), self.n_rows)
        &&& column_fits(schema.has_column("to_address"), self.to_address.len(), self.n_rows)
        &&& column_fits(schema.has_column("value"), self.value.len(), self.n_rows)
    }

    /// Appending one more row.
    pub proof fn lemma_append_push(
        self,
        schema: Table,
        rows: Seq<NativeTransferRow>,
        row: NativeTransferRow,
    )
        ensures
            self.append(schema, rows.push(row)) == self.append(schema, rows).push_row(schema, row),
    {
        assert(rows.push(row).drop_last() =~= rows);
    }

    /// Appending rows keeps the row-count invariant, adds one to the row
    /// counter for each row, and leaves every inactive column as it was.
    pub proof fn lemma_append(self, schema: Table, rows: Seq<NativeTransferRow>)
        ensures
            self.append(schema, rows).n_rows == self.n_rows + rows.len(),
            self.wf(schema) ==> self.append(schema, rows).wf(schema),
            !schema.has_column("block_number") ==> self.append(schema, rows).block_number
                == self.block_number,
            !schema.has_column("transaction_index") ==> self.append(schema, rows).transaction_index
                == self.transaction_index,
            !schema.has_column("transfer_index") ==> self.append(schema, rows).transfer_index
                == self.transfer_index,
            !schema.has_column("transaction_hash") ==> self.append(schema, rows).transaction_hash
                == self.transaction_hash,
            !schema.has_column("from_address") ==> self.append(schema, rows).from_address
                == self.from_address,
            !schema.has_column("to_address") ==> self.append(schema, rows).to_address
                == self.to_address,
            !schema.has_column("value") ==> self.append(schema, rows).value == self.value,
        decreases rows.len(),
    {
        if rows.len() > 0 {
            self.lemma_append(schema, rows.drop_last());
        }
    }
}

impl NativeTransferColumns {
    /// An accumulator without rows.
    pub fn new() -> (r: NativeTransferColumns)
        ensures
            r@.is_empty(),
            forall|schema: Table| #[trigger] r@.wf(schema),
    {
        NativeTransferColumns {
            n_rows: 0,
            block_number: Vec::new(),
            transaction_index: Vec::new(),
            transfer_index: Vec::new(),
            transaction_hash: Vec::new(),
            from_address: Vec::new(),
            to_address: Vec::new(),
            value: Vec::new(),
        }
    }
}

impl Default for NativeTransferColumns {
    fn default() -> (r: NativeTransferColumns)
        ensures
            r@.is_empty(),
            forall|schema: Table| #[trigger] r@.wf(schema),
    {
        NativeTransferColumns::new()
    }
}

/// What is wrong with a trace as a native transfer: a creation must carry a
/// creation result, which names the address that received the value.
pub open spec fn native_transfer_defect(trace: Trace) -> Option<CollectError> {
    match trace.action {
        Action::Create(_) => match trace.result {
            None => Some(CollectError::MissingTraceResult),
            Some(Res::Create(_)) => None,
            Some(_) => Some(CollectError::MissingCreateResult),
        },
        _ => None,
    }
}

/// The findings for each trace of a list.
pub open spec fn native_transfer_defects(traces: Seq<Trace>) -> Seq<Option<CollectError>> {
    Seq::new(traces.len(), |i: int| native_transfer_defect(traces[i]))
}

/// The sender of the value that a trace moves.
pub open spec fn transfer_sender(trace: Trace) -> Seq<u8> {
    match trace.action {
        Action::Call(call) => call.from@,
        Action::Create(create) => create.from@,
        Action::Suicide(suicide) => suicide.address@,
        Action::Reward(_) => zeros(20),
    }
}

/// The receiver of the value that a trace moves. For a creation it is the
/// address of the new contract, taken from the creation result.
pub open spec fn transfer_receiver(trace: Trace) -> Seq<u8> {
    match trace.action {
        Action::Call(call) => call.to@,
        Action::Create(_) => match trace.result {
            Some(Res::Create(result)) => result.address@,
            _ => zeros(20),
        },
        Action::Suicide(suicide) => suicide.refund_address@,
        Action::Reward(reward) => reward.author@,
    }
}

/// The value that a trace moves, as 32 bytes, most significant first.
pub open spec fn transfer_value(trace: Trace) -> Seq<u8> {
    match trace.action {
        Action::Call(call) => call.value.be_bytes(),
        Action::Create(create) => create.value.be_bytes(),
        Action::Suicide(suicide) => suicide.balance.be_bytes(),
        Action::Reward(reward) => reward.value.be_bytes(),
    }
}

/// The row of the trace at position `index` of its list.
pub open spec fn native_transfer_row(trace: Trace, index: int) -> NativeTransferRow {
    NativeTransferRow {
        block_number: low_u32(trace.block_number as int),
        transaction_index: match trace.transaction_position {
            Some(position) => Some(low_u32(position as int)),
            None => None,
        },
        transfer_index: low_u32(index),
        transaction_hash: optional_array_view(trace.transaction_hash),
        from_address: transfer_sender(trace),
        to_address: transfer_receiver(trace),
        value: transfer_value(trace),
    }
}

/// The rows of a list of traces: one for each trace, in order.
pub open spec fn native_transfer_rows(traces: Seq<Trace>) -> Seq<NativeTransferRow> {
    Seq::new(traces.len(), |i: int| native_transfer_row(traces[i], i))
}

/// Every trace yields exactly one row, whatever its action.
pub proof fn lemma_native_transfers_total(traces: Seq<Trace>)
    ensures
        native_transfer_rows(traces).len() == traces.len(),
        forall|i: int|
            0 <= i < traces.len() ==> #[trigger] native_transfer_rows(traces)[i]
                == native_transfer_row(traces[i], i),
{
}

/// Whether every creation of a list carries its creation result.
pub open spec fn creations_have_results(traces: Seq<Trace>) -> bool {
    forall|i: int| 0 <= i < traces.len() ==> native_transfer_defect(#[trigger] traces[i]) is None
}

/// Says what is wrong with the first creation of a list that lacks its
/// creation result, if there is one. A caller asks this before it hands the
/// traces on: a list with such a creation is not taken.
pub fn find_native_transfer_defect(traces: &Vec<Trace>) -> (r: Option<CollectError>)
    ensures
        r == first_defect(native_transfer_defects(traces@)),
        r is None <==> creations_have_results(traces@),
        r matches Some(error) ==> error.is_fatal(),
{
    let mut i: usize = 0;
    while i < traces.len()
        invariant
            i <= traces@.len(),
            forall|k: int| 0 <= k < i ==> native_transfer_defects(traces@)[k] is None,
        decreases traces@.len() - i,
    {
        let trace = &traces[i];
        let defect: Option<CollectError> = match &trace.action {
            Action::Create(_) => match &trace.result {
                None => Some(CollectError::MissingTraceResult),
                Some(Res::Create(_)) => None,
                Some(_) => Some(CollectError::MissingCreateResult),
            },
            _ => None,
        };
        if defect.is_some() {
            proof {
                lemma_first_defect(native_transfer_defects(traces@), i as int);
                assert(native_transfer_defect(traces@[i as int]) is Some);
            }
            return defect;
        }
        i = i + 1;
    }
    proof {
        lemma_no_defect(native_transfer_defects(traces@));
        assert forall|k: int| 0 <= k < traces@.len() implies native_transfer_defect(
            #[trigger] traces@[k],
        ) is None by {
            assert(native_transfer_defects(traces@)[k] is None);
        }
    }
    None
}

fn store_native_transfer(
    trace: &Trace,
    index: usize,
    columns: &mut NativeTransferColumns,
    schema: &Table,
)
    requires
        native_transfer_defect(*trace) is None,
        old(columns).n_rows < u64::MAX,
    ensures
        final(columns)@ == old(columns)@.push_row(
            *schema,
            native_transfer_row(*trace, index as int),
        ),
        final(columns).n_rows == old(columns).n_rows + 1,
{
    columns.n_rows = columns.n_rows + 1;
    store(
        schema.has_column("block_number"),
        &mut columns.block_number,
        truncate_u32(trace.block_number),
    );
    let transaction_index: Option<u32> = match trace.transaction_position {
        Some(position) => Some(truncate_index(position)),
        None => None,
    };
    store(
        schema.has_column("transaction_index"),
        &mut columns.transaction_index,
        transaction_index,
    );
    store(schema.has_column("transfer_index"), &mut columns.transfer_index, truncate_index(index));
    store_optional_bytes(
        schema.has_column("transaction_hash"),
        &mut columns.transaction_hash,
        optional_slice(&trace.transaction_hash),
    );
    let has_from_address = schema.has_column("from_address");
    let has_to_address = schema.has_column("to_address");
    let has_value = schema.has_column("value");
    match &trace.action {
        Action::Call(action) => {
            store_bytes(
                has_from_address,
                &mut columns.from_address,
                action.from.as_slice(),
            );
            store_bytes(has_to_address, &mut columns.to_address, action.to.as_slice());
            store_u256_bytes(has_value, &mut columns.value, &action.value);
        },
        Action::Create(action) => {
            store_bytes(
                has_from_address,
                &mut columns.from_address,
                action.from.as_slice(),
            );
            if let Some(Res::Create(result)) = &trace.result {
                store_bytes(
                    has_to_address,
                    &mut columns.to_address,
                    result.address.as_slice(),
                );
            }
            store_u256_bytes(has_value, &mut columns.value, &action.value);
        },
        Action::Suicide(action) => {
            store_bytes(
                has_from_address,
                &mut columns.from_address,
                action.address.as_slice(),
            );
            store_bytes(
                has_to_address,
                &mut columns.to_address,
                action.refund_address.as_slice(),
            );
            store_u256_bytes(has_value, &mut columns.value, &action.balance);
        },
        Action::Reward(action) => {
            let sender = zero_address();
            store_bytes(has_from_address, &mut columns.from_address, sender.as_slice());
            store_bytes(has_to_address, &mut columns.to_address, action.author.as_slice());
            store_u256_bytes(has_value, &mut columns.value, &action.value);
        },
    }
}

/// Appends one row for every trace of the list. Every creation of the list
/// carries its creation result.
pub fn process_native_transfers(
    traces: Vec<Trace>,
    columns: &mut NativeTransferColumns,
    schema: &Table,
)
    requires
        old(columns).n_rows + traces.len() <= u64::MAX,
        creations_have_results(traces@),
    ensures
        final(columns)@ == old(columns)@.append(*schema, native_transfer_rows(traces@)),
        final(columns)@.n_rows == old(columns)@.n_rows + traces@.len(),
        old(columns)@.wf(*schema) ==> final(columns)@.wf(*schema),
{
    let ghost rows = native_transfer_rows(traces@);
    let mut i: usize = 0;
    while i < traces.len()
        invariant
            i <= traces@.len(),
            rows == native_transfer_rows(traces@),
            columns.n_rows == old(columns).n_rows + i,
            old(columns).n_rows + traces.len() <= u64::MAX,
            columns@ == old(columns)@.append(*schema, rows.take(i as int)),
            creations_have_results(traces@),
        decreases traces@.len() - i,
    {
        proof {
            assert(native_transfer_defect(traces@[i as int]) is None);
            assert(rows.take(i + 1) =~= rows.take(i as int).push(rows[i as int]));
            old(columns)@.lemma_append_push(*schema, rows.take(i as int), rows[i as int]);
        }
        store_native_transfer(&traces[i], i, columns, schema);
        i = i + 1;
    }
    proof {
        assert(rows.take(i as int) =~= rows);
        old(columns)@.lemma_append(*schema, rows);
    }
}

/// The data kind of native transfers.
pub struct NativeTransfers;

/// Appends the rows of a list of traces under the guard of the table that
/// the registry holds for native transfers.
pub fn transform_native_transfers(
    response: Vec<Trace>,
    columns: &mut NativeTransferColumns,
    schemas: &Schemas,
)
    requires
        schemas@.contains_key(Datatype::NativeTransfers),
        old(columns).n_rows + response.len() <= u64::MAX,
        creations_have_results(response@),
    ensures
        final(columns)@ == old(columns)@.append(
            schemas@[Datatype::NativeTransfers],
            native_transfer_rows(response@),
        ),
        old(columns)@.wf(schemas@[Datatype::NativeTransfers]) ==> final(columns)@.wf(
            schemas@[Datatype::NativeTransfers],
        ),
{
    process_native_transfers(response, columns, schemas.get(Datatype::NativeTransfers).unwrap());
}

impl CollectByBlock for NativeTransfers {
    type Response = Vec<Trace>;

    type Columns = NativeTransferColumns;

    open spec fn datatype() -> Datatype {
        Datatype::NativeTransfers
    }

    open spec fn admits(response: Vec<Trace>, columns: NativeTransferColumns) -> bool {
        columns.n_rows + response.len() <= u64::MAX && creations_have_results(response@)
    }

    open spec fn defect(response: Vec<Trace>, schema: Table) -> Option<CollectError> {
        None
    }

    open spec fn appended(
        before: NativeTransferColumns,
        after: NativeTransferColumns,
        response: Vec<Trace>,
        schema: Table,
    ) -> bool {
        after@ == before@.append(schema, native_transfer_rows(response@))
    }

    open spec fn columns_wf(columns: NativeTransferColumns, schema: Table) -> bool {
        columns@.wf(schema)
    }

    fn kind() -> (r: Datatype) {
        Datatype::NativeTransfers
    }

    fn fits(response: &Vec<Trace>, columns: &NativeTransferColumns) -> (r: bool) {
        has_room_for(columns.n_rows, response.len()) && find_native_transfer_defect(
            response,
        ).is_none()
    }

    fn block_parameters() -> (r: Vec<ChunkDim>)
        ensures
            r@ == seq![ChunkDim::BlockNumber],
    {
        vec![ChunkDim::BlockNumber]
    }

    fn transform(
        response: Vec<Trace>,
        columns: &mut NativeTransferColumns,
        schemas: &Schemas,
    ) -> (r: Result<(), CollectError>) {
        transform_native_transfers(response, columns, schemas);
        Ok(())
    }
}

impl CollectByTransaction for NativeTransfers {
    type Response = Vec<Trace>;

    type Columns = NativeTransferColumns;

    open spec fn datatype() -> Datatype {
        Datatype::NativeTransfers
    }

    open spec fn admits(response: Vec<Trace>, columns: NativeTransferColumns) -> bool {
        columns.n_rows + response.len() <= u64::MAX && creations_have_results(response@)
    }

    open spec fn defect(response: Vec<Trace>, schema: Table) -> Option<CollectError> {
        None
    }

    open spec fn appended(
        before: NativeTransferColumns,
        after: NativeTransferColumns,
        response: Vec<Trace>,
        schema: Table,
    ) -> bool {
        after@ == before@.append(schema, native_transfer_rows(response@))
    }

    open spec fn columns_wf(columns: NativeTransferColumns, schema: Table) -> bool {
        columns@.wf(schema)
    }

    fn kind() -> (r: Datatype) {
        Datatype::NativeTransfers
    }

    fn fits(response: &Vec<Trace>, columns: &NativeTransferColumns) -> (r: bool) {
        has_room_for(columns.n_rows, response.len()) && find_native_transfer_defect(
            response,
        ).is_none()
    }

    fn transaction_parameters() -> (r: Vec<ChunkDim>)
        ensures
            r@ == seq![ChunkDim::TransactionHash],
    {
        vec![ChunkDim::TransactionHash]
    }

    fn transform(
        response: Vec<Trace>,
        columns: &mut NativeTransferColumns,
        schemas: &Schemas,
    ) -> (r: Result<(), CollectError>) {
        transform_native_transfers(response, columns, schemas);
        Ok(())
    }
}

} // verus!
