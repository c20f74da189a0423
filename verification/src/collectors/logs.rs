//! Logs: one row for every log that says where it sits in the chain, and the
//! decoded arguments of the logs that fit the event of the schema.

use crate::bytes::{
    byte_seqs, low_u32, optional_byte_seqs, truncate_u32,
};
use crate::chain::Log;
use crate::decoder::{parse_log, parsed_log, params_view, topics_view, LogDecoder};
use crate::collect::{CollectByBlock, CollectByTransaction};
use crate::errors::{
    first_defect, lemma_first_defect, lemma_no_defect, outcome, CollectError, Datatype,
};
use crate::request::ChunkDim;
use crate::schema::{Schemas, Table};
use crate::store::{
    column_fits, has_room_for, store, store_bytes, store_optional_bytes, stored,
};
use ethers_core::abi::Token;
use vstd::prelude::*;

verus! {

/// The values that the logs of a table gave to one argument of its event.
#[derive(Debug)]
pub struct EventColumn {
    pub name: String,
    pub values: Vec<Token>,
}

/// The column accumulator of logs.
#[derive(Debug)]
pub struct LogColumns {
    pub n_rows: u64,
    pub block_number: Vec<u32>,
    pub transaction_index: Vec<u32>,
    pub log_index: Vec<u32>,
    pub transaction_hash: Vec<Vec<u8>>,
    pub address: Vec<Vec<u8>>,
    pub topic0: Vec<Option<Vec<u8>>>,
    pub topic1: Vec<Option<Vec<u8>>>,
    pub topic2: Vec<Option<Vec<u8>>>,
    pub topic3: Vec<Option<Vec<u8>>>,
    pub data: Vec<Vec<u8>>,
    /// One column for each argument name that a decoded log has carried, in
    /// the order in which the names first came up.
    pub event_cols: Vec<EventColumn>,
}

/// One log.
pub struct LogRow {
    pub block_number: u32,
    pub transaction_index: u32,
    pub log_index: u32,
    pub transaction_hash: Seq<u8>,
    pub address: Seq<u8>,
    pub topic0: Option<Seq<u8>>,
    pub topic1: Option<Seq<u8>>,
    pub topic2: Option<Seq<u8>>,
    pub topic3: Option<Seq<u8>>,
    pub data: Seq<u8>,
}

/// What a log accumulator holds.
pub struct LogColumnsView {
    pub n_rows: nat,
    pub block_number: Seq<u32>,
    pub transaction_index: Seq<u32>,
    pub log_index: Seq<u32>,
    pub transaction_hash: Seq<Seq<u8>>,
    pub address: Seq<Seq<u8>>,
    pub topic0: Seq<Option<Seq<u8>>>,
    pub topic1: Seq<Option<Seq<u8>>>,
    pub topic2: Seq<Option<Seq<u8>>>,
    pub topic3: Seq<Option<Seq<u8>>>,
    pub data: Seq<Seq<u8>>,
    pub event_cols: Seq<(Seq<char>, Seq<Token>)>,
}

/// The names and values of a list of event columns.
pub open spec fn event_columns_view(columns: Seq<EventColumn>) -> Seq<(Seq<char>, Seq<Token>)> {
    columns.map_values(|column: EventColumn| (column.name@, column.values@))
}

impl View for LogColumns {
    type V = LogColumnsView;

    open spec fn view(&self) -> LogColumnsView {
        LogColumnsView {
            n_rows: self.n_rows as nat,
            block_number: self.block_number@,
            transaction_index: self.transaction_index@,
            log_index: self.log_index@,
            transaction_hash: byte_seqs(self.transaction_hash@),
            address: byte_seqs(self.address@),
            topic0: optional_byte_seqs(self.topic0@),
            topic1: optional_byte_seqs(self.topic1@),
            topic2: optional_byte_seqs(self.topic2@),
            topic3: optional_byte_seqs(self.topic3@),
            data: byte_seqs(self.data@),
            event_cols: event_columns_view(self.event_cols@),
        }
    }
}

/// Whether `at` is the first column of the given name.
pub open spec fn named_at(columns: Seq<(Seq<char>, Seq<Token>)>, name: Seq<char>, at: int) -> bool {
    &&& 0 <= at < columns.len()
    &&& columns[at].0 == name
    &&& forall|k: int| 0 <= k < at ==> (#[trigger] columns[k]).0 != name
}

/// The event columns after one more argument value: it joins the first column
/// of its name, or opens a new column after the others.
pub open spec fn merge_param(
    columns: Seq<(Seq<char>, Seq<Token>)>,
    param: (Seq<char>, Token),
) -> Seq<(Seq<char>, Seq<Token>)> {
    if exists|at: int| named_at(columns, param.0, at) {
        let at = choose|at: int| named_at(columns, param.0, at);
        columns.update(at, (param.0, columns[at].1.push(param.1)))
    } else {
        columns.push((param.0, seq![param.1]))
    }
}

/// The event columns after the given argument values, in order.
pub open spec fn merge_params(
    columns: Seq<(Seq<char>, Seq<Token>)>,
    params: Seq<(Seq<char>, Token)>,
) -> Seq<(Seq<char>, Seq<Token>)>
    decreases params.len(),
{
    if params.len() == 0 {
        columns
    } else {
        merge_param(merge_params(columns, params.drop_last()), params.last())
    }
}

impl LogColumnsView {
    /// The accumulator after one more row, stored under the guard of the schema.
    pub open spec fn push_row(self, schema: Table, row: LogRow) -> Self {
        LogColumnsView {
            n_rows: self.n_rows + 1,
            block_number: stored(
                schema.has_column("block_number"),
                self.block_number,
                row.block_number,
            ),
            transaction_index: stored(
                schema.has_column("transaction_index"),
                self.transaction_index,
                row.transaction_index,
            ),
            log_index: stored(schema.has_column("log_index"), self.log_index, row.log_index),
            transaction_hash: stored(
                schema.has_column("transaction_hash"),
                self.transaction_hash,
                row.transaction_hash,
            ),
            address: stored(schema.has_column("address"), self.address, row.address),
            topic0: stored(schema.has_column("topic0"), self.topic0, row.topic0),
            topic1: stored(schema.has_column("topic1"), self.topic1, row.topic1),
            topic2: stored(schema.has_column("topic2"), self.topic2, row.topic2),
            topic3: stored(schema.has_column("topic3"), self.topic3, row.topic3),
            data: stored(schema.has_column("data"), self.data, row.data),
            event_cols: self.event_cols,
        }
    }

    /// The accumulator after the given rows, in order.
    pub open spec fn append(self, schema: Table, rows: Seq<LogRow>) -> Self
        decreases rows.len(),
    {
        if rows.len() == 0 {
            self
        } else {
            self.append(schema, rows.drop_last()).push_row(schema, rows.last())
        }
    }

    /// The accumulator after the given argument values have joined its event
    /// columns.
    pub open spec fn with_params(self, params: Seq<(Seq<char>, Token)>) -> Self {
        LogColumnsView { event_cols: merge_params(self.event_cols, params), ..self }
    }

    /// Whether the accumulator holds nothing: no rows, and no entry in any
    /// column.
    pub open spec fn is_empty(self) -> bool {
        &&& self.n_rows == 0
        &&& self.block_number.len() == 0
        &&& self.transaction_index.len() == 0
        &&& self.log_index.len() == 0
        &&& self.transaction_hash.len() == 0
        &&& self.address.len() == 0
        &&& self.topic0.len() == 0
        &&& self.topic1.len() == 0
        &&& self.topic2.len() == 0
        &&& self.topic3.len() == 0
        &&& self.data.len() == 0
        &&& self.event_cols.len() == 0
    }

    /// The row-count invariant: every active column has one entry per row,
    /// and every inactive column is empty. The event columns stand apart: a
    /// log adds to them when it fits the event, whether or not it gave a row.
    pub open spec fn wf(self, schema: Table) -> bool {
        &&& column_fits(schema.has_column("block_number"), self.block_number.len(), self.n_rows)
        &&& column_fits(
            schema.has_column("transaction_index"),
            self.transaction_index.len(),
            self.n_rows,
        )
        &&& column_fits(schema.has_column("log_index"), self.log_index.len(), self.n_rows)
        &&& column_fits(
            schema.has_column("transaction_hash"),
            self.transaction_hash.len(),
            self.n_rows,
        )
        &&& column_fits(schema.has_column("address"), self.address.len(), self.n_rows)
        &&& column_fits(schema.has_column("topic0"), self.topic0.len(), self.n_rows)
        &&& column_fits(schema.has_column("topic1"), self.topic1.len(), self.n_rows)
        &&& column_fits(schema.has_column("topic2"), self.topic2.len(), self.n_rows)
        &&& column_fits(schema.has_column("topic3"), self.topic3.len(), self.n_rows)
        &&& column_fits(schema.has_column("data"), self.data.len(), self.n_rows)
    }

    /// Appending one more row.
    pub proof fn lemma_append_push(self, schema: Table, rows: Seq<LogRow>, row: LogRow)
        ensures
            self.append(schema, rows.push(row)) == self.append(schema, rows).push_row(schema, row),
    {
        assert(rows.push(row).drop_last() =~= rows);
    }

    /// Appending rows keeps the row-count invariant, adds one to the row
    /// counter for each row, and leaves every inactive column and the event
    /// columns as they were.
    pub proof fn lemma_append(self, schema: Table, rows: Seq<LogRow>)
        ensures
            self.append(schema, rows).n_rows == self.n_rows + rows.len(),
            self.wf(schema) ==> self.append(schema, rows).wf(schema),
            self.append(schema, rows).event_cols == self.event_cols,
            !schema.has_column("block_number") ==> self.append(schema, rows).block_number
                == self.block_number,
            !schema.has_column("transaction_index") ==> self.append(schema, rows).transaction_index
                == self.transaction_index,
            !schema.has_column("log_index") ==> self.append(schema, rows).log_index
                == self.log_index,
            !schema.has_column("transaction_hash") ==> self.append(schema, rows).transaction_hash
                == self.transaction_hash,
            !schema.has_column("address") ==> self.append(schema, rows).address == self.address,
            !schema.has_column("topic0") ==> self.append(schema, rows).topic0 == self.topic0,
            !schema.has_column("topic1") ==> self.append(schema, rows).topic1 == self.topic1,
            !schema.has_column("topic2") ==> self.append(schema, rows).topic2 == self.topic2,
            !schema.has_column("topic3") ==> self.append(schema, rows).topic3 == self.topic3,
            !schema.has_column("data") ==> self.append(schema, rows).data == self.data,
        decreases rows.len(),
    {
        if rows.len() > 0 {
            self.lemma_append(schema, rows.drop_last());
        }
    }
}

impl LogColumns {
    /// An accumulator without rows.
    pub fn new() -> (r: LogColumns)
        ensures
            r@.is_empty(),
            forall|schema: Table| #[trigger] r@.wf(schema),
    {
        LogColumns {
            n_rows: 0,
            block_number: Vec::new(),
            transaction_index: Vec::new(),
            log_index: Vec::new(),
            transaction_hash: Vec::new(),
            address: Vec::new(),
            topic0: Vec::new(),
            topic1: Vec::new(),
            topic2: Vec::new(),
            topic3: Vec::new(),
            data: Vec::new(),
            event_cols: Vec::new(),
        }
    }
}

impl LogColumns {
    /// Whether every event column has one value for each row, so that the
    /// event columns can stand beside the others in one table.
    pub fn event_columns_complete(&self) -> (r: bool)
        ensures
            r == forall|i: int|
                0 <= i < self.event_cols@.len() ==> (#[trigger] self.event_cols@[i]).values@.len()
                    == self.n_rows,
    {
        let mut i: usize = 0;
        while i < self.event_cols.len()
            invariant
                i <= self.event_cols@.len(),
                forall|k: int|
                    0 <= k < i ==> (#[trigger] self.event_cols@[k]).values@.len() == self.n_rows,
            decreases self.event_cols@.len() - i,
        {
            if self.event_cols[i].values.len() as u64 != self.n_rows {
                return false;
            }
            i = i + 1;
        }
        true
    }
}

impl Default for LogColumns {
    fn default() -> (r: LogColumns)
        ensures
            r@.is_empty(),
            forall|schema: Table| #[trigger] r@.wf(schema),
    {
        LogColumns::new()
    }
}

/// Whether a position of a log does not fit the 32 bits of its column, where
/// the schema activates that column.
pub open spec fn log_overflows(log: Log, schema: Table) -> bool {
    ||| schema.has_column("block_number") && log.block_number.unwrap() > u32::MAX
    ||| schema.has_column("transaction_index") && log.transaction_index.unwrap() > u32::MAX
    ||| schema.has_column("log_index") && log.log_index.unwrap().value() > u32::MAX
}

/// What is wrong with a log as a row. It counts only for a log that gives a
/// row.
pub open spec fn log_defect(log: Log, schema: Table) -> Option<CollectError> {
    if log.is_positioned() && log_overflows(log, schema) {
        Some(CollectError::IntegerOverflow)
    } else {
        None
    }
}

/// The findings for each log of a list.
pub open spec fn log_defects(logs: Seq<Log>, schema: Table) -> Seq<Option<CollectError>> {
    Seq::new(logs.len(), |i: int| log_defect(logs[i], schema))
}

/// The row of a log that says where it sits in the chain.
pub open spec fn log_row(log: Log) -> LogRow {
    LogRow {
        block_number: low_u32(log.block_number.unwrap() as int),
        transaction_index: low_u32(log.transaction_index.unwrap() as int),
        log_index: low_u32(log.log_index.unwrap().value() as int),
        transaction_hash: log.transaction_hash.unwrap()@,
        address: log.address@,
        topic0: log.spec_topic(0),
        topic1: log.spec_topic(1),
        topic2: log.spec_topic(2),
        topic3: log.spec_topic(3),
        data: log.data@,
    }
}

/// The rows of a list of logs: one for each log that says where it sits in
/// the chain, in order. The other logs are passed over.
pub open spec fn log_rows(logs: Seq<Log>) -> Seq<LogRow>
    decreases logs.len(),
{
    if logs.len() == 0 {
        Seq::empty()
    } else if logs.last().is_positioned() {
        log_rows(logs.drop_last()).push(log_row(logs.last()))
    } else {
        log_rows(logs.drop_last())
    }
}

/// The argument values that a decoder reads from a list of logs: those of
/// each log that fits its event, in order. Every log is tried, also one that
/// gives no row.
pub open spec fn decoded_params(decoder: LogDecoder, logs: Seq<Log>) -> Seq<(Seq<char>, Token)>
    decreases logs.len(),
{
    if logs.len() == 0 {
        Seq::empty()
    } else {
        let log = logs.last();
        match parsed_log(decoder.event, topics_view(log.topics@), log.data@) {
            Some(params) => decoded_params(decoder, logs.drop_last()) + params,
            None => decoded_params(decoder, logs.drop_last()),
        }
    }
}

/// The argument values that the decoder of a schema reads from a list of
/// logs; none where the schema has no decoder.
pub open spec fn schema_params(schema: Table, logs: Seq<Log>) -> Seq<(Seq<char>, Token)> {
    match schema.log_decoder {
        Some(decoder) => decoded_params(decoder, logs),
        None => Seq::empty(),
    }
}

impl LogDecoder {
    /// Decodes every log of the list that fits the event, and returns the
    /// named argument values in order.
    pub fn parse_log_from_event(&self, logs: &Vec<Log>) -> (params: Vec<(String, Token)>)
        ensures
            params_view(params@) == decoded_params(*self, logs@),
    {
        let mut params: Vec<(String, Token)> = Vec::new();
        let mut i: usize = 0;
        while i < logs.len()
            invariant
                i <= logs@.len(),
                params_view(params@) == decoded_params(*self, logs@.take(i as int)),
            decreases logs@.len() - i,
        {
            let log = &logs[i];
            assert(logs@.take(i + 1).drop_last() =~= logs@.take(i as int));
            match parse_log(&self.event, &log.topics, &log.data) {
                Ok(mut found) => {
                    params.append(&mut found);
                },
                Err(_) => {},
            }
            i = i + 1;
        }
        assert(logs@.take(i as int) =~= logs@);
        params
    }
}

/// Adds one argument value to the event columns: to the first column of its
/// name, or to a new column after the others.
pub fn merge_event_param(columns: &mut Vec<EventColumn>, name: String, value: Token)
    ensures
        event_columns_view(final(columns)@) == merge_param(
            event_columns_view(old(columns)@),
            (name@, value),
        ),
{
    let ghost before = event_columns_view(columns@);
    let mut i: usize = 0;
    while i < columns.len()
        invariant
            i <= columns@.len(),
            columns@ == old(columns)@,
            before == event_columns_view(columns@),
            forall|k: int| 0 <= k < i ==> (#[trigger] before[k]).0 != name@,
        decreases columns@.len() - i,
    {
        if columns[i].name == name {
            columns[i].values.push(value);
            proof {
                assert(named_at(before, name@, i as int));
                assert(event_columns_view(columns@) =~= before.update(
                    i as int,
                    (name@, before[i as int].1.push(value)),
                ));
            }
            return ;
        }
        i = i + 1;
    }
    let mut values: Vec<Token> = Vec::new();
    values.push(value);
    columns.push(EventColumn { name, values });
}

/// Adds argument values to the event columns, in order.
pub fn merge_event_params(columns: &mut Vec<EventColumn>, params: Vec<(String, Token)>)
    ensures
        event_columns_view(final(columns)@) == merge_params(
            event_columns_view(old(columns)@),
            params_view(params@),
        ),
{
    let ghost all = params_view(params@);
    let ghost start = event_columns_view(columns@);
    for param in it: params
        invariant
            it.seq() == params@,
            all == params_view(params@),
            event_columns_view(columns@) == merge_params(start, all.take(it.index() as int)),
    {
        let (name, value) = param;
        proof {
            let done = it.index() as int;
            assert(all.take(done + 1).drop_last() =~= all.take(done));
        }
        merge_event_param(columns, name, value);
    }
    assert(all.take(all.len() as int) =~= all);
}

fn find_log_defect(logs: &Vec<Log>, schema: &Table) -> (r: Option<CollectError>)
    ensures
        r == first_defect(log_defects(logs@, *schema)),
        r matches Some(error) ==> error.is_fatal(),
{
    let has_block_number = schema.has_column("block_number");
    let has_transaction_index = schema.has_column("transaction_index");
    let has_log_index = schema.has_column("log_index");
    let mut i: usize = 0;
    while i < logs.len()
        invariant
            i <= logs@.len(),
            has_block_number == schema.has_column("block_number"),
            has_transaction_index == schema.has_column("transaction_index"),
            has_log_index == schema.has_column("log_index"),
            forall|k: int| 0 <= k < i ==> log_defects(logs@, *schema)[k] is None,
        decreases logs@.len() - i,
    {
        let log = &logs[i];
        if let (Some(block_number), Some(_), Some(transaction_index), Some(log_index)) = (
            log.block_number,
            log.transaction_hash,
            log.transaction_index,
            log.log_index,
        ) {
            if has_block_number && block_number > 0xffff_ffff || has_transaction_index
                && transaction_index > 0xffff_ffff || has_log_index
                && log_index.as_u32().is_none() {
                proof {
                    lemma_first_defect(log_defects(logs@, *schema), i as int);
                }
                return Some(CollectError::IntegerOverflow);
            }
        }
        i = i + 1;
    }
    proof {
        lemma_no_defect(log_defects(logs@, *schema));
    }
    None
}

fn store_log(log: &Log, columns: &mut LogColumns, schema: &Table)
    requires
        log.is_positioned(),
        old(columns).n_rows < u64::MAX,
    ensures
        final(columns)@ == old(columns)@.push_row(*schema, log_row(*log)),
        final(columns).n_rows == old(columns).n_rows + 1,
{
    if let (Some(block_number), Some(transaction_hash), Some(transaction_index), Some(log_index)) =
        (log.block_number, log.transaction_hash, log.transaction_index, log.log_index) {
        columns.n_rows = columns.n_rows + 1;
        store(
            schema.has_column("block_number"),
            &mut columns.block_number,
            truncate_u32(block_number),
        );
        store(
            schema.has_column("transaction_index"),
            &mut columns.transaction_index,
            truncate_u32(transaction_index),
        );
        store(schema.has_column("log_index"), &mut columns.log_index, log_index.low_u32());
        store_bytes(
            schema.has_column("transaction_hash"),
            &mut columns.transaction_hash,
            transaction_hash.as_slice(),
        );
        store_bytes(
            schema.has_column("address"),
            &mut columns.address,
            log.address.as_slice(),
        );
        store_bytes(schema.has_column("data"), &mut columns.data, log.data.as_slice());
        store_optional_bytes(schema.has_column("topic0"), &mut columns.topic0, log.topic(0));
        store_optional_bytes(schema.has_column("topic1"), &mut columns.topic1, log.topic(1));
        store_optional_bytes(schema.has_column("topic2"), &mut columns.topic2, log.topic(2));
        store_optional_bytes(schema.has_column("topic3"), &mut columns.topic3, log.topic(3));
    }
}

/// Appends one row for every log of the list that says where it sits in the
/// chain, and then the decoded arguments of every log that fits the event of
/// the schema. Fails, leaving the accumulator as it was, if a position does
/// not fit its active column.
pub fn process_logs(logs: Vec<Log>, columns: &mut LogColumns, schema: &Table) -> (r: Result<
    (),
    CollectError,
>)
    requires
        old(columns).n_rows + logs.len() <= u64::MAX,
    ensures
        r == outcome(first_defect(log_defects(logs@, *schema))),
        r is Ok ==> final(columns)@ == old(columns)@.append(*schema, log_rows(logs@)).with_params(
            schema_params(*schema, logs@),
        ),
        r matches Err(error) ==> error.is_fatal() && *final(columns) == *old(columns),
        old(columns)@.wf(*schema) ==> final(columns)@.wf(*schema),
{
    if let Some(error) = find_log_defect(&logs, schema) {
        return Err(error);
    }
    let mut i: usize = 0;
    while i < logs.len()
        invariant
            i <= logs@.len(),
            columns.n_rows <= old(columns).n_rows + i,
            old(columns).n_rows + logs.len() <= u64::MAX,
            columns@ == old(columns)@.append(*schema, log_rows(logs@.take(i as int))),
        decreases logs@.len() - i,
    {
        let log = &logs[i];
        proof {
            assert(logs@.take(i + 1).drop_last() =~= logs@.take(i as int));
        }
        if log.is_positioned() {
            proof {
                old(columns)@.lemma_append_push(
                    *schema,
                    log_rows(logs@.take(i as int)),
                    log_row(*log),
                );
            }
            store_log(log, columns, schema);
        }
        i = i + 1;
    }
    proof {
        assert(logs@.take(i as int) =~= logs@);
        old(columns)@.lemma_append(*schema, log_rows(logs@));
    }
    if let Some(decoder) = &schema.log_decoder {
        let params = decoder.parse_log_from_event(&logs);
        merge_event_params(&mut columns.event_cols, params);
    }
    Ok(())
}

/// The data kind of logs.
pub struct Logs;

/// Appends the rows and decoded arguments of a list of logs under the guard
/// of the table that the registry holds for logs.
pub fn transform_logs(
    response: Vec<Log>,
    columns: &mut LogColumns,
    schemas: &Schemas,
) -> (r: Result<(), CollectError>)
    requires
        schemas@.contains_key(Datatype::Logs),
        old(columns).n_rows + response.len() <= u64::MAX,
    ensures
        r == outcome(first_defect(log_defects(response@, schemas@[Datatype::Logs]))),
        r matches Err(error) ==> error.is_fatal() && *final(columns) == *old(columns),
        r is Ok ==> final(columns)@ == old(columns)@.append(
            schemas@[Datatype::Logs],
            log_rows(response@),
        ).with_params(schema_params(schemas@[Datatype::Logs], response@)),
        old(columns)@.wf(schemas@[Datatype::Logs]) ==> final(columns)@.wf(
            schemas@[Datatype::Logs],
        ),
{
    process_logs(response, columns, schemas.get(Datatype::Logs).unwrap())
}

impl CollectByBlock for Logs {
    type Response = Vec<Log>;

    type Columns = LogColumns;

    open spec fn datatype() -> Datatype {
        Datatype::Logs
    }

    open spec fn admits(response: Vec<Log>, columns: LogColumns) -> bool {
        columns.n_rows + response.len() <= u64::MAX
    }

    open spec fn defect(response: Vec<Log>, schema: Table) -> Option<CollectError> {
        first_defect(log_defects(response@, schema))
    }

    open spec fn appended(
        before: LogColumns,
        after: LogColumns,
        response: Vec<Log>,
        schema: Table,
    ) -> bool {
        after@ == before@.append(schema, log_rows(response@)).with_params(
            schema_params(schema, response@),
        )
    }

    open spec fn columns_wf(columns: LogColumns, schema: Table) -> bool {
        columns@.wf(schema)
    }

    fn kind() -> (r: Datatype) {
        Datatype::Logs
    }

    fn fits(response: &Vec<Log>, columns: &LogColumns) -> (r: bool) {
        has_room_for(columns.n_rows, response.len())
    }

    fn block_parameters() -> (r: Vec<ChunkDim>)
        ensures
            r@ == seq![ChunkDim::BlockNumber],
    {
        vec![ChunkDim::BlockNumber]
    }

    fn transform(
        response: Vec<Log>,
        columns: &mut LogColumns,
        schemas: &Schemas,
    ) -> (r: Result<(), CollectError>) {
        transform_logs(response, columns, schemas)
    }
}

impl CollectByTransaction for Logs {
    type Response = Vec<Log>;

    type Columns = LogColumns;

    open spec fn datatype() -> Datatype {
        Datatype::Logs
    }

    open spec fn admits(response: Vec<Log>, columns: LogColumns) -> bool {
        columns.n_rows + response.len() <= u64::MAX
    }

    open spec fn defect(response: Vec<Log>, schema: Table) -> Option<CollectError> {
        first_defect(log_defects(response@, schema))
    }

    open spec fn appended(
        before: LogColumns,
        after: LogColumns,
        response: Vec<Log>,
        schema: Table,
    ) -> bool {
        after@ == before@.append(schema, log_rows(response@)).with_params(
            schema_params(schema, response@),
        )
    }

    open spec fn columns_wf(columns: LogColumns, schema: Table) -> bool {
        columns@.wf(schema)
    }

    fn kind() -> (r: Datatype) {
        Datatype::Logs
    }

    fn fits(response: &Vec<Log>, columns: &LogColumns) -> (r: bool) {
        has_room_for(columns.n_rows, response.len())
    }

    fn transaction_parameters() -> (r: Vec<ChunkDim>)
        ensures
            r@ == seq![ChunkDim::TransactionHash],
    {
        vec![ChunkDim::TransactionHash]
    }

    fn transform(
        response: Vec<Log>,
        columns: &mut LogColumns,
        schemas: &Schemas,
    ) -> (r: Result<(), CollectError>) {
        transform_logs(response, columns, schemas)
    }
}

} // verus!
