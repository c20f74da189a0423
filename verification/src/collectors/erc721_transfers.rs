//! ERC-721 transfers: one row for every transfer log that says where it sits
//! in the chain.

use crate::bytes::{byte_seqs, low_u32, same_bytes, truncate_u32, H256};
use crate::chain::Log;
use crate::collect::{CollectByBlock, CollectByTransaction};
use crate::errors::{
    first_defect, lemma_defect_free, lemma_first_defect, lemma_first_defect_occurs,
    lemma_no_defect, outcome, CollectError, Datatype,
};
use crate::request::ChunkDim;
use crate::schema::{Schemas, Table};
use crate::store::{column_fits, has_room_for, store, store_bytes, store_u256, stored};
use crate::u256::{u256_seqs, U256};
use vstd::prelude::*;

verus! {

/// The column accumulator of ERC-721 transfers.
#[derive(Debug)]
pub struct Erc721TransferColumns {
    pub n_rows: u64,
    pub block_number: Vec<u32>,
    pub transaction_index: Vec<u32>,
    pub log_index: Vec<u32>,
    pub transaction_hash: Vec<Vec<u8>>,
    pub erc20: Vec<Vec<u8>>,
    pub from_address: Vec<Vec<u8>>,
    pub to_address: Vec<Vec<u8>>,
    pub token_id: Vec<U256>,
}

/// One ERC-721 transfer.
pub struct Erc721TransferRow {
    pub block_number: u32,
    pub transaction_index: u32,
    pub log_index: u32,
    pub transaction_hash: Seq<u8>,
    pub erc20: Seq<u8>,
    pub from_address: Seq<u8>,
    pub to_address: Seq<u8>,
    pub token_id: Seq<u8>,
}

/// What an ERC-721 transfer accumulator holds. A token id stands as its 32
/// bytes, most significant first.
pub struct Erc721TransferColumnsView {
    pub n_rows: nat,
    pub block_number: Seq<u32>,
    pub transaction_index: Seq<u32>,
    pub log_index: Seq<u32>,
    pub transaction_hash: Seq<Seq<u8>>,
    pub erc20: Seq<Seq<u8>>,
    pub from_address: Seq<Seq<u8>>,
    pub to_address: Seq<Seq<u8>>,
    pub token_id: Seq<Seq<u8>>,
}

impl View for Erc721TransferColumns {
    type V = Erc721TransferColumnsView;

    open spec fn view(&self) -> Erc721TransferColumnsView {
        Erc721TransferColumnsView {
            n_rows: self.n_rows as nat,
            block_number: self.block_number@,
            transaction_index: self.transaction_index@,
            log_index: self.log_index@,
            transaction_hash: byte_seqs(self.transaction_hash@),
            erc20: byte_seqs(self.erc20@),
            from_address: byte_seqs(self.from_address@),
            to_address: byte_seqs(self.to_address@),
            token_id: u256_seqs(self.token_id@),
        }
    }
}

impl Erc721TransferColumnsView {
    /// The accumulator after one more row, stored under the guard of the schema.
    pub open spec fn push_row(self, schema: Table, row: Erc721TransferRow) -> Self {
        Erc721TransferColumnsView {
            n_rows: self.n_rows + 1,
            block_number: stored(
                schema.has_column("block_number"),
                self.block_number,
                row.block_number,
            ),
            transaction_index: stored(
                schema.has_column("transaction_index"),
                self.transaction_index,
                row.transaction_index,
            ),
            log_index: stored(schema.has_column("log_index"), self.log_index, row.log_index),
            transaction_hash: stored(
                schema.has_column("transaction_hash"),
                self.transaction_hash,
                row.transaction_hash,
            ),
            erc20: stored(schema.has_column("erc20"), self.erc20, row.erc20),
            from_address: stored(
                schema.has_column("from_address"),
                self.from_address,
                row.from_address,
            ),
            to_address: stored(schema.has_column("to_address"), self.to_address, row.to_address),
            token_id: stored(schema.has_column("token_id"), self.token_id, row.token_id),
        }
    }

    /// The accumulator after the given rows, in order.
    pub open spec fn append(self, schema: Table, rows: Seq<Erc721TransferRow>) -> Self
        decreases rows.len(),
    {
        if rows.len() == 0 {
            self
        } else {
            self.append(schema, rows.drop_last()).push_row(schema, rows.last())
        }
    }

    /// Whether the accumulator holds nothing: no rows, and no entry in any
    /// column.
    pub open spec fn is_empty(self) -> bool {
        &&& self.n_rows == 0
        &&& self.block_number.len() == 0
        &&& self.transaction_index.len() == 0
        &&& self.log_index.len() == 0
        &&& self.transaction_hash.len() == 0
        &&& self.erc20.len() == 0
        &&& self.from_address.len() == 0
        &&& self.to_address.len() == 0
        &&& self.token_id.len() == 0
    }

    /// The row-count invariant: every active column has one entry per row,
    /// and every inactive column is empty.
    pub open spec fn wf(self, schema: Table) -> bool {
        &&& column_fits(schema.has_column("block_number"), self.block_number.len(), self.n_rows)
        &&& column_fits(
            schema.has_column("transaction_index"),
            self.transaction_index.len(),
            self.n_rows,
        )
        &&& column_fits(schema.has_column("log_index"), self.log_index.len(), self.n_rows)
        &&& column_fits(
            schema.has_column("transaction_hash"),
            self.transaction_hash.len(),
            self.n_rows,
        )
        &&& column_fits(schema.has_column("erc20"), self.erc20.len(), self.n_rows)
        &&& column_fits(schema.has_column("from_address"), self.from_address.len(), self.n_rows)
        &&& column_fits(schema.has_column("to_address"), self.to_address.len(), self.n_rows)
        &&& column_fits(schema.has_column("token_id"), self.token_id.len(), self.n_rows)
    }

    /// Appending one more row.
    pub proof fn lemma_append_push(
        self,
        schema: Table,
        rows: Seq<Erc721TransferRow>,
        row: Erc721TransferRow,
    )
        ensures
            self.append(schema, rows.push(row)) == self.append(schema, rows).push_row(schema, row),
    {
        assert(rows.push(row).drop_last() =~= rows);
    }

    /// Appending rows keeps the row-count invariant, adds one to the row
    /// counter for each row, and leaves every inactive column as it was.
    pub proof fn lemma_append(self, schema: Table, rows: Seq<Erc721TransferRow>)
        ensures
            self.append(schema, rows).n_rows == self.n_rows + rows.len(),
            self.wf(schema) ==> self.append(schema, rows).wf(schema),
            !schema.has_column("block_number") ==> self.append(schema, rows).block_number
                == self.block_number,
            !schema.has_column("transaction_index") ==> self.append(schema, rows).transaction_index
                == self.transaction_index,
            !schema.has_column("log_index") ==> self.append(schema, rows).log_index
                == self.log_index,
            !schema.has_column("transaction_hash") ==> self.append(schema, rows).transaction_hash
                == self.transaction_hash,
            !schema.has_column("erc20") ==> self.append(schema, rows).erc20 == self.erc20,
            !schema.has_column("from_address") ==> self.append(schema, rows).from_address
                == self.from_address,
            !schema.has_column("to_address") ==> self.append(schema, rows).to_address
                == self.to_address,
            !schema.has_column("token_id") ==> self.append(schema, rows).token_id == self.token_id,
        decreases rows.len(),
    {
        if rows.len() > 0 {
            self.lemma_append(schema, rows.drop_last());
        }
    }
}

impl Erc721TransferColumns {
    /// An accumulator without rows.
    pub fn new() -> (r: Erc721TransferColumns)
        ensures
            r@.is_empty(),
            forall|schema: Table| #[trigger] r@.wf(schema),
    {
        Erc721TransferColumns {
            n_rows: 0,
            block_number: Vec::new(),
            transaction_index: Vec::new(),
            log_index: Vec::new(),
            transaction_hash: Vec::new(),
            erc20: Vec::new(),
            from_address: Vec::new(),
            to_address: Vec::new(),
            token_id: Vec::new(),
        }
    }
}

impl Default for Erc721TransferColumns {
    fn default() -> (r: Erc721TransferColumns)
        ensures
            r@.is_empty(),
            forall|schema: Table| #[trigger] r@.wf(schema),
    {
        Erc721TransferColumns::new()
    }
}

/// The first topic of every transfer log: the Keccak-256 digest of
/// `Transfer(address,address,uint256)`.
pub open spec fn erc721_transfer_topic() -> Seq<u8> {
    seq![
        0xddu8, 0xf2, 0x52, 0xad, 0x1b, 0xe2, 0xc8, 0x9b, 0x69, 0xc2, 0xb0, 0x68, 0xfc, 0x37, 0x8d,
        0xaa, 0x95, 0x2b, 0xa7, 0xf1, 0x63, 0xc4, 0xa1, 0x16, 0x28, 0xf5, 0x5a, 0x4d, 0xf5, 0x23,
        0xb3, 0xef,
    ]
}

/// The first topic of every transfer log.
pub fn event_erc721_transfer() -> (r: H256)
    ensures
        r@ == erc721_transfer_topic(),
{
    [
        0xdd, 0xf2, 0x52, 0xad, 0x1b, 0xe2, 0xc8, 0x9b, 0x69, 0xc2, 0xb0, 0x68, 0xfc, 0x37, 0x8d,
        0xaa, 0x95, 0x2b, 0xa7, 0xf1, 0x63, 0xc4, 0xa1, 0x16, 0x28, 0xf5, 0x5a, 0x4d, 0xf5, 0x23,
        0xb3, 0xef,
    ]
}

/// Whether a log has the shape of a transfer: exactly three topics and
/// exactly 32 bytes of data.
pub open spec fn spec_has_transfer_shape(log: &Log) -> bool {
    log.topics@.len() == 3 && log.data@.len() == 32
}

/// Whether a log is a transfer candidate: it has the shape of a transfer and
/// its first topic is that of the transfer event.
pub open spec fn spec_is_erc721_transfer(log: &Log) -> bool {
    spec_has_transfer_shape(log) && log.topics@[0]@ == erc721_transfer_topic()
}

/// Whether a log has the shape of a transfer.
#[verifier::when_used_as_spec(spec_has_transfer_shape)]
pub fn has_transfer_shape(log: &Log) -> (r: bool)
    ensures
        r == spec_has_transfer_shape(log),
{
    log.topics.len() == 3 && log.data.len() == 32
}

/// Whether a log is a transfer candidate.
#[verifier::when_used_as_spec(spec_is_erc721_transfer)]
pub fn is_erc721_transfer(log: &Log) -> (r: bool)
    ensures
        r == spec_is_erc721_transfer(log),
{
    if log.topics.len() == 3 && log.data.len() == 32 {
        let topic = event_erc721_transfer();
        same_bytes(log.topics[0].as_slice(), topic.as_slice())
    } else {
        false
    }
}

/// The logs of a list that are kept as candidates, in order: those with the
/// shape of a transfer and, if `by_topic` is set, the topic of the transfer
/// event.
pub open spec fn transfer_candidates(logs: Seq<Log>, by_topic: bool) -> Seq<Log>
    decreases logs.len(),
{
    if logs.len() == 0 {
        Seq::empty()
    } else if has_transfer_shape(&logs.last()) && (!by_topic || is_erc721_transfer(&logs.last())) {
        transfer_candidates(logs.drop_last(), by_topic).push(logs.last())
    } else {
        transfer_candidates(logs.drop_last(), by_topic)
    }
}

/// Keeps the candidates among the logs that a node returned.
///
/// For the logs of a block range, the node was asked for the topic of the
/// transfer event, so only the shape is looked at (`by_topic` unset). The
/// logs of a transaction come unfiltered, and the topic is looked at too.
pub fn filter_transfer_candidates(logs: Vec<Log>, by_topic: bool) -> (kept: Vec<Log>)
    ensures
        kept@ == transfer_candidates(logs@, by_topic),
{
    let mut kept: Vec<Log> = Vec::new();
    for log in it: logs
        invariant
            it.seq() == logs@,
            kept@ == transfer_candidates(logs@.take(it.index() as int), by_topic),
    {
        proof {
            let done = it.index() as int;
            assert(logs@.take(done + 1).drop_last() =~= logs@.take(done));
        }
        if has_transfer_shape(&log) && (!by_topic || is_erc721_transfer(&log)) {
            kept.push(log);
        }
    }
    assert(logs@.take(logs@.len() as int) =~= logs@);
    kept
}

/// Whether a position of a log does not fit the 32 bits of its column, where
/// the schema activates that column.
pub open spec fn transfer_overflows(log: Log, schema: Table) -> bool {
    ||| schema.has_column("block_number") && log.block_number.unwrap() > u32::MAX
    ||| schema.has_column("transaction_index") && log.transaction_index.unwrap() > u32::MAX
    ||| schema.has_column("log_index") && log.log_index.unwrap().value() > u32::MAX
}

/// Whether a log lacks a topic that an active column reads: the sender is the
/// second topic, the receiver the third.
pub open spec fn transfer_lacks_topic(log: Log, schema: Table) -> bool {
    ||| schema.has_column("from_address") && log.topics@.len() < 2
    ||| schema.has_column("to_address") && log.topics@.len() < 3
}

/// Whether the data of a log is not the one word that the token id is read
/// from, where the schema activates the token id.
pub open spec fn transfer_lacks_token(log: Log, schema: Table) -> bool {
    schema.has_column("token_id") && log.data@.len() != 32
}

/// What is wrong with a log as a transfer. It counts only for a log that
/// gives a row. A log with the shape of a transfer has every topic and the
/// word that the columns read: nothing but a position can be wrong with it.
pub open spec fn transfer_defect(log: Log, schema: Table) -> Option<CollectError> {
    if !log.is_positioned() {
        None
    } else if transfer_overflows(log, schema) {
        Some(CollectError::IntegerOverflow)
    } else if transfer_lacks_topic(log, schema) {
        Some(CollectError::MissingTopic)
    } else if transfer_lacks_token(log, schema) {
        Some(CollectError::MalformedData)
    } else {
        None
    }
}

/// The findings for each log of a list.
pub open spec fn transfer_defects(logs: Seq<Log>, schema: Table) -> Seq<Option<CollectError>> {
    Seq::new(logs.len(), |i: int| transfer_defect(logs[i], schema))
}

/// The row of a log that says where it sits in the chain: the sender is its
/// second topic, the receiver its third, the token id the word of its data.
pub open spec fn erc721_transfer_row(log: Log) -> Erc721TransferRow {
    Erc721TransferRow {
        block_number: low_u32(log.block_number.unwrap() as int),
        transaction_index: low_u32(log.transaction_index.unwrap() as int),
        log_index: low_u32(log.log_index.unwrap().value() as int),
        transaction_hash: log.transaction_hash.unwrap()@,
        erc20: log.address@,
        from_address: log.topics@[1]@,
        to_address: log.topics@[2]@,
        token_id: log.data@,
    }
}

/// The rows of a list of logs: one for each log that says where it sits in
/// the chain, in order. The other logs are passed over.
pub open spec fn erc721_transfer_rows(logs: Seq<Log>) -> Seq<Erc721TransferRow>
    decreases logs.len(),
{
    if logs.len() == 0 {
        Seq::empty()
    } else if logs.last().is_positioned() {
        erc721_transfer_rows(logs.drop_last()).push(erc721_transfer_row(logs.last()))
    } else {
        erc721_transfer_rows(logs.drop_last())
    }
}

/// A positioned log with the shape of a transfer has no defect but a
/// position that does not fit its active column.
pub proof fn lemma_candidate_defect(log: Log, schema: Table)
    requires
        has_transfer_shape(&log),
    ensures
        !transfer_lacks_topic(log, schema),
        !transfer_lacks_token(log, schema),
        transfer_defect(log, schema) == (if log.is_positioned() && transfer_overflows(
            log,
            schema,
        ) {
            Some(CollectError::IntegerOverflow)
        } else {
            None
        }),
{
}

/// A list of logs that all have the shape of a transfer fails on nothing but
/// a position that does not fit its active column, and succeeds where every
/// position fits.
pub proof fn lemma_candidates_defect(logs: Seq<Log>, schema: Table)
    requires
        forall|i: int| 0 <= i < logs.len() ==> has_transfer_shape(&#[trigger] logs[i]),
    ensures
        first_defect(transfer_defects(logs, schema)) matches Some(error) ==> error
            == CollectError::IntegerOverflow,
        (forall|i: int|
            0 <= i < logs.len() && (#[trigger] logs[i]).is_positioned() ==> !transfer_overflows(
                logs[i],
                schema,
            )) ==> first_defect(transfer_defects(logs, schema)) is None,
{
    let defects = transfer_defects(logs, schema);
    assert forall|i: int| 0 <= i < logs.len() implies (#[trigger] defects[i]) is None
        || defects[i] == Some(CollectError::IntegerOverflow) by {
        lemma_candidate_defect(logs[i], schema);
    }
    if first_defect(defects) is Some {
        lemma_first_defect_occurs(defects);
    }
    if forall|i: int|
        0 <= i < logs.len() && (#[trigger] logs[i]).is_positioned() ==> !transfer_overflows(
            logs[i],
            schema,
        ) {
        assert forall|i: int| 0 <= i < defects.len() implies defects[i] is None by {
            lemma_candidate_defect(logs[i], schema);
        }
        lemma_no_defect(defects);
    }
}

/// The candidates of a list all have the shape of a transfer.
pub proof fn lemma_candidates_have_shape(logs: Seq<Log>, by_topic: bool)
    ensures
        forall|i: int|
            0 <= i < transfer_candidates(logs, by_topic).len() ==> has_transfer_shape(
                &#[trigger] transfer_candidates(logs, by_topic)[i],
            ),
    decreases logs.len(),
{
    if logs.len() > 0 {
        lemma_candidates_have_shape(logs.drop_last(), by_topic);
        let kept = transfer_candidates(logs, by_topic);
        let before = transfer_candidates(logs.drop_last(), by_topic);
        assert forall|i: int| 0 <= i < kept.len() implies has_transfer_shape(
            &#[trigger] kept[i],
        ) by {
            if i < before.len() {
                assert(kept[i] == before[i]);
            }
        }
    }
}

fn find_transfer_defect(logs: &Vec<Log>, schema: &Table) -> (r: Option<CollectError>)
    ensures
        r == first_defect(transfer_defects(logs@, *schema)),
        r matches Some(error) ==> error.is_fatal(),
{
    let has_block_number = schema.has_column("block_number");
    let has_transaction_index = schema.has_column("transaction_index");
    let has_log_index = schema.has_column("log_index");
    let has_from_address = schema.has_column("from_address");
    let has_to_address = schema.has_column("to_address");
    let has_token_id = schema.has_column("token_id");
    let mut i: usize = 0;
    while i < logs.len()
        invariant
            i <= logs@.len(),
            has_block_number == schema.has_column("block_number"),
            has_transaction_index == schema.has_column("transaction_index"),
            has_log_index == schema.has_column("log_index"),
            has_from_address == schema.has_column("from_address"),
            has_to_address == schema.has_column("to_address"),
            has_token_id == schema.has_column("token_id"),
            forall|k: int| 0 <= k < i ==> transfer_defects(logs@, *schema)[k] is None,
        decreases logs@.len() - i,
    {
        let log = &logs[i];
        if let (Some(block_number), Some(_), Some(transaction_index), Some(log_index)) = (
            log.block_number,
            log.transaction_hash,
            log.transaction_index,
            log.log_index,
        ) {
            let defect: Option<CollectError> = if has_block_number && block_number > 0xffff_ffff
                || has_transaction_index && transaction_index > 0xffff_ffff || has_log_index
                && log_index.as_u32().is_none() {
                Some(CollectError::IntegerOverflow)
            } else if has_from_address && log.topics.len() < 2 || has_to_address
                && log.topics.len() < 3 {
                Some(CollectError::MissingTopic)
            } else if has_token_id && log.data.len() != 32 {
                Some(CollectError::MalformedData)
            } else {
                None
            };
            if defect.is_some() {
                proof {
                    lemma_first_defect(transfer_defects(logs@, *schema), i as int);
                }
                return defect;
            }
        }
        i = i + 1;
    }
    proof {
        lemma_no_defect(transfer_defects(logs@, *schema));
    }
    None
}

fn store_transfer(log: &Log, columns: &mut Erc721TransferColumns, schema: &Table)
    requires
        log.is_positioned(),
        transfer_defect(*log, *schema) is None,
        old(columns).n_rows < u64::MAX,
    ensures
        final(columns)@ == old(columns)@.push_row(*schema, erc721_transfer_row(*log)),
        final(columns).n_rows == old(columns).n_rows + 1,
{
    if let (Some(block_number), Some(transaction_hash), Some(transaction_index), Some(log_index)) =
        (log.block_number, log.transaction_hash, log.transaction_index, log.log_index) {
        columns.n_rows = columns.n_rows + 1;
        store(
            schema.has_column("block_number"),
            &mut columns.block_number,
            truncate_u32(block_number),
        );
        store(
            schema.has_column("transaction_index"),
            &mut columns.transaction_index,
            truncate_u32(transaction_index),
        );
        store(schema.has_column("log_index"), &mut columns.log_index, log_index.low_u32());
        store_bytes(
            schema.has_column("transaction_hash"),
            &mut columns.transaction_hash,
            transaction_hash.as_slice(),
        );
        store_bytes(schema.has_column("erc20"), &mut columns.erc20, log.address.as_slice());
        if schema.has_column("from_address") {
            store_bytes(true, &mut columns.from_address, log.topics[1].as_slice());
        }
        if schema.has_column("to_address") {
            store_bytes(true, &mut columns.to_address, log.topics[2].as_slice());
        }
        if schema.has_column("token_id") {
            if let Some(token_id) = U256::from_word(log.data.as_slice()) {
                store_u256(true, &mut columns.token_id, token_id);
            }
        }
    }
}

/// Appends one row for every log of the list that says where it sits in the
/// chain. Fails, leaving the accumulator as it was, if a position does not
/// fit its active column. A list that holds logs without the shape of a
/// transfer also fails where such a log lacks a topic, or the word of data,
/// that an active column reads.
pub fn process_erc721_transfers(
    logs: Vec<Log>,
    columns: &mut Erc721TransferColumns,
    schema: &Table,
) -> (r: Result<(), CollectError>)
    requires
        old(columns).n_rows + logs.len() <= u64::MAX,
    ensures
        r == outcome(first_defect(transfer_defects(logs@, *schema))),
        r is Ok ==> final(columns)@ == old(columns)@.append(*schema, erc721_transfer_rows(logs@)),
        r matches Err(error) ==> error.is_fatal() && *final(columns) == *old(columns),
        old(columns)@.wf(*schema) ==> final(columns)@.wf(*schema),
{
    if let Some(error) = find_transfer_defect(&logs, schema) {
        return Err(error);
    }
    proof {
        lemma_defect_free(transfer_defects(logs@, *schema));
    }
    let mut i: usize = 0;
    while i < logs.len()
        invariant
            i <= logs@.len(),
            columns.n_rows <= old(columns).n_rows + i,
            old(columns).n_rows + logs.len() <= u64::MAX,
            columns@ == old(columns)@.append(*schema, erc721_transfer_rows(logs@.take(i as int))),
            forall|k: int| 0 <= k < logs@.len() ==> transfer_defects(logs@, *schema)[k] is None,
        decreases logs@.len() - i,
    {
        let log = &logs[i];
        proof {
            assert(logs@.take(i + 1).drop_last() =~= logs@.take(i as int));
            assert(transfer_defects(logs@, *schema)[i as int] is None);
        }
        if log.is_positioned() {
            proof {
                old(columns)@.lemma_append_push(
                    *schema,
                    erc721_transfer_rows(logs@.take(i as int)),
                    erc721_transfer_row(*log),
                );
            }
            store_transfer(log, columns, schema);
        }
        i = i + 1;
    }
    proof {
        assert(logs@.take(i as int) =~= logs@);
        old(columns)@.lemma_append(*schema, erc721_transfer_rows(logs@));
    }
    Ok(())
}

/// The data kind of ERC-721 transfers.
pub struct Erc721Transfers;

/// Appends the rows of a list of logs under the guard of the table that the
/// registry holds for ERC-721 transfers.
pub fn transform_erc721_transfers(
    response: Vec<Log>,
    columns: &mut Erc721TransferColumns,
    schemas: &Schemas,
) -> (r: Result<(), CollectError>)
    requires
        schemas@.contains_key(Datatype::Erc721Transfers),
        old(columns).n_rows + response.len() <= u64::MAX,
    ensures
        r == outcome(
            first_defect(transfer_defects(response@, schemas@[Datatype::Erc721Transfers])),
        ),
        r matches Err(error) ==> error.is_fatal() && *final(columns) == *old(columns),
        r is Ok ==> final(columns)@ == old(columns)@.append(
            schemas@[Datatype::Erc721Transfers],
            erc721_transfer_rows(response@),
        ),
        old(columns)@.wf(schemas@[Datatype::Erc721Transfers]) ==> final(columns)@.wf(
            schemas@[Datatype::Erc721Transfers],
        ),
{
    process_erc721_transfers(
        response,
        columns,
        schemas.get(Datatype::Erc721Transfers).unwrap(),
    )
}

impl CollectByBlock for Erc721Transfers {
    type Response = Vec<Log>;

    type Columns = Erc721TransferColumns;

    open spec fn datatype() -> Datatype {
        Datatype::Erc721Transfers
    }

    open spec fn admits(response: Vec<Log>, columns: Erc721TransferColumns) -> bool {
        columns.n_rows + response.len() <= u64::MAX
    }

    open spec fn defect(response: Vec<Log>, schema: Table) -> Option<CollectError> {
        first_defect(transfer_defects(response@, schema))
    }

    open spec fn appended(
        before: Erc721TransferColumns,
        after: Erc721TransferColumns,
        response: Vec<Log>,
        schema: Table,
    ) -> bool {
        after@ == before@.append(schema, erc721_transfer_rows(response@))
    }

    open spec fn columns_wf(columns: Erc721TransferColumns, schema: Table) -> bool {
        columns@.wf(schema)
    }

    fn kind() -> (r: Datatype) {
        Datatype::Erc721Transfers
    }

    fn fits(response: &Vec<Log>, columns: &Erc721TransferColumns) -> (r: bool) {
        has_room_for(columns.n_rows, response.len())
    }

    fn block_parameters() -> (r: Vec<ChunkDim>)
        ensures
            r@ == seq![ChunkDim::BlockNumber],
    {
        vec![ChunkDim::BlockNumber]
    }

    fn transform(
        response: Vec<Log>,
        columns: &mut Erc721TransferColumns,
        schemas: &Schemas,
    ) -> (r: Result<(), CollectError>) {
        transform_erc721_transfers(response, columns, schemas)
    }
}

impl CollectByTransaction for Erc721Transfers {
    type Response = Vec<Log>;

    type Columns = Erc721TransferColumns;

    open spec fn datatype() -> Datatype {
        Datatype::Erc721Transfers
    }

    open spec fn admits(response: Vec<Log>, columns: Erc721TransferColumns) -> bool {
        columns.n_rows + response.len() <= u64::MAX
    }

    open spec fn defect(response: Vec<Log>, schema: Table) -> Option<CollectError> {
        first_defect(transfer_defects(response@, schema))
    }

    open spec fn appended(
        before: Erc721TransferColumns,
        after: Erc721TransferColumns,
        response: Vec<Log>,
        schema: Table,
    ) -> bool {
        after@ == before@.append(schema, erc721_transfer_rows(response@))
    }

    open spec fn columns_wf(columns: Erc721TransferColumns, schema: Table) -> bool {
        columns@.wf(schema)
    }

    fn kind() -> (r: Datatype) {
        Datatype::Erc721Transfers
    }

    fn fits(response: &Vec<Log>, columns: &Erc721TransferColumns) -> (r: bool) {
        has_room_for(columns.n_rows, response.len())
    }

    fn transaction_parameters() -> (r: Vec<ChunkDim>)
        ensures
            r@ == seq![ChunkDim::TransactionHash],
    {
        vec![ChunkDim::TransactionHash]
    }

    fn transform(
        response: Vec<Log>,
        columns: &mut Erc721TransferColumns,
        schemas: &Schemas,
    ) -> (r: Result<(), CollectError>) {
        transform_erc721_transfers(response, columns, schemas)
    }
}

} // verus!
