use cryo_freeze::chain::Log;
use cryo_freeze::collectors::logs::{
    merge_event_param, merge_event_params, transform_logs, EventColumn,
};
use cryo_freeze::{
    process_logs, CollectByBlock, CollectByTransaction, CollectError, ColumnEncoding, Datatype,
    LogColumns, LogDecoder, Logs, Schemas, Table, U256Type, U256,
};
use ethers_core::abi::{Event, EventParam, ParamType, Token};

const TRANSFER: [u8; 32] = [
    0xdd, 0xf2, 0x52, 0xad, 0x1b, 0xe2, 0xc8, 0x9b, 0x69, 0xc2, 0xb0, 0x68, 0xfc, 0x37, 0x8d, 0xaa,
    0x95, 0x2b, 0xa7, 0xf1, 0x63, 0xc4, 0xa1, 0x16, 0x28, 0xf5, 0x5a, 0x4d, 0xf5, 0x23, 0xb3, 0xef,
];

const ALL: [&str; 10] = [
    "block_number",
    "transaction_index",
    "log_index",
    "transaction_hash",
    "address",
    "topic0",
    "topic1",
    "topic2",
    "topic3",
    "data",
];

fn table(names: &[&str]) -> Table {
    let mut table = Table::new(Datatype::Logs);
    for name in names {
        assert!(table.add_column(name, ColumnEncoding::Binary, U256Type::Binary));
    }
    table
}

fn log(topics: Vec<[u8; 32]>, data: Vec<u8>) -> Log {
    Log {
        address: [0x72; 20],
        topics,
        data,
        block_number: Some(5),
        transaction_hash: Some([0x33; 32]),
        transaction_index: Some(2),
        log_index: Some(U256::from_u64(11)),
    }
}

fn padded(address: u8) -> [u8; 32] {
    let mut topic = [0u8; 32];
    for byte in topic.iter_mut().skip(12) {
        *byte = address;
    }
    topic
}

fn amount(x: u8) -> Vec<u8> {
    let mut word = vec![0u8; 32];
    word[31] = x;
    word
}

fn transfer_event() -> LogDecoder {
    let param = |name: &str, kind: ParamType, indexed: bool| EventParam {
        name: name.to_string(),
        kind,
        indexed,
    };
    LogDecoder {
        raw: "event Transfer(address indexed from, address indexed to, uint256 value)".to_string(),
        event: Event {
            name: "Transfer".to_string(),
            inputs: vec![
                param("from", ParamType::Address, true),
                param("to", ParamType::Address, true),
                param("value", ParamType::Uint(256), false),
            ],
            anonymous: false,
        },
    }
}

fn address_token(address: u8) -> Token {
    Token::Address(ethers_core::types::H160([address; 20]))
}

fn uint_token(x: u64) -> Token {
    Token::Uint(ethers_core::types::U256::from(x))
}

fn names(columns: &[EventColumn]) -> Vec<&str> {
    columns.iter().map(|column| column.name.as_str()).collect()
}

#[test]
fn topics_are_stored_by_position() {
    let schema = table(&ALL);
    let logs = vec![
        log(vec![], vec![1]),
        log(vec![[1; 32], [2; 32]], vec![]),
        log(vec![[3; 32], [4; 32], [5; 32], [6; 32]], vec![7, 8]),
    ];
    let mut columns = LogColumns::new();
    assert_eq!(process_logs(logs, &mut columns, &schema), Ok(()));
    assert_eq!(columns.n_rows, 3);
    assert_eq!(columns.topic0, vec![None, Some(vec![1u8; 32]), Some(vec![3; 32])]);
    assert_eq!(columns.topic1, vec![None, Some(vec![2u8; 32]), Some(vec![4; 32])]);
    assert_eq!(columns.topic2, vec![None, None, Some(vec![5u8; 32])]);
    assert_eq!(columns.topic3, vec![None, None, Some(vec![6u8; 32])]);
    assert_eq!(columns.data, vec![vec![1u8], vec![], vec![7, 8]]);
    assert_eq!(columns.block_number, vec![5, 5, 5]);
    assert_eq!(columns.transaction_index, vec![2, 2, 2]);
    assert_eq!(columns.log_index, vec![11, 11, 11]);
    assert_eq!(columns.transaction_hash, vec![vec![0x33u8; 32]; 3]);
    assert_eq!(columns.address, vec![vec![0x72u8; 20]; 3]);
    assert!(columns.event_cols.is_empty());
}

#[test]
fn a_fifth_topic_is_not_stored() {
    let schema = table(&["topic3"]);
    let logs = vec![log(vec![[1; 32], [2; 32], [3; 32], [4; 32], [5; 32]], vec![])];
    let mut columns = LogColumns::new();
    assert_eq!(process_logs(logs, &mut columns, &schema), Ok(()));
    assert_eq!(columns.topic3, vec![Some(vec![4u8; 32])]);
}

#[test]
fn logs_missing_a_position_give_no_row() {
    let schema = table(&["log_index", "data"]);
    let mut pending = log(vec![], vec![1]);
    pending.block_number = None;
    let mut unhashed = log(vec![], vec![2]);
    unhashed.transaction_hash = None;
    let mut unplaced = log(vec![], vec![3]);
    unplaced.transaction_index = None;
    let mut unindexed = log(vec![], vec![4]);
    unindexed.log_index = None;
    let logs = vec![pending, log(vec![], vec![5]), unhashed, unplaced, unindexed];
    let mut columns = LogColumns::new();
    assert_eq!(process_logs(logs, &mut columns, &schema), Ok(()));
    assert_eq!(columns.n_rows, 1);
    assert_eq!(columns.data, vec![vec![5u8]]);
    assert_eq!(columns.log_index, vec![11]);
    assert!(columns.topic0.is_empty());
}

#[test]
fn a_log_index_beyond_32_bits_is_fatal_where_its_column_is_active() {
    let mut far = log(vec![], vec![]);
    far.log_index = Some(U256 { limbs: [1, 1, 0, 0] });
    let mut columns = LogColumns::new();
    assert_eq!(
        process_logs(vec![log(vec![], vec![]), far.clone()], &mut columns, &table(&["log_index"])),
        Err(CollectError::IntegerOverflow)
    );
    assert_eq!(columns.n_rows, 0);
    assert!(columns.log_index.is_empty());
    assert_eq!(process_logs(vec![far], &mut columns, &table(&["block_number"])), Ok(()));
    assert_eq!(columns.block_number, vec![5]);
}

#[test]
fn decoded_arguments_become_event_columns() {
    let mut schema = table(&["data"]);
    schema.log_decoder = Some(transfer_event());
    let logs = vec![
        log(vec![TRANSFER, padded(0xAA), padded(0xBB)], amount(100)),
        log(vec![[0x01; 32], padded(0x01), padded(0x02)], amount(1)),
        log(vec![TRANSFER, padded(0xCC), padded(0xDD)], amount(7)),
    ];
    let mut columns = LogColumns::new();
    assert_eq!(process_logs(logs, &mut columns, &schema), Ok(()));
    assert_eq!(columns.n_rows, 3);
    assert_eq!(names(&columns.event_cols), vec!["from", "to", "value"]);
    assert_eq!(columns.event_cols[0].values, vec![address_token(0xAA), address_token(0xCC)]);
    assert_eq!(columns.event_cols[1].values, vec![address_token(0xBB), address_token(0xDD)]);
    assert_eq!(columns.event_cols[2].values, vec![uint_token(100), uint_token(7)]);
}

#[test]
fn event_columns_grow_over_several_chunks() {
    let mut schema = table(&[]);
    schema.log_decoder = Some(transfer_event());
    let mut columns = LogColumns::new();
    let first = vec![log(vec![TRANSFER, padded(0xAA), padded(0xBB)], amount(1))];
    let second = vec![log(vec![TRANSFER, padded(0xCC), padded(0xDD)], amount(2))];
    assert_eq!(process_logs(first, &mut columns, &schema), Ok(()));
    assert_eq!(process_logs(second, &mut columns, &schema), Ok(()));
    assert_eq!(names(&columns.event_cols), vec!["from", "to", "value"]);
    assert_eq!(columns.event_cols[2].values, vec![uint_token(1), uint_token(2)]);
    assert_eq!(columns.n_rows, 2);
}

#[test]
fn event_columns_are_complete_when_every_row_was_decoded() {
    let mut schema = table(&["data"]);
    schema.log_decoder = Some(transfer_event());
    let mut columns = LogColumns::new();
    assert!(columns.event_columns_complete());
    let first = vec![log(vec![TRANSFER, padded(0xAA), padded(0xBB)], amount(1))];
    assert_eq!(process_logs(first, &mut columns, &schema), Ok(()));
    assert!(columns.event_columns_complete());
    let second = vec![log(vec![[0x02; 32]], amount(2))];
    assert_eq!(process_logs(second, &mut columns, &schema), Ok(()));
    assert_eq!(columns.n_rows, 2);
    assert!(!columns.event_columns_complete());
}

#[test]
fn a_log_without_a_position_is_still_decoded() {
    let mut schema = table(&["data"]);
    schema.log_decoder = Some(transfer_event());
    let mut pending = log(vec![TRANSFER, padded(0xAA), padded(0xBB)], amount(3));
    pending.block_number = None;
    let mut columns = LogColumns::new();
    assert_eq!(process_logs(vec![pending], &mut columns, &schema), Ok(()));
    assert_eq!(columns.n_rows, 0);
    assert!(columns.data.is_empty());
    assert_eq!(columns.event_cols[2].values, vec![uint_token(3)]);
}

#[test]
fn the_decoder_reads_each_log_that_fits() {
    let decoder = transfer_event();
    let logs = vec![
        log(vec![TRANSFER, padded(0xAA)], amount(100)),
        log(vec![TRANSFER, padded(0xAA), padded(0xBB)], amount(100)),
        log(vec![], vec![]),
    ];
    let params = decoder.parse_log_from_event(&logs);
    assert_eq!(
        params,
        vec![
            ("from".to_string(), address_token(0xAA)),
            ("to".to_string(), address_token(0xBB)),
            ("value".to_string(), uint_token(100)),
        ]
    );
}

#[test]
fn a_value_joins_the_column_of_its_name() {
    let mut columns =
        vec![EventColumn { name: "a".to_string(), values: vec![uint_token(1)] }];
    merge_event_param(&mut columns, "b".to_string(), uint_token(2));
    merge_event_param(&mut columns, "a".to_string(), uint_token(3));
    assert_eq!(names(&columns), vec!["a", "b"]);
    assert_eq!(columns[0].values, vec![uint_token(1), uint_token(3)]);
    assert_eq!(columns[1].values, vec![uint_token(2)]);
    merge_event_params(
        &mut columns,
        vec![
            ("c".to_string(), uint_token(4)),
            ("b".to_string(), uint_token(5)),
            ("c".to_string(), uint_token(6)),
        ],
    );
    assert_eq!(names(&columns), vec!["a", "b", "c"]);
    assert_eq!(columns[1].values, vec![uint_token(2), uint_token(5)]);
    assert_eq!(columns[2].values, vec![uint_token(4), uint_token(6)]);
}

#[test]
fn logs_are_transformed_under_their_table() {
    let mut schemas = Schemas::new();
    assert_eq!(<Logs as CollectByBlock>::kind(), Datatype::Logs);
    assert_eq!(<Logs as CollectByTransaction>::kind(), Datatype::Logs);
    assert!(schemas.get(<Logs as CollectByBlock>::kind()).is_none());
    assert!(CollectError::MissingSchema(Datatype::Logs).is_fatal());
    let mut columns = LogColumns::new();
    schemas.insert(table(&["address"]));
    assert_eq!(transform_logs(vec![log(vec![], vec![])], &mut columns, &schemas), Ok(()));
    assert_eq!(
        <Logs as CollectByBlock>::transform(vec![log(vec![], vec![])], &mut columns, &schemas),
        Ok(())
    );
    assert_eq!(columns.address, vec![vec![0x72u8; 20]; 2]);
}
