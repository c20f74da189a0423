use cryo_freeze::chain::{
    Action, Call, CallResult, Create, CreateResult, Res, Reward, Suicide, Trace,
};
use cryo_freeze::collectors::contracts::transform_contracts;
use cryo_freeze::{
    filter_failed_traces, process_contracts, CollectByBlock, CollectByTransaction, CollectError,
    ColumnEncoding, Contracts, Datatype, Schemas, Table, TraceColumns, U256Type, U256,
};

const ALL: [&str; 10] = [
    "block_number",
    "create_index",
    "transaction_hash",
    "contract_address",
    "deployer",
    "factory",
    "init_code",
    "code",
    "init_code_hash",
    "code_hash",
];

// Keccak-256 of the empty byte string.
const KECCAK_EMPTY: [u8; 32] = [
    0xc5, 0xd2, 0x46, 0x01, 0x86, 0xf7, 0x23, 0x3c, 0x92, 0x7e, 0x7d, 0xb2, 0xdc, 0xc7, 0x03, 0xc0,
    0xe5, 0x00, 0xb6, 0x53, 0xca, 0x82, 0x27, 0x3b, 0x7b, 0xfa, 0xd8, 0x04, 0x5d, 0x85, 0xa4, 0x70,
];

// Keccak-256 of the three bytes "abc".
const KECCAK_ABC: [u8; 32] = [
    0x4e, 0x03, 0x65, 0x7a, 0xea, 0x45, 0xa9, 0x4f, 0xc7, 0xd4, 0x7b, 0xa8, 0x26, 0xc8, 0xd6, 0x67,
    0xc0, 0xd1, 0xe6, 0xe3, 0x3a, 0x64, 0xa0, 0x36, 0xec, 0x44, 0xf5, 0x8f, 0xa1, 0x2d, 0x6c, 0x45,
];

fn table(names: &[&str]) -> Table {
    let mut table = Table::new(Datatype::Contracts);
    for name in names {
        assert!(table.add_column(name, ColumnEncoding::Binary, U256Type::Binary));
    }
    table
}

fn trace(action: Action, result: Option<Res>, path: Vec<usize>) -> Trace {
    Trace {
        action,
        result,
        trace_address: path,
        transaction_position: Some(0),
        transaction_hash: Some([9u8; 32]),
        block_number: 100,
        error: None,
    }
}

fn call(from: u8, path: Vec<usize>) -> Trace {
    trace(
        Action::Call(Call { from: [from; 20], to: [0xEE; 20], value: U256::zero() }),
        Some(Res::Call(CallResult { gas_used: U256::zero(), output: vec![] })),
        path,
    )
}

fn create(from: u8, address: u8, init: Vec<u8>, code: Vec<u8>, path: Vec<usize>) -> Trace {
    trace(
        Action::Create(Create { from: [from; 20], value: U256::zero(), init }),
        Some(Res::Create(CreateResult { gas_used: U256::zero(), code, address: [address; 20] })),
        path,
    )
}

fn failed(mut trace: Trace) -> Trace {
    trace.error = Some("Reverted".to_string());
    trace
}

#[test]
fn nested_creations_report_the_root_caller_as_deployer() {
    let schema = table(&["deployer", "factory", "contract_address", "create_index"]);
    let traces = vec![
        call(0xA0, vec![]),
        create(0xF1, 0xC1, vec![], vec![], vec![0]),
        create(0xF2, 0xC2, vec![], vec![], vec![0, 0]),
    ];
    let mut columns = TraceColumns::new();
    process_contracts(traces, &mut columns, &schema);
    assert_eq!(columns.n_rows, 2);
    assert_eq!(columns.deployer, vec![vec![0xA0; 20], vec![0xA0; 20]]);
    assert_eq!(columns.factory, vec![vec![0xF1; 20], vec![0xF2; 20]]);
    assert_eq!(columns.contract_address, vec![vec![0xC1; 20], vec![0xC2; 20]]);
    assert_eq!(columns.create_index, vec![0, 1]);
}

#[test]
fn the_deployer_resets_at_every_root_trace() {
    let schema = table(&["deployer"]);
    let suicide = trace(
        Action::Suicide(Suicide {
            address: [0x01; 20],
            refund_address: [0x5E; 20],
            balance: U256::zero(),
        }),
        None,
        vec![],
    );
    let reward = trace(
        Action::Reward(Reward { author: [0x4E; 20], value: U256::zero() }),
        None,
        vec![],
    );
    let traces = vec![
        create(0xD1, 0xC1, vec![], vec![], vec![]),
        suicide,
        create(0xF2, 0xC2, vec![], vec![], vec![0]),
        reward,
        create(0xF3, 0xC3, vec![], vec![], vec![0]),
        call(0xA4, vec![]),
        create(0xF4, 0xC4, vec![], vec![], vec![1]),
    ];
    let mut columns = TraceColumns::new();
    process_contracts(traces, &mut columns, &schema);
    assert_eq!(
        columns.deployer,
        vec![vec![0xD1; 20], vec![0x5E; 20], vec![0x4E; 20], vec![0xA4; 20]]
    );
}

#[test]
fn a_creation_before_any_root_trace_has_the_zero_deployer() {
    let schema = table(&["deployer"]);
    let mut columns = TraceColumns::new();
    process_contracts(vec![create(0xF1, 0xC1, vec![], vec![], vec![2])], &mut columns, &schema);
    assert_eq!(columns.deployer, vec![vec![0u8; 20]]);
}

#[test]
fn hashes_are_derived_from_init_code_and_code() {
    let schema = table(&ALL);
    let traces = vec![create(0xF1, 0xC1, vec![], b"abc".to_vec(), vec![])];
    let mut columns = TraceColumns::new();
    process_contracts(traces, &mut columns, &schema);
    assert_eq!(columns.n_rows, 1);
    assert_eq!(columns.block_number, vec![100]);
    assert_eq!(columns.create_index, vec![0]);
    assert_eq!(columns.transaction_hash, vec![Some(vec![9u8; 32])]);
    assert_eq!(columns.init_code, vec![Vec::<u8>::new()]);
    assert_eq!(columns.code, vec![b"abc".to_vec()]);
    assert_eq!(columns.init_code_hash, vec![KECCAK_EMPTY.to_vec()]);
    assert_eq!(columns.code_hash, vec![KECCAK_ABC.to_vec()]);
}

#[test]
fn only_creations_with_a_creation_result_give_rows() {
    let schema = table(&["create_index", "contract_address"]);
    let mut unfinished = create(0xF1, 0xC1, vec![], vec![], vec![0]);
    unfinished.result = None;
    let mut miscast = create(0xF1, 0xC2, vec![], vec![], vec![1]);
    miscast.result = Some(Res::Call(CallResult { gas_used: U256::zero(), output: vec![] }));
    let traces = vec![
        call(0xA0, vec![]),
        unfinished,
        miscast,
        create(0xF1, 0xC3, vec![], vec![], vec![2]),
        call(0xA0, vec![3]),
        create(0xF1, 0xC4, vec![], vec![], vec![4]),
    ];
    let mut columns = TraceColumns::new();
    process_contracts(traces, &mut columns, &schema);
    assert_eq!(columns.n_rows, 2);
    assert_eq!(columns.create_index, vec![0, 1]);
    assert_eq!(columns.contract_address, vec![vec![0xC3; 20], vec![0xC4; 20]]);
}

#[test]
fn failed_traces_and_what_sits_below_them_are_removed() {
    let traces = vec![
        call(0x01, vec![]),
        failed(call(0x02, vec![0])),
        call(0x03, vec![0, 0]),
        call(0x04, vec![0, 1]),
        call(0x05, vec![1]),
        failed(call(0x06, vec![])),
        call(0x07, vec![0]),
        call(0x08, vec![]),
        call(0x09, vec![0]),
    ];
    let kept = filter_failed_traces(traces);
    let froms: Vec<u8> = kept
        .iter()
        .map(|trace| match &trace.action {
            Action::Call(call) => call.from[0],
            _ => unreachable!(),
        })
        .collect();
    assert_eq!(froms, vec![0x01, 0x05, 0x08, 0x09]);
}

#[test]
fn a_failure_ends_where_the_traces_leave_its_subtree() {
    let traces = vec![
        call(0x01, vec![]),
        failed(call(0x02, vec![0, 1])),
        call(0x03, vec![0, 1, 0]),
        call(0x04, vec![0, 2]),
        call(0x05, vec![0, 1]),
    ];
    let kept = filter_failed_traces(traces);
    assert_eq!(kept.len(), 3);
    assert_eq!(kept[1].trace_address, vec![0, 2]);
    assert_eq!(kept[2].trace_address, vec![0, 1]);
}

#[test]
fn creations_under_a_failed_call_give_no_rows() {
    let schema = table(&["contract_address"]);
    let traces = vec![
        call(0xA0, vec![]),
        failed(call(0xA1, vec![0])),
        create(0xF1, 0xC1, vec![], vec![], vec![0, 0]),
        create(0xF1, 0xC2, vec![], vec![], vec![1]),
        failed(create(0xF1, 0xC3, vec![], vec![], vec![2])),
    ];
    let mut columns = TraceColumns::new();
    process_contracts(traces, &mut columns, &schema);
    assert_eq!(columns.contract_address, vec![vec![0xC2; 20]]);
    assert_eq!(columns.n_rows, 1);
}

#[test]
fn contract_columns_follow_the_schema() {
    let schema = table(&["code"]);
    let traces = vec![create(0xF1, 0xC1, vec![1], vec![2], vec![])];
    let mut columns = TraceColumns::new();
    process_contracts(traces, &mut columns, &schema);
    assert_eq!(columns.n_rows, 1);
    assert_eq!(columns.code, vec![vec![2u8]]);
    assert!(columns.block_number.is_empty());
    assert!(columns.create_index.is_empty());
    assert!(columns.transaction_hash.is_empty());
    assert!(columns.contract_address.is_empty());
    assert!(columns.deployer.is_empty());
    assert!(columns.factory.is_empty());
    assert!(columns.init_code.is_empty());
    assert!(columns.init_code_hash.is_empty());
    assert!(columns.code_hash.is_empty());
}

#[test]
fn the_row_counter_must_have_room_for_every_trace() {
    let traces = vec![call(0xA0, vec![]), call(0xA1, vec![])];
    let mut columns = TraceColumns::new();
    assert!(<Contracts as CollectByBlock>::fits(&traces, &columns));
    columns.n_rows = u64::MAX - 2;
    assert!(<Contracts as CollectByTransaction>::fits(&traces, &columns));
    columns.n_rows = u64::MAX - 1;
    assert!(!<Contracts as CollectByBlock>::fits(&traces, &columns));
}

#[test]
fn contracts_are_transformed_under_their_own_table() {
    let mut schemas = Schemas::new();
    schemas.insert(Table::new(Datatype::Traces));
    assert_eq!(<Contracts as CollectByBlock>::kind(), Datatype::Contracts);
    assert_eq!(<Contracts as CollectByTransaction>::kind(), Datatype::Contracts);
    assert!(schemas.get(<Contracts as CollectByBlock>::kind()).is_none());
    assert!(CollectError::MissingSchema(Datatype::Contracts).is_fatal());
    let mut columns = TraceColumns::new();
    schemas.insert(table(&["factory"]));
    let traces = vec![create(0xF1, 0xC1, vec![], vec![], vec![])];
    transform_contracts(traces, &mut columns, &schemas);
    let traces = vec![create(0xF2, 0xC2, vec![], vec![], vec![])];
    assert_eq!(<Contracts as CollectByBlock>::transform(traces, &mut columns, &schemas), Ok(()));
    assert_eq!(columns.factory, vec![vec![0xF1; 20], vec![0xF2; 20]]);
}

#[test]
fn every_stored_hash_has_32_bytes() {
    let schema = table(&["init_code_hash", "code_hash"]);
    let traces = vec![
        create(0xF1, 0xC1, vec![1; 100], vec![], vec![]),
        create(0xF1, 0xC2, vec![], vec![2; 3], vec![0]),
    ];
    let mut columns = TraceColumns::new();
    process_contracts(traces, &mut columns, &schema);
    assert_eq!(columns.init_code_hash.len(), 2);
    assert_eq!(columns.code_hash.len(), 2);
    assert!(columns.init_code_hash.iter().all(|hash| hash.len() == 32));
    assert!(columns.code_hash.iter().all(|hash| hash.len() == 32));
    assert_eq!(columns.init_code_hash[1], KECCAK_EMPTY.to_vec());
    assert_eq!(columns.code_hash[0], KECCAK_EMPTY.to_vec());
    assert_ne!(columns.init_code_hash[0], columns.code_hash[1]);
}
