use cryo_freeze::chain::{
    Action, Call, CallResult, Create, CreateResult, Res, Reward, Suicide, Trace,
};
use cryo_freeze::collectors::native_transfers::{
    find_native_transfer_defect, transform_native_transfers,
};
use cryo_freeze::{
    process_native_transfers, ChunkDim, CollectByBlock, CollectByTransaction, CollectError,
    ColumnEncoding,
    Datatype, NativeTransferColumns, NativeTransfers, Schemas, Table, U256Type, U256,
};

const ALL: [&str; 7] = [
    "block_number",
    "transaction_index",
    "transfer_index",
    "transaction_hash",
    "from_address",
    "to_address",
    "value",
];

fn table(names: &[&str]) -> Table {
    let mut table = Table::new(Datatype::NativeTransfers);
    for name in names {
        assert!(table.add_column(name, ColumnEncoding::Binary, U256Type::Binary));
    }
    table
}

fn trace(action: Action, result: Option<Res>) -> Trace {
    Trace {
        action,
        result,
        trace_address: vec![],
        transaction_position: Some(3),
        transaction_hash: Some([7u8; 32]),
        block_number: 12,
        error: None,
    }
}

fn word(x: u8) -> Vec<u8> {
    let mut bytes = vec![0u8; 32];
    bytes[31] = x;
    bytes
}

fn call() -> Trace {
    trace(
        Action::Call(Call { from: [0xAA; 20], to: [0xBB; 20], value: U256::from_u64(100) }),
        Some(Res::Call(CallResult { gas_used: U256::zero(), output: vec![] })),
    )
}

fn reward() -> Trace {
    trace(Action::Reward(Reward { author: [0xCC; 20], value: U256::from_u64(5) }), None)
}

fn create(result: Option<Res>) -> Trace {
    trace(
        Action::Create(Create { from: [0x11; 20], value: U256::from_u64(9), init: vec![1, 2, 3] }),
        result,
    )
}

fn suicide() -> Trace {
    trace(
        Action::Suicide(Suicide {
            address: [0x21; 20],
            refund_address: [0x22; 20],
            balance: U256::from_u64(77),
        }),
        None,
    )
}

#[test]
fn call_and_reward_yield_two_rows() {
    let schema = table(&["from_address", "to_address", "value"]);
    let mut columns = NativeTransferColumns::new();
    process_native_transfers(vec![call(), reward()], &mut columns, &schema);
    assert_eq!(columns.n_rows, 2);
    assert_eq!(columns.from_address, vec![vec![0xAA; 20], vec![0x00; 20]]);
    assert_eq!(columns.to_address, vec![vec![0xBB; 20], vec![0xCC; 20]]);
    assert_eq!(columns.value, vec![word(100), word(5)]);
}

#[test]
fn every_trace_yields_one_row_whatever_its_action() {
    let schema = table(&ALL);
    let created = Res::Create(CreateResult {
        gas_used: U256::zero(),
        code: vec![0x60],
        address: [0x12; 20],
    });
    let traces = vec![call(), create(Some(created)), suicide(), reward()];
    let mut columns = NativeTransferColumns::new();
    process_native_transfers(traces, &mut columns, &schema);
    assert_eq!(columns.n_rows, 4);
    assert_eq!(columns.transfer_index, vec![0, 1, 2, 3]);
    assert_eq!(columns.block_number, vec![12, 12, 12, 12]);
    assert_eq!(columns.transaction_index, vec![Some(3); 4]);
    assert_eq!(columns.transaction_hash, vec![Some(vec![7u8; 32]); 4]);
    assert_eq!(
        columns.from_address,
        vec![vec![0xAA; 20], vec![0x11; 20], vec![0x21; 20], vec![0x00; 20]]
    );
    assert_eq!(
        columns.to_address,
        vec![vec![0xBB; 20], vec![0x12; 20], vec![0x22; 20], vec![0xCC; 20]]
    );
    assert_eq!(columns.value, vec![word(100), word(9), word(77), word(5)]);
}

#[test]
fn inactive_columns_stay_empty() {
    let schema = table(&["value"]);
    let mut columns = NativeTransferColumns::new();
    process_native_transfers(vec![call(), reward()], &mut columns, &schema);
    assert_eq!(columns.n_rows, 2);
    assert_eq!(columns.value.len(), 2);
    assert!(columns.block_number.is_empty());
    assert!(columns.transaction_index.is_empty());
    assert!(columns.transfer_index.is_empty());
    assert!(columns.transaction_hash.is_empty());
    assert!(columns.from_address.is_empty());
    assert!(columns.to_address.is_empty());
}

#[test]
fn active_columns_keep_pace_with_the_row_counter() {
    let schema = table(&ALL);
    let mut columns = NativeTransferColumns::new();
    process_native_transfers(vec![call()], &mut columns, &schema);
    process_native_transfers(vec![reward(), suicide()], &mut columns, &schema);
    assert_eq!(columns.n_rows, 3);
    assert_eq!(columns.block_number.len(), 3);
    assert_eq!(columns.transaction_index.len(), 3);
    assert_eq!(columns.transfer_index, vec![0, 0, 1]);
    assert_eq!(columns.transaction_hash.len(), 3);
    assert_eq!(columns.from_address.len(), 3);
    assert_eq!(columns.to_address.len(), 3);
    assert_eq!(columns.value.len(), 3);
}

#[test]
fn a_creation_without_result_is_not_taken() {
    let traces = vec![call(), create(None)];
    assert_eq!(find_native_transfer_defect(&traces), Some(CollectError::MissingTraceResult));
    assert!(CollectError::MissingTraceResult.is_fatal());
    let columns = NativeTransferColumns::new();
    assert!(!<NativeTransfers as CollectByBlock>::fits(&traces, &columns));
    assert!(!<NativeTransfers as CollectByTransaction>::fits(&traces, &columns));
}

#[test]
fn a_creation_with_another_result_is_not_taken() {
    let wrong = Res::Call(CallResult { gas_used: U256::zero(), output: vec![] });
    assert_eq!(
        find_native_transfer_defect(&vec![create(Some(wrong))]),
        Some(CollectError::MissingCreateResult)
    );
    assert_eq!(
        find_native_transfer_defect(&vec![create(Some(Res::Empty))]),
        Some(CollectError::MissingCreateResult)
    );
    assert!(CollectError::MissingCreateResult.is_fatal());
}

#[test]
fn the_first_malformed_creation_is_reported() {
    let wrong = Res::Call(CallResult { gas_used: U256::zero(), output: vec![] });
    let traces = vec![call(), create(Some(wrong)), create(None)];
    assert_eq!(find_native_transfer_defect(&traces), Some(CollectError::MissingCreateResult));
}

#[test]
fn traces_whose_creations_have_results_are_taken() {
    let created = Res::Create(CreateResult {
        gas_used: U256::zero(),
        code: vec![],
        address: [0x12; 20],
    });
    let traces = vec![call(), create(Some(created)), suicide(), reward()];
    assert_eq!(find_native_transfer_defect(&traces), None);
    assert_eq!(find_native_transfer_defect(&vec![]), None);
    let mut columns = NativeTransferColumns::new();
    assert!(<NativeTransfers as CollectByBlock>::fits(&traces, &columns));
    columns.n_rows = u64::MAX - 3;
    assert!(!<NativeTransfers as CollectByBlock>::fits(&traces, &columns));
}

#[test]
fn numbers_are_narrowed_to_32_bits() {
    let schema = table(&["block_number", "transaction_index"]);
    let mut wide = call();
    wide.block_number = 0x1_0000_0005;
    wide.transaction_position = None;
    let mut columns = NativeTransferColumns::new();
    process_native_transfers(vec![wide], &mut columns, &schema);
    assert_eq!(columns.block_number, vec![5]);
    assert_eq!(columns.transaction_index, vec![None]);
}

#[test]
fn a_registry_without_the_table_is_told_apart_before_the_transformation() {
    let mut schemas = Schemas::new();
    schemas.insert(Table::new(Datatype::Traces));
    assert_eq!(<NativeTransfers as CollectByBlock>::kind(), Datatype::NativeTransfers);
    assert_eq!(<NativeTransfers as CollectByTransaction>::kind(), Datatype::NativeTransfers);
    assert!(schemas.get(<NativeTransfers as CollectByBlock>::kind()).is_none());
    assert!(CollectError::MissingSchema(Datatype::NativeTransfers).is_fatal());
    schemas.insert(table(&["value"]));
    assert!(schemas.get(<NativeTransfers as CollectByBlock>::kind()).is_some());
}

#[test]
fn transform_appends_under_the_registered_table() {
    let mut schemas = Schemas::new();
    schemas.insert(table(&["to_address"]));
    let mut columns = NativeTransferColumns::new();
    transform_native_transfers(vec![suicide()], &mut columns, &schemas);
    let by_block =
        <NativeTransfers as CollectByBlock>::transform(vec![call()], &mut columns, &schemas);
    assert_eq!(by_block, Ok(()));
    let by_transaction = <NativeTransfers as CollectByTransaction>::transform(
        vec![reward()],
        &mut columns,
        &schemas,
    );
    assert_eq!(by_transaction, Ok(()));
    assert_eq!(columns.n_rows, 3);
    assert_eq!(columns.to_address, vec![vec![0x22; 20], vec![0xBB; 20], vec![0xCC; 20]]);
    assert!(columns.from_address.is_empty());
}

#[test]
fn native_transfers_are_cut_along_blocks_and_transactions() {
    assert_eq!(
        <NativeTransfers as CollectByBlock>::block_parameters(),
        vec![ChunkDim::BlockNumber]
    );
    assert_eq!(
        <NativeTransfers as CollectByTransaction>::transaction_parameters(),
        vec![ChunkDim::TransactionHash]
    );
}
