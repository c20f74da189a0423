use cryo_freeze::chain::Log;
use cryo_freeze::collectors::erc721_transfers::{
    event_erc721_transfer, filter_transfer_candidates, has_transfer_shape,
    transform_erc721_transfers,
};
use cryo_freeze::extract::erc721_transfer_filter;
use cryo_freeze::{
    is_erc721_transfer, process_erc721_transfers, CollectByBlock, CollectByTransaction,
    CollectError, ColumnEncoding, Datatype, Erc721TransferColumns, Erc721Transfers, Params,
    Schemas, Table, U256Type, U256,
};

const ALL: [&str; 8] = [
    "block_number",
    "transaction_index",
    "log_index",
    "transaction_hash",
    "erc20",
    "from_address",
    "to_address",
    "token_id",
];

const TRANSFER: [u8; 32] = [
    0xdd, 0xf2, 0x52, 0xad, 0x1b, 0xe2, 0xc8, 0x9b, 0x69, 0xc2, 0xb0, 0x68, 0xfc, 0x37, 0x8d, 0xaa,
    0x95, 0x2b, 0xa7, 0xf1, 0x63, 0xc4, 0xa1, 0x16, 0x28, 0xf5, 0x5a, 0x4d, 0xf5, 0x23, 0xb3, 0xef,
];

fn table(names: &[&str]) -> Table {
    let mut table = Table::new(Datatype::Erc721Transfers);
    for name in names {
        assert!(table.add_column(name, ColumnEncoding::Binary, U256Type::Binary));
    }
    table
}

fn log(topics: Vec<[u8; 32]>, data: Vec<u8>) -> Log {
    Log {
        address: [0x72; 20],
        topics,
        data,
        block_number: Some(5),
        transaction_hash: Some([0x33; 32]),
        transaction_index: Some(2),
        log_index: Some(U256::from_u64(11)),
    }
}

#[test]
fn the_transfer_topic_is_the_digest_of_the_event_signature() {
    assert_eq!(event_erc721_transfer(), TRANSFER);
    let digest = ethers_core::utils::keccak256("Transfer(address,address,uint256)".as_bytes());
    assert_eq!(event_erc721_transfer(), digest);
}

#[test]
fn a_log_with_two_topics_is_excluded() {
    let candidate = log(vec![TRANSFER, [1; 32]], vec![0; 32]);
    assert!(!has_transfer_shape(&candidate));
    assert!(!is_erc721_transfer(&candidate));
}

#[test]
fn a_log_with_33_bytes_of_data_is_excluded() {
    let candidate = log(vec![TRANSFER, [1; 32], [2; 32]], vec![0; 33]);
    assert!(!has_transfer_shape(&candidate));
    assert!(!is_erc721_transfer(&candidate));
}

#[test]
fn a_log_with_three_topics_and_32_bytes_of_data_is_included() {
    let candidate = log(vec![TRANSFER, [1; 32], [2; 32]], vec![0; 32]);
    assert!(has_transfer_shape(&candidate));
    assert!(is_erc721_transfer(&candidate));
}

#[test]
fn a_log_of_another_event_is_no_transfer() {
    let other = log(vec![[0xdd; 32], [1; 32], [2; 32]], vec![0; 32]);
    assert!(has_transfer_shape(&other));
    assert!(!is_erc721_transfer(&other));
    let four = log(vec![TRANSFER, [1; 32], [2; 32], [3; 32]], vec![0; 32]);
    assert!(!is_erc721_transfer(&four));
}

#[test]
fn candidates_are_kept_in_order() {
    let logs = vec![
        log(vec![TRANSFER, [1; 32], [2; 32]], vec![0; 32]),
        log(vec![TRANSFER, [1; 32]], vec![0; 32]),
        log(vec![[0x01; 32], [3; 32], [4; 32]], vec![0; 32]),
        log(vec![TRANSFER, [5; 32], [6; 32]], vec![0; 31]),
        log(vec![TRANSFER, [7; 32], [8; 32]], vec![0; 32]),
    ];
    let by_shape = filter_transfer_candidates(logs.clone(), false);
    assert_eq!(by_shape, vec![logs[0].clone(), logs[2].clone(), logs[4].clone()]);
    let by_topic = filter_transfer_candidates(logs.clone(), true);
    assert_eq!(by_topic, vec![logs[0].clone(), logs[4].clone()]);
}

#[test]
fn the_filter_of_a_block_asks_for_the_transfer_topic() {
    let filter = erc721_transfer_filter(&Params::for_block(44)).unwrap();
    assert_eq!(filter.from_block, 44);
    assert_eq!(filter.to_block, 44);
    assert_eq!(filter.address, None);
    assert_eq!(filter.topics, [Some(TRANSFER), None, None, None]);
    assert_eq!(erc721_transfer_filter(&Params::for_transaction([1; 32])), None);
}

#[test]
fn a_transfer_gives_one_row() {
    let schema = table(&ALL);
    let mut id = vec![0u8; 32];
    id[30] = 0x01;
    id[31] = 0x02;
    let logs = vec![log(vec![TRANSFER, [0xF0; 32], [0x70; 32]], id)];
    let mut columns = Erc721TransferColumns::new();
    assert_eq!(process_erc721_transfers(logs, &mut columns, &schema), Ok(()));
    assert_eq!(columns.n_rows, 1);
    assert_eq!(columns.block_number, vec![5]);
    assert_eq!(columns.transaction_index, vec![2]);
    assert_eq!(columns.log_index, vec![11]);
    assert_eq!(columns.transaction_hash, vec![vec![0x33u8; 32]]);
    assert_eq!(columns.erc20, vec![vec![0x72u8; 20]]);
    assert_eq!(columns.from_address, vec![vec![0xF0u8; 32]]);
    assert_eq!(columns.to_address, vec![vec![0x70u8; 32]]);
    assert_eq!(columns.token_id, vec![U256::from_u64(0x0102)]);
}

#[test]
fn every_candidate_with_a_position_gives_a_row_in_every_active_column() {
    let schema = table(&ALL);
    let logs = vec![
        log(vec![TRANSFER, [1; 32], [2; 32]], vec![0; 32]),
        log(vec![TRANSFER, [3; 32]], vec![0; 32]),
        log(vec![TRANSFER, [4; 32], [5; 32]], vec![9; 32]),
        log(vec![TRANSFER, [6; 32], [7; 32]], vec![0; 31]),
    ];
    let candidates = filter_transfer_candidates(logs, true);
    assert_eq!(candidates.len(), 2);
    let mut columns = Erc721TransferColumns::new();
    assert_eq!(process_erc721_transfers(candidates, &mut columns, &schema), Ok(()));
    assert_eq!(columns.n_rows, 2);
    assert_eq!(columns.block_number.len(), 2);
    assert_eq!(columns.transaction_index.len(), 2);
    assert_eq!(columns.log_index.len(), 2);
    assert_eq!(columns.transaction_hash.len(), 2);
    assert_eq!(columns.erc20.len(), 2);
    assert_eq!(columns.from_address, vec![vec![1u8; 32], vec![4; 32]]);
    assert_eq!(columns.to_address, vec![vec![2u8; 32], vec![5; 32]]);
    assert_eq!(
        columns.token_id,
        vec![U256::zero(), U256 { limbs: [0x0909_0909_0909_0909; 4] }]
    );
}

#[test]
fn inactive_transfer_columns_stay_empty() {
    let schema = table(&["from_address", "to_address", "erc20"]);
    let logs = vec![log(vec![TRANSFER, [0xF0; 32], [0x70; 32]], vec![0; 32])];
    let mut columns = Erc721TransferColumns::new();
    assert_eq!(process_erc721_transfers(logs, &mut columns, &schema), Ok(()));
    assert_eq!(columns.n_rows, 1);
    assert_eq!(columns.from_address, vec![vec![0xF0u8; 32]]);
    assert_eq!(columns.to_address, vec![vec![0x70u8; 32]]);
    assert_eq!(columns.erc20, vec![vec![0x72u8; 20]]);
    assert!(columns.token_id.is_empty());
    assert!(columns.block_number.is_empty());
    assert!(columns.transaction_index.is_empty());
    assert!(columns.log_index.is_empty());
    assert!(columns.transaction_hash.is_empty());
}

#[test]
fn a_log_that_is_no_candidate_fails_where_an_active_column_reads_what_it_lacks() {
    let short = log(vec![TRANSFER, [0xF0; 32]], vec![0; 32]);
    let wordless = log(vec![TRANSFER, [0xF0; 32], [0x70; 32]], vec![0; 31]);
    let long = log(vec![TRANSFER, [0xF0; 32], [0x70; 32]], vec![0; 33]);
    let mut columns = Erc721TransferColumns::new();
    assert_eq!(
        process_erc721_transfers(vec![short.clone()], &mut columns, &table(&["to_address"])),
        Err(CollectError::MissingTopic)
    );
    assert_eq!(
        process_erc721_transfers(
            vec![log(vec![TRANSFER], vec![0; 32])],
            &mut columns,
            &table(&["from_address"])
        ),
        Err(CollectError::MissingTopic)
    );
    assert_eq!(
        process_erc721_transfers(vec![wordless.clone()], &mut columns, &table(&["token_id"])),
        Err(CollectError::MalformedData)
    );
    assert_eq!(
        process_erc721_transfers(vec![long], &mut columns, &table(&["token_id"])),
        Err(CollectError::MalformedData)
    );
    assert_eq!(
        process_erc721_transfers(
            vec![short.clone(), wordless.clone()],
            &mut columns,
            &table(&["to_address", "token_id"])
        ),
        Err(CollectError::MissingTopic)
    );
    assert_eq!(columns.n_rows, 0);
    assert!(columns.to_address.is_empty());
    assert!(columns.token_id.is_empty());
    assert!(CollectError::MissingTopic.is_fatal());
    assert!(CollectError::MalformedData.is_fatal());
    assert_eq!(
        process_erc721_transfers(vec![short, wordless], &mut columns, &table(&["from_address"])),
        Ok(())
    );
    assert_eq!(columns.from_address, vec![vec![0xF0u8; 32]; 2]);
}

#[test]
fn logs_without_a_position_are_passed_over() {
    let schema = table(&["log_index", "token_id"]);
    let mut pending = log(vec![TRANSFER], vec![]);
    pending.block_number = None;
    let mut unindexed = log(vec![TRANSFER, [1; 32], [2; 32]], vec![0; 32]);
    unindexed.log_index = None;
    let mut unhashed = log(vec![TRANSFER, [1; 32], [2; 32]], vec![0; 32]);
    unhashed.transaction_hash = None;
    let mut unplaced = log(vec![TRANSFER, [1; 32], [2; 32]], vec![0; 32]);
    unplaced.transaction_index = None;
    let whole = log(vec![TRANSFER, [1; 32], [2; 32]], vec![0; 32]);
    let logs = vec![pending, unindexed, whole, unhashed, unplaced];
    let mut columns = Erc721TransferColumns::new();
    assert_eq!(process_erc721_transfers(logs, &mut columns, &schema), Ok(()));
    assert_eq!(columns.n_rows, 1);
    assert_eq!(columns.log_index, vec![11]);
    assert_eq!(columns.token_id.len(), 1);
}

#[test]
fn a_position_beyond_32_bits_is_fatal_where_its_column_is_active() {
    let mut far = log(vec![TRANSFER, [1; 32], [2; 32]], vec![0; 32]);
    far.block_number = Some(0x1_0000_0000);
    let mut columns = Erc721TransferColumns::new();
    assert_eq!(
        process_erc721_transfers(vec![far.clone()], &mut columns, &table(&["block_number"])),
        Err(CollectError::IntegerOverflow)
    );
    assert_eq!(columns.n_rows, 0);
    assert_eq!(
        process_erc721_transfers(vec![far], &mut columns, &table(&["transaction_index"])),
        Ok(())
    );
    assert_eq!(columns.n_rows, 1);
    assert_eq!(columns.transaction_index, vec![2]);
}

#[test]
fn erc721_transfers_are_transformed_under_their_table() {
    let mut schemas = Schemas::new();
    assert_eq!(<Erc721Transfers as CollectByBlock>::kind(), Datatype::Erc721Transfers);
    assert_eq!(<Erc721Transfers as CollectByTransaction>::kind(), Datatype::Erc721Transfers);
    assert!(schemas.get(<Erc721Transfers as CollectByBlock>::kind()).is_none());
    assert!(CollectError::MissingSchema(Datatype::Erc721Transfers).is_fatal());
    schemas.insert(table(&ALL));
    let mut columns = Erc721TransferColumns::new();
    let logs = vec![log(vec![TRANSFER, [1; 32], [2; 32]], vec![0; 32])];
    assert_eq!(transform_erc721_transfers(logs.clone(), &mut columns, &schemas), Ok(()));
    assert_eq!(
        <Erc721Transfers as CollectByTransaction>::transform(logs, &mut columns, &schemas),
        Ok(())
    );
    assert_eq!(columns.n_rows, 2);
    assert_eq!(columns.token_id, vec![U256::zero(); 2]);
}
