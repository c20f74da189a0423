use cryo_freeze::chain::Block;
use cryo_freeze::collectors::blocks::{block_missing_field, transform_block};
use cryo_freeze::extract::{found_block, receipt_logs, transaction_block_hash};
use cryo_freeze::{
    process_block, BlockColumns, Blocks, ChunkDim, CollectByBlock, CollectByTransaction,
    CollectError, ColumnEncoding, Datatype, Schemas, Table, U256Type, U256,
};

const ALL: [&str; 14] = [
    "hash",
    "parent_hash",
    "author",
    "state_root",
    "transactions_root",
    "receipts_root",
    "block_number",
    "gas_used",
    "extra_data",
    "logs_bloom",
    "timestamp",
    "total_difficulty",
    "size",
    "base_fee_per_gas",
];

fn table(names: &[&str]) -> Table {
    let mut table = Table::new(Datatype::Blocks);
    for name in names {
        assert!(table.add_column(name, ColumnEncoding::Binary, U256Type::Binary));
    }
    table
}

fn block() -> Block<[u8; 32]> {
    Block {
        hash: Some([1; 32]),
        parent_hash: [2; 32],
        author: Some([3; 20]),
        state_root: [4; 32],
        transactions_root: [5; 32],
        receipts_root: [6; 32],
        number: Some(1_000),
        gas_used: U256::from_u64(21_000),
        extra_data: vec![0xEE, 0xFF],
        logs_bloom: Some([8; 256]),
        timestamp: U256::from_u64(1_600_000_000),
        total_difficulty: Some(U256::from_u64(99)),
        size: Some(U256::from_u64(512)),
        base_fee_per_gas: Some(U256::from_u64(7_000_000_000)),
        transactions: vec![[9; 32]],
    }
}

#[test]
fn a_block_gives_one_row() {
    let schema = table(&ALL);
    let mut columns = BlockColumns::new();
    assert_eq!(process_block(block(), &mut columns, &schema), Ok(()));
    assert_eq!(columns.n_rows, 1);
    assert_eq!(columns.hash, vec![vec![1u8; 32]]);
    assert_eq!(columns.parent_hash, vec![vec![2u8; 32]]);
    assert_eq!(columns.author, vec![vec![3u8; 20]]);
    assert_eq!(columns.state_root, vec![vec![4u8; 32]]);
    assert_eq!(columns.transactions_root, vec![vec![5u8; 32]]);
    assert_eq!(columns.receipts_root, vec![vec![6u8; 32]]);
    assert_eq!(columns.block_number, vec![Some(1_000)]);
    assert_eq!(columns.gas_used, vec![21_000]);
    assert_eq!(columns.extra_data, vec![vec![0xEEu8, 0xFF]]);
    assert_eq!(columns.logs_bloom, vec![Some(vec![8u8; 256])]);
    assert_eq!(columns.timestamp, vec![1_600_000_000]);
    assert_eq!(columns.total_difficulty, vec![Some(U256::from_u64(99))]);
    assert_eq!(columns.size, vec![Some(512)]);
    assert_eq!(columns.base_fee_per_gas, vec![Some(7_000_000_000)]);
}

#[test]
fn optional_fields_may_be_absent() {
    let schema = table(&ALL);
    let mut sparse = block();
    sparse.number = None;
    sparse.logs_bloom = None;
    sparse.total_difficulty = None;
    sparse.size = None;
    sparse.base_fee_per_gas = None;
    let mut columns = BlockColumns::new();
    assert_eq!(process_block(sparse, &mut columns, &schema), Ok(()));
    assert_eq!(columns.n_rows, 1);
    assert_eq!(columns.block_number, vec![None]);
    assert_eq!(columns.logs_bloom, vec![None]);
    assert_eq!(columns.total_difficulty, vec![None]);
    assert_eq!(columns.size, vec![None]);
    assert_eq!(columns.base_fee_per_gas, vec![None]);
}

#[test]
fn a_block_without_hash_is_not_taken() {
    let mut pending = block();
    pending.hash = None;
    pending.author = None;
    assert_eq!(block_missing_field(&pending), Some(CollectError::MissingBlockHash));
    assert!(CollectError::MissingBlockHash.is_fatal());
    let columns = BlockColumns::new();
    assert!(!<Blocks as CollectByBlock>::fits(&pending, &columns));
    assert!(!<Blocks as CollectByTransaction>::fits(&pending, &columns));
}

#[test]
fn a_block_without_author_is_not_taken() {
    let mut pending = block();
    pending.author = None;
    assert_eq!(block_missing_field(&pending), Some(CollectError::MissingAuthor));
    assert!(CollectError::MissingAuthor.is_fatal());
    let columns = BlockColumns::new();
    assert!(!<Blocks as CollectByBlock>::fits(&pending, &columns));
}

#[test]
fn a_complete_block_is_taken_while_the_counter_has_room() {
    assert_eq!(block_missing_field(&block()), None);
    let mut columns = BlockColumns::new();
    assert!(<Blocks as CollectByBlock>::fits(&block(), &columns));
    columns.n_rows = u64::MAX - 1;
    assert!(<Blocks as CollectByBlock>::fits(&block(), &columns));
    columns.n_rows = u64::MAX;
    assert!(!<Blocks as CollectByBlock>::fits(&block(), &columns));
}

#[test]
fn a_number_too_large_for_its_active_column_is_fatal() {
    let mut heavy = block();
    heavy.gas_used = U256::from_u64(0x1_0000_0000);
    let mut columns = BlockColumns::new();
    assert_eq!(
        process_block(heavy.clone(), &mut columns, &table(&["hash", "gas_used"])),
        Err(CollectError::IntegerOverflow)
    );
    assert_eq!(columns.n_rows, 0);
    assert!(columns.hash.is_empty());
    assert_eq!(process_block(heavy, &mut columns, &table(&["hash"])), Ok(()));
    assert_eq!(columns.n_rows, 1);

    let mut late = block();
    late.timestamp = U256 { limbs: [0, 1, 0, 0] };
    assert_eq!(
        process_block(late, &mut columns, &table(&["timestamp"])),
        Err(CollectError::IntegerOverflow)
    );
    let mut far = block();
    far.number = Some(u64::MAX);
    assert_eq!(
        process_block(far, &mut columns, &table(&["block_number"])),
        Err(CollectError::IntegerOverflow)
    );
    let mut big = block();
    big.size = Some(U256 { limbs: [0, 0, 0, 1] });
    assert_eq!(
        process_block(big, &mut columns, &table(&["size"])),
        Err(CollectError::IntegerOverflow)
    );
    let mut dear = block();
    dear.base_fee_per_gas = Some(U256 { limbs: [5, 0, 1, 0] });
    assert_eq!(
        process_block(dear, &mut columns, &table(&["base_fee_per_gas"])),
        Err(CollectError::IntegerOverflow)
    );
    assert_eq!(columns.n_rows, 1);
}

#[test]
fn block_columns_follow_the_schema() {
    let schema = table(&["author", "size"]);
    let mut columns = BlockColumns::new();
    assert_eq!(process_block(block(), &mut columns, &schema), Ok(()));
    assert_eq!(process_block(block(), &mut columns, &schema), Ok(()));
    assert_eq!(columns.n_rows, 2);
    assert_eq!(columns.author.len(), 2);
    assert_eq!(columns.size, vec![Some(512), Some(512)]);
    assert!(columns.hash.is_empty());
    assert!(columns.parent_hash.is_empty());
    assert!(columns.state_root.is_empty());
    assert!(columns.transactions_root.is_empty());
    assert!(columns.receipts_root.is_empty());
    assert!(columns.block_number.is_empty());
    assert!(columns.gas_used.is_empty());
    assert!(columns.extra_data.is_empty());
    assert!(columns.logs_bloom.is_empty());
    assert!(columns.timestamp.is_empty());
    assert!(columns.total_difficulty.is_empty());
    assert!(columns.base_fee_per_gas.is_empty());
}

#[test]
fn blocks_are_transformed_under_their_table() {
    let mut schemas = Schemas::new();
    schemas.insert(Table::new(Datatype::Logs));
    assert_eq!(<Blocks as CollectByBlock>::kind(), Datatype::Blocks);
    assert_eq!(<Blocks as CollectByTransaction>::kind(), Datatype::Blocks);
    assert!(schemas.get(<Blocks as CollectByBlock>::kind()).is_none());
    let mut columns = BlockColumns::new();
    schemas.insert(table(&["hash"]));
    assert_eq!(<Blocks as CollectByBlock>::transform(block(), &mut columns, &schemas), Ok(()));
    assert_eq!(transform_block(block(), &mut columns, &schemas), Ok(()));
    assert_eq!(
        <Blocks as CollectByTransaction>::transform(block(), &mut columns, &schemas),
        Ok(())
    );
    assert_eq!(columns.hash, vec![vec![1u8; 32]; 3]);
    let mut heavy = block();
    heavy.gas_used = U256::from_u64(u64::MAX);
    schemas.insert(table(&["gas_used"]));
    assert_eq!(
        transform_block(heavy, &mut columns, &schemas),
        Err(CollectError::IntegerOverflow)
    );
    assert_eq!(columns.n_rows, 3);
    assert!(columns.gas_used.is_empty());
    assert_eq!(<Blocks as CollectByBlock>::block_parameters(), vec![ChunkDim::BlockNumber]);
    assert_eq!(
        <Blocks as CollectByTransaction>::transaction_parameters(),
        vec![ChunkDim::TransactionHash]
    );
}

#[test]
fn what_a_node_does_not_have_is_not_found() {
    assert_eq!(found_block(Some(block())), Ok(block()));
    assert_eq!(found_block::<[u8; 32]>(None), Err(CollectError::BlockNotFound));
    assert_eq!(transaction_block_hash(Some(Some([4; 32]))), Ok([4; 32]));
    assert_eq!(transaction_block_hash(Some(None)), Err(CollectError::MissingBlockHash));
    assert_eq!(transaction_block_hash(None), Err(CollectError::TransactionNotFound));
    assert_eq!(receipt_logs(Some(vec![])), Ok(vec![]));
    assert_eq!(receipt_logs(None), Err(CollectError::ReceiptNotFound));
    assert!(!CollectError::BlockNotFound.is_fatal());
    assert!(!CollectError::TransactionNotFound.is_fatal());
    assert!(!CollectError::ReceiptNotFound.is_fatal());
}
