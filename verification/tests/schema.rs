use cryo_freeze::{
    ChunkDim, CollectError, ColumnEncoding, Datatype, Params, Schemas, Table, U256Type, U256,
};

#[test]
fn a_new_table_has_no_columns() {
    let table = Table::new(Datatype::Blocks);
    assert_eq!(table.datatype, Datatype::Blocks);
    assert!(table.columns.is_empty());
    assert!(table.log_decoder.is_none());
    assert!(!table.has_column("hash"));
    assert!(table.column("hash").is_none());
}

#[test]
fn columns_are_kept_in_order_and_once() {
    let mut table = Table::new(Datatype::Blocks);
    assert!(table.add_column("hash", ColumnEncoding::Hex, U256Type::Binary));
    assert!(table.add_column("total_difficulty", ColumnEncoding::Binary, U256Type::Decimal));
    assert!(!table.add_column("hash", ColumnEncoding::Binary, U256Type::Hex));
    let names: Vec<&str> = table.columns.iter().map(|column| column.name.as_str()).collect();
    assert_eq!(names, vec!["hash", "total_difficulty"]);
    assert!(table.has_column("hash"));
    assert!(table.has_column("total_difficulty"));
    assert!(!table.has_column("Hash"));
    assert!(!table.has_column("has"));
    assert!(!table.has_column(""));
    let hash = table.column("hash").unwrap();
    assert_eq!(hash.encoding, ColumnEncoding::Hex);
    assert_eq!(hash.u256_type, U256Type::Binary);
    let difficulty = table.column("total_difficulty").unwrap();
    assert_eq!(difficulty.encoding, ColumnEncoding::Binary);
    assert_eq!(difficulty.u256_type, U256Type::Decimal);
}

#[test]
fn the_registry_holds_one_table_for_each_data_kind() {
    let mut schemas = Schemas::new();
    assert!(schemas.get(Datatype::Logs).is_none());
    let mut logs = Table::new(Datatype::Logs);
    logs.add_column("data", ColumnEncoding::Binary, U256Type::Binary);
    schemas.insert(logs);
    schemas.insert(Table::new(Datatype::Blocks));
    assert!(schemas.get(Datatype::Logs).unwrap().has_column("data"));
    assert_eq!(schemas.get(Datatype::Logs).unwrap().datatype, Datatype::Logs);
    assert_eq!(schemas.get(Datatype::Blocks).unwrap().datatype, Datatype::Blocks);
    assert!(schemas.get(Datatype::Traces).is_none());
    schemas.insert(Table::new(Datatype::Logs));
    assert!(!schemas.get(Datatype::Logs).unwrap().has_column("data"));
}

#[test]
fn every_data_kind_has_its_own_place() {
    let all = [
        Datatype::Blocks,
        Datatype::CodeDiffs,
        Datatype::Contracts,
        Datatype::Erc20Metadata,
        Datatype::Erc721Transfers,
        Datatype::Logs,
        Datatype::NativeTransfers,
        Datatype::Traces,
        Datatype::Transactions,
    ];
    for (place, datatype) in all.iter().enumerate() {
        assert_eq!(datatype.index(), place as u64);
    }
}

#[test]
fn failures_are_fatal_unless_something_was_not_found() {
    let not_found = [
        CollectError::BlockNotFound,
        CollectError::TransactionNotFound,
        CollectError::ReceiptNotFound,
    ];
    for error in not_found {
        assert!(error.is_not_found());
        assert!(!error.is_fatal());
    }
    let fatal = [
        CollectError::MissingSchema(Datatype::Logs),
        CollectError::MissingBlockHash,
        CollectError::MissingAuthor,
        CollectError::MissingTraceResult,
        CollectError::MissingCreateResult,
        CollectError::MissingTopic,
        CollectError::MalformedData,
        CollectError::IntegerOverflow,
    ];
    for error in fatal {
        assert!(error.is_fatal());
        assert!(!error.is_not_found());
    }
}

#[test]
fn every_failure_has_its_text() {
    assert_eq!(CollectError::BlockNotFound.message(), "block not found");
    assert_eq!(CollectError::TransactionNotFound.message(), "transaction not found");
    assert_eq!(CollectError::ReceiptNotFound.message(), "transaction receipt not found");
    assert_eq!(CollectError::MissingSchema(Datatype::Logs).message(), "schema not provided");
    assert_eq!(CollectError::MissingBlockHash.message(), "block hash required");
    assert_eq!(CollectError::MissingAuthor.message(), "author required");
    assert_eq!(CollectError::MissingTraceResult.message(), "missing trace result");
    assert_eq!(CollectError::MissingCreateResult.message(), "missing create result");
    assert_eq!(CollectError::MissingTopic.message(), "missing log topic");
    assert_eq!(CollectError::MalformedData.message(), "log data is not one word");
    assert_eq!(CollectError::IntegerOverflow.message(), "integer overflow");
}

#[test]
fn a_request_addresses_a_block_or_a_transaction() {
    let block = Params::for_block(12);
    assert_eq!(block.block_number(), Some(12));
    assert_eq!(block.transaction_hash(), None);
    assert_eq!(block.address(), None);
    assert!(block.has(ChunkDim::BlockNumber));
    assert!(!block.has(ChunkDim::TransactionHash));
    assert!(block.covers(&vec![ChunkDim::BlockNumber]));
    assert!(block.covers(&vec![]));
    assert!(!block.covers(&vec![ChunkDim::BlockNumber, ChunkDim::Address]));

    let token = block.with_address([0xDA; 20]);
    assert_eq!(token.block_number(), Some(12));
    assert_eq!(token.address(), Some([0xDA; 20]));
    assert!(token.covers(&vec![ChunkDim::BlockNumber, ChunkDim::Address]));
    assert!(!token.covers(&vec![ChunkDim::Address, ChunkDim::TransactionHash]));

    let transaction = Params::for_transaction([5; 32]);
    assert_eq!(transaction.transaction_hash(), Some([5; 32]));
    assert_eq!(transaction.block_number(), None);
    assert!(transaction.covers(&vec![ChunkDim::TransactionHash]));
    assert!(!transaction.covers(&vec![ChunkDim::BlockNumber]));
}

#[test]
fn the_log_filter_of_a_request_spans_its_block() {
    let filter = Params::for_block(12).with_address([0xDA; 20]).log_filter().unwrap();
    assert_eq!(filter.from_block, 12);
    assert_eq!(filter.to_block, 12);
    assert_eq!(filter.address, Some([0xDA; 20]));
    assert_eq!(filter.topics, [None, None, None, None]);
    assert_eq!(Params::for_block(3).log_filter().unwrap().address, None);
    assert_eq!(Params::for_transaction([5; 32]).log_filter(), None);
}

#[test]
fn wide_integers_narrow_only_when_they_fit() {
    assert_eq!(U256::zero().as_u32(), Some(0));
    assert_eq!(U256::from_u64(0xffff_ffff).as_u32(), Some(0xffff_ffff));
    assert_eq!(U256::from_u64(0x1_0000_0000).as_u32(), None);
    assert_eq!(U256::from_u64(u64::MAX).as_u64(), Some(u64::MAX));
    assert_eq!(U256 { limbs: [0, 1, 0, 0] }.as_u64(), None);
    assert_eq!(U256 { limbs: [7, 0, 0, 1] }.as_u32(), None);
    assert_eq!(U256 { limbs: [0x1_0000_0007, 9, 0, 1] }.low_u32(), 7);
    assert_eq!(U256 { limbs: [0x1_0000_0007, 9, 0, 1] }.low_u64(), 0x1_0000_0007);
}

#[test]
fn wide_integers_are_written_most_significant_byte_first() {
    let number = U256 {
        limbs: [
            0x1817_1615_1413_1211,
            0x2827_2625_2423_2221,
            0x3837_3635_3433_3231,
            0x4847_4645_4443_4241,
        ],
    };
    let bytes = number.to_vec_u8();
    assert_eq!(
        bytes,
        vec![
            0x48, 0x47, 0x46, 0x45, 0x44, 0x43, 0x42, 0x41, 0x38, 0x37, 0x36, 0x35, 0x34, 0x33,
            0x32, 0x31, 0x28, 0x27, 0x26, 0x25, 0x24, 0x23, 0x22, 0x21, 0x18, 0x17, 0x16, 0x15,
            0x14, 0x13, 0x12, 0x11,
        ]
    );
    let mut array = [0u8; 32];
    array.copy_from_slice(&bytes);
    assert_eq!(U256::from_big_endian(&array), number);
    assert_eq!(U256::from_word(&bytes), Some(number));
    assert_eq!(U256::from_word(&bytes[1..]), None);
    assert_eq!(U256::from_word(&[]), None);
    assert_eq!(U256::from_word(&[0u8; 33]), None);
    let mut hundred = vec![0u8; 32];
    hundred[31] = 100;
    assert_eq!(U256::from_u64(100).to_vec_u8(), hundred);
}
