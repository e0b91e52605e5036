use btck::block::Block;
use btck::chain::Chain;
use btck::error::Error;
use btck::hash::BlockHash;
use btck::script_pubkey::ScriptPubkey;
use btck::transaction::Transaction;
use btck::transaction_output::TransactionOutput;
use btck::{owned_bytes, settle, settle_verification};

fn hash_of_byte(b: u8) -> BlockHash {
    BlockHash::new(vec![b; 32])
}

fn sample_transaction(raw: Vec<u8>) -> Transaction {
    let script = ScriptPubkey::new(vec![0x51]);
    let out = TransactionOutput::new(5_000, &script);
    Transaction::from_parts(raw, vec![Some(out)], String::from("tx"))
}

#[test]
fn round_trip_transaction_bytes() {
    let raw = vec![0x01, 0x00, 0x00, 0x00, 0xab, 0xcd];
    let tx = sample_transaction(raw.clone());
    assert_eq!(tx.as_bytes(), raw);
}

#[test]
fn round_trip_empty_transaction_bytes() {
    let tx = sample_transaction(Vec::new());
    assert_eq!(tx.as_bytes(), Vec::<u8>::new());
}

#[test]
fn script_pubkey_round_trip() {
    let script = ScriptPubkey::new(vec![0x76, 0xa9, 0x14]);
    assert_eq!(script.as_bytes(), vec![0x76, 0xa9, 0x14]);
}

#[test]
fn empty_script_pubkey_is_empty() {
    let script = ScriptPubkey::new(Vec::new());
    assert_eq!(script.as_bytes(), Vec::<u8>::new());
}

#[test]
fn owned_bytes_of_absent_buffer_is_empty() {
    assert_eq!(owned_bytes(None), Vec::<u8>::new());
}

#[test]
fn owned_bytes_of_present_buffer_is_copied() {
    assert_eq!(owned_bytes(Some(vec![9, 8, 7])), vec![9, 8, 7]);
}

#[test]
fn output_accessors() {
    let script = ScriptPubkey::new(vec![0xac]);
    let out = TransactionOutput::new(123_456_789, &script);
    assert_eq!(out.amount(), 123_456_789);
    assert_eq!(out.script_pubkey().as_bytes(), vec![0xac]);
}

#[test]
fn transaction_display_text() {
    let tx = sample_transaction(vec![1]);
    assert_eq!(tx.to_string(), String::from("tx"));
}

#[test]
fn iteration_yields_each_counted_transaction() {
    let txs = vec![
        Some(sample_transaction(vec![10])),
        Some(sample_transaction(vec![20])),
        Some(sample_transaction(vec![30])),
    ];
    let block = Block::from_parts(vec![0xfe], hash_of_byte(1), txs);
    assert_eq!(block.transaction_count(), 3);

    let mut it = block.transactions();
    let mut seen: Vec<Vec<u8>> = Vec::new();
    while let Some(tx) = it.next() {
        seen.push(tx.as_bytes());
    }
    assert_eq!(seen.len(), 3);
    for (i, bytes) in seen.iter().enumerate() {
        let looked_up = block.transaction_at(i).expect("occupied slot");
        assert_eq!(&looked_up.as_bytes(), bytes);
    }
    assert!(it.next().is_none());
}

#[test]
fn vacant_slot_ends_iteration_early() {
    let txs = vec![
        Some(sample_transaction(vec![10])),
        None,
        Some(sample_transaction(vec![30])),
    ];
    let block = Block::from_parts(vec![0xfe], hash_of_byte(2), txs);
    assert_eq!(block.transaction_count(), 3);

    let mut it = block.transactions();
    let first = it.next().expect("first slot is occupied");
    assert_eq!(first.as_bytes(), vec![10]);
    assert!(it.next().is_none());
    assert!(it.next().is_none());
}

#[test]
fn indexed_lookup_reports_vacancy_and_range() {
    let txs = vec![Some(sample_transaction(vec![10])), None];
    let block = Block::from_parts(Vec::new(), hash_of_byte(3), txs);
    assert!(block.transaction_at(0).is_some());
    assert!(block.transaction_at(1).is_none());
    assert!(block.transaction_at(2).is_none());
}

#[test]
fn child_remains_valid_after_parent_is_released() {
    let txs = vec![Some(sample_transaction(vec![42, 43]))];
    let block = Block::from_parts(vec![7], hash_of_byte(4), txs);
    let mut it = block.transactions();
    let child = it.next().expect("occupied slot");
    drop(it);
    drop(block);
    assert_eq!(child.as_bytes(), vec![42, 43]);
    assert_eq!(child.output_count(), 1);
}

#[test]
fn output_iteration_matches_indexed_lookup() {
    let script = ScriptPubkey::new(vec![0x00]);
    let outs = vec![
        Some(TransactionOutput::new(1, &script)),
        Some(TransactionOutput::new(2, &script)),
    ];
    let tx = Transaction::from_parts(vec![9], outs, String::new());
    assert_eq!(tx.output_count(), 2);
    let mut it = tx.outputs();
    let mut amounts = Vec::new();
    while let Some(out) = it.next() {
        amounts.push(out.amount());
    }
    assert_eq!(amounts, vec![1, 2]);
    assert_eq!(tx.output_at(0).expect("occupied").amount(), 1);
    assert_eq!(tx.output_at(1).expect("occupied").amount(), 2);
    assert!(tx.output_at(2).is_none());
}

#[test]
fn error_fields_and_rendering() {
    let err = Error::new(String::from("script"), 42, String::from("bad opcode"));
    assert_eq!(err.code(), 42);
    assert_eq!(err.domain(), String::from("script"));
    assert_eq!(err.message(), String::from("bad opcode"));
    assert_eq!(err.render(), String::from("[script:42] bad opcode"));
}

#[test]
fn error_rendering_negative_code() {
    let err = Error::new(String::from("io"), -7, String::from("fail"));
    assert_eq!(err.render(), String::from("[io:-7] fail"));
}

#[test]
fn error_rendering_extreme_codes() {
    let err = Error::new(String::from("x"), i32::MIN, String::from("y"));
    assert_eq!(err.render(), String::from("[x:-2147483648] y"));
    let err = Error::new(String::from("x"), i32::MAX, String::from("y"));
    assert_eq!(err.render(), String::from("[x:2147483647] y"));
    let err = Error::new(String::from("x"), 0, String::from("y"));
    assert_eq!(err.render(), String::from("[x:0] y"));
}

#[test]
fn reported_failure_takes_precedence_over_primary_value() {
    let err = Error::new(String::from("block"), 3, String::from("malformed header"));
    let settled = settle(Some(17u64), Some(err));
    match settled {
        Ok(_) => panic!("a reported failure must never settle as success"),
        Err(e) => {
            assert!(!e.domain().is_empty());
            assert!(!e.message().is_empty());
            assert_eq!(e.code(), 3);
        }
    }
}

#[test]
fn untouched_error_slot_settles_as_primary_value() {
    let settled: Result<u64, Error> = settle(17u64, None);
    assert_eq!(settled.ok(), Some(17u64));
}

#[test]
fn default_chain_is_empty() {
    let chain = Chain::default();
    assert_eq!(chain.block_count(), 0);
    let mut it = chain.blocks();
    assert!(it.next().is_none());
    assert_eq!(chain.find(&hash_of_byte(0)), -1);
}

#[test]
fn find_locates_each_block_by_hash() {
    let mut chain = Chain::new();
    for b in 0..3u8 {
        let block = Block::from_parts(vec![b], hash_of_byte(b), Vec::new());
        chain.push(Some(block));
    }
    assert_eq!(chain.block_count(), 3);
    for b in 0..3u8 {
        assert_eq!(chain.find(&hash_of_byte(b)), b as isize);
    }
    assert_eq!(chain.find(&hash_of_byte(200)), -1);
}

#[test]
fn find_returns_first_of_equal_hashes() {
    let mut chain = Chain::new();
    chain.push(Some(Block::from_parts(vec![0], hash_of_byte(9), Vec::new())));
    chain.push(Some(Block::from_parts(vec![1], hash_of_byte(9), Vec::new())));
    assert_eq!(chain.find(&hash_of_byte(9)), 0);
}

#[test]
fn find_skips_vacant_slots() {
    let mut chain = Chain::new();
    chain.push(None);
    chain.push(Some(Block::from_parts(vec![1], hash_of_byte(5), Vec::new())));
    assert_eq!(chain.find(&hash_of_byte(5)), 1);
}

#[test]
fn chain_iteration_and_indexed_lookup() {
    let mut chain = Chain::new();
    chain.push(Some(Block::from_parts(vec![0xaa], hash_of_byte(1), Vec::new())));
    chain.push(Some(Block::from_parts(vec![0xbb], hash_of_byte(2), Vec::new())));
    let mut it = chain.blocks();
    let mut seen = Vec::new();
    while let Some(block) = it.next() {
        seen.push(block.as_bytes());
    }
    assert_eq!(seen, vec![vec![0xaa], vec![0xbb]]);
    assert_eq!(chain.block_at(0).expect("occupied").as_bytes(), vec![0xaa]);
    assert!(chain.block_at(2).is_none());
}

#[test]
fn block_hash_and_bytes_accessors() {
    let block = Block::from_parts(vec![1, 2], hash_of_byte(77), Vec::new());
    assert_eq!(block.as_bytes(), vec![1, 2]);
    let h = block.hash();
    assert_eq!(h.as_bytes(), vec![77u8; 32]);
    assert!(h.equals(&hash_of_byte(77)));
    assert!(!h.equals(&hash_of_byte(78)));
    assert!(block.hash_matches(&hash_of_byte(77)));
}

#[test]
fn empty_block_yields_no_transactions() {
    let block = Block::from_parts(Vec::new(), hash_of_byte(0), Vec::new());
    assert_eq!(block.transaction_count(), 0);
    let mut it = block.transactions();
    assert!(it.next().is_none());
    assert_eq!(block.as_bytes(), Vec::<u8>::new());
}

#[test]
fn verification_settles_status_and_failure() {
    assert_eq!(settle_verification(1, None).ok(), Some(true));
    assert_eq!(settle_verification(0, None).ok(), Some(false));
    let err = Error::new(String::from("verify"), 2, String::from("bad flags"));
    let settled = settle_verification(1, Some(err));
    match settled {
        Ok(_) => panic!("a reported failure must never settle as success"),
        Err(e) => assert_eq!(e.code(), 2),
    }
}

#[test]
fn verification_is_deterministic() {
    let once = settle_verification(1, None).ok();
    let twice = settle_verification(1, None).ok();
    assert_eq!(once, twice);
    let failing_once = settle_verification(0, None).ok();
    let failing_twice = settle_verification(0, None).ok();
    assert_eq!(failing_once, failing_twice);
}
