use alloy::primitives::keccak256;
use arkiv_sdk::abi::{check_shape, event_signature_hash, first_topic_is, AbiError, Log, LogData};
use arkiv_sdk::contract::{
    decode_log_data, ArkivAbiEvent, ArkivAbiSignatures, ContractError,
    ENTITY_BTL_EXTENDED_SIGNATURE, ENTITY_CREATED_SIGNATURE, ENTITY_DELETED_SIGNATURE,
    ENTITY_EXPIRED_SIGNATURE, ENTITY_OWNER_CHANGED_SIGNATURE, ENTITY_UPDATED_SIGNATURE,
};
use arkiv_sdk::error::Error;
use arkiv_sdk::events::{create_event_filter, Event, FromBlock};
use arkiv_sdk::primitives::{address_from_word, u64_or_zero_of, word_at, word_eq};
use arkiv_sdk::rpc::types::{ArkivEvent, EventError};
use arkiv_sdk::tx::receipt::{RawTransactionReceipt, TransactionReceipt};

type Word = [u8; 32];

fn sig(s: &str) -> Word {
    keccak256(s.as_bytes()).0
}

fn num(n: u64) -> Word {
    let mut w = [0u8; 32];
    w[24..].copy_from_slice(&n.to_be_bytes());
    w
}

fn addr_word(a: [u8; 20]) -> Word {
    let mut w = [0u8; 32];
    w[12..].copy_from_slice(&a);
    w
}

fn data(words: &[Word]) -> Vec<u8> {
    words.iter().flat_map(|w| w.iter().copied()).collect()
}

const KEY: Word = [0xaa; 32];
const OWNER: [u8; 20] = [0xbb; 20];
const NEW_OWNER: [u8; 20] = [0xcc; 20];

fn created_log() -> LogData {
    LogData {
        topics: vec![sig(ENTITY_CREATED_SIGNATURE), KEY, addr_word(OWNER)],
        data: data(&[num(100), num(5)]),
    }
}

fn owner_changed_log() -> LogData {
    LogData {
        topics: vec![
            sig(ENTITY_OWNER_CHANGED_SIGNATURE),
            KEY,
            addr_word(OWNER),
            addr_word(NEW_OWNER),
        ],
        data: Vec::new(),
    }
}

#[test]
fn signature_hashes_are_keccak_of_the_signatures() {
    assert_eq!(event_signature_hash(ENTITY_CREATED_SIGNATURE), sig(ENTITY_CREATED_SIGNATURE));
    let sigs = ArkivAbiSignatures::compute();
    assert_eq!(sigs.created, sig(ENTITY_CREATED_SIGNATURE));
    assert_eq!(sigs.updated, sig(ENTITY_UPDATED_SIGNATURE));
    assert_eq!(sigs.expired, sig(ENTITY_EXPIRED_SIGNATURE));
    assert_eq!(sigs.deleted, sig(ENTITY_DELETED_SIGNATURE));
    assert_eq!(sigs.btl_extended, sig(ENTITY_BTL_EXTENDED_SIGNATURE));
    assert_eq!(sigs.owner_changed, sig(ENTITY_OWNER_CHANGED_SIGNATURE));
    assert_ne!(sigs.created, sigs.updated);
}

#[test]
fn words_and_numbers() {
    assert_eq!(u64_or_zero_of(&num(0)), 0);
    assert_eq!(u64_or_zero_of(&num(u64::MAX)), u64::MAX);
    let mut big = num(1);
    big[23] = 1;
    assert_eq!(u64_or_zero_of(&big), 0);
    assert_eq!(address_from_word(&addr_word(OWNER)), OWNER);
    let d = data(&[num(1), num(2)]);
    assert_eq!(word_at(&d, 1), num(2));
    assert!(word_eq(&KEY, &KEY));
    assert!(!word_eq(&KEY, &num(1)));
}

#[test]
fn shape_checks() {
    let l = created_log();
    assert_eq!(check_shape(&l.topics, &l.data, 3, 2), Ok(()));
    assert_eq!(check_shape(&l.topics, &l.data, 4, 2), Err(AbiError::TopicListLengthMismatch));
    assert_eq!(check_shape(&l.topics, &l.data, 3, 3), Err(AbiError::Overrun));
    assert!(first_topic_is(&l.topics, &sig(ENTITY_CREATED_SIGNATURE)));
    assert!(!first_topic_is(&Vec::new(), &sig(ENTITY_CREATED_SIGNATURE)));
}

#[test]
fn decode_created_event() {
    match decode_log_data(&created_log()) {
        Ok(ArkivAbiEvent::ArkivEntityCreated(d)) => {
            assert_eq!(d.entity_key, KEY);
            assert_eq!(d.owner_address, OWNER);
            assert_eq!(d.expiration_block, num(100));
            assert_eq!(d.cost, num(5));
        }
        other => panic!("unexpected {other:?}"),
    }
}

#[test]
fn decode_owner_changed_event() {
    match decode_log_data(&owner_changed_log()) {
        Ok(ArkivAbiEvent::ArkivEntityOwnerChanged(d)) => {
            assert_eq!(d.entity_key, KEY);
            assert_eq!(d.old_owner_address, OWNER);
            assert_eq!(d.new_owner_address, NEW_OWNER);
        }
        other => panic!("unexpected {other:?}"),
    }
}

#[test]
fn decode_errors() {
    let empty = LogData { topics: Vec::new(), data: Vec::new() };
    assert!(matches!(decode_log_data(&empty), Err(AbiError::InvalidLog)));
    let unknown = LogData { topics: vec![num(1)], data: Vec::new() };
    assert!(matches!(decode_log_data(&unknown), Err(AbiError::InvalidLog)));
    let mut short = created_log();
    short.data.truncate(40);
    assert!(matches!(decode_log_data(&short), Err(AbiError::Overrun)));
    let mut topics = created_log();
    topics.topics.pop();
    assert!(matches!(decode_log_data(&topics), Err(AbiError::TopicListLengthMismatch)));
}

fn log_of(l: LogData, block: Option<u64>, tx: Option<Word>) -> Log {
    Log { block_number: block, transaction_hash: tx, topics: l.topics, data: l.data }
}

#[test]
fn arkiv_events_from_logs() {
    let tx = [0x01; 32];
    match ArkivEvent::from_log(log_of(created_log(), Some(9), Some(tx))) {
        Ok(ArkivEvent::EntityCreated { entity_id, expiration_block, block_number, transaction_hash }) => {
            assert_eq!(entity_id, KEY);
            assert_eq!(expiration_block, 100);
            assert_eq!(block_number, 9);
            assert_eq!(transaction_hash, tx);
        }
        other => panic!("unexpected {other:?}"),
    }
    let expired = LogData {
        topics: vec![sig(ENTITY_EXPIRED_SIGNATURE), KEY, addr_word(OWNER)],
        data: Vec::new(),
    };
    match ArkivEvent::try_from(log_of(expired, Some(3), Some(tx))) {
        Ok(ArkivEvent::EntityExpired { entity_id, owner_address, block_number, .. }) => {
            assert_eq!(entity_id, KEY);
            assert_eq!(owner_address, OWNER);
            assert_eq!(block_number, 3);
        }
        other => panic!("unexpected {other:?}"),
    }
    assert!(matches!(
        ArkivEvent::from_log(log_of(created_log(), None, Some(tx))),
        Err(EventError::MissingBlockNumber)
    ));
    assert!(matches!(
        ArkivEvent::from_log(log_of(created_log(), Some(1), None)),
        Err(EventError::MissingTransactionHash)
    ));
    let bad = LogData { topics: vec![num(1)], data: Vec::new() };
    assert!(matches!(
        ArkivEvent::from_log(log_of(bad, Some(1), Some(tx))),
        Err(EventError::Abi(AbiError::InvalidLog))
    ));
}

const GB_CREATED: &str = "EntityCreated(uint256,uint256)";
const GB_EXTENDED: &str = "EntityExtended(uint256,uint256,uint256)";

#[test]
fn golem_base_events_from_logs() {
    let tx = [0x02; 32];
    let log = Log {
        block_number: Some(4),
        transaction_hash: Some(tx),
        topics: vec![sig(GB_CREATED), KEY],
        data: data(&[num(77)]),
    };
    match Event::from_log(&log) {
        Ok(Event::EntityCreated { entity_id, expiration_block, block_number, transaction_hash }) => {
            assert_eq!(entity_id, KEY);
            assert_eq!(expiration_block, 77);
            assert_eq!(block_number, 4);
            assert_eq!(transaction_hash, tx);
        }
        other => panic!("unexpected {other:?}"),
    }
    let log = Log {
        block_number: Some(4),
        transaction_hash: Some(tx),
        topics: vec![sig(GB_EXTENDED), KEY],
        data: data(&[num(10), num(20)]),
    };
    match Event::try_from(log) {
        Ok(Event::EntityExtended { old_expiration_block, new_expiration_block, .. }) => {
            assert_eq!(old_expiration_block, 10);
            assert_eq!(new_expiration_block, 20);
        }
        other => panic!("unexpected {other:?}"),
    }
    let short = Log {
        block_number: Some(4),
        transaction_hash: Some(tx),
        topics: vec![sig(GB_EXTENDED), KEY],
        data: data(&[num(10)]),
    };
    assert!(matches!(Event::from_log(&short), Err(EventError::Abi(AbiError::Overrun))));
}

#[test]
fn golem_base_filter() {
    let f = create_event_filter(FromBlock::Number(12));
    assert_eq!(f.from_block, FromBlock::Number(12));
    assert_eq!(&f.address[16..], &[0x60, 0x13, 0x84, 0x53]);
    assert_eq!(f.event_signatures.len(), 4);
    assert_eq!(f.event_signatures[0], sig(GB_CREATED));
    assert_eq!(f.event_signatures[3], sig(GB_EXTENDED));
}

#[test]
fn receipts_sort_events_by_kind() {
    let deleted = LogData {
        topics: vec![sig(ENTITY_DELETED_SIGNATURE), [0x0d; 32], addr_word(OWNER)],
        data: Vec::new(),
    };
    let expired = LogData {
        topics: vec![sig(ENTITY_EXPIRED_SIGNATURE), [0x0e; 32], addr_word(OWNER)],
        data: Vec::new(),
    };
    let raw = RawTransactionReceipt {
        status: true,
        transaction_hash: [0x03; 32],
        logs: vec![created_log(), deleted, expired, owner_changed_log(), created_log()],
    };
    let r = TransactionReceipt::from_raw(raw).expect("all logs decode");
    assert_eq!(r.created.len(), 2);
    assert_eq!(r.created[0].entity_key, KEY);
    assert_eq!(r.created[0].expiration_block, num(100));
    assert_eq!(r.created[1].cost, num(5));
    assert_eq!(r.deleted.len(), 1);
    assert_eq!(r.deleted[0].entity_key, [0x0d; 32]);
    assert_eq!(r.transferred.len(), 1);
    assert_eq!(r.transferred[0].new_owner_address, NEW_OWNER);
    assert!(r.updated.is_empty());
    assert!(r.extended.is_empty());
}

#[test]
fn failed_transaction_gives_its_receipt_back() {
    let raw = RawTransactionReceipt {
        status: false,
        transaction_hash: [0x04; 32],
        logs: vec![created_log()],
    };
    match TransactionReceipt::try_from(raw) {
        Err(ContractError::BadTransactionStatus { receipt }) => {
            assert_eq!(receipt.transaction_hash, [0x04; 32]);
            assert_eq!(receipt.logs.len(), 1);
        }
        other => panic!("unexpected {other:?}"),
    }
}

#[test]
fn first_bad_log_fails_the_receipt() {
    let mut short = created_log();
    short.data.truncate(10);
    let bad = LogData { topics: Vec::new(), data: Vec::new() };
    let raw = RawTransactionReceipt {
        status: true,
        transaction_hash: [0x05; 32],
        logs: vec![created_log(), short, bad],
    };
    match TransactionReceipt::from_raw(raw) {
        Err(ContractError::AbiError(AbiError::Overrun)) => {}
        other => panic!("unexpected {other:?}"),
    }
}

#[test]
fn library_errors_wrap_their_sources() {
    match Error::from(ContractError::AbiError(AbiError::InvalidLog)) {
        Error::ContractError(ContractError::AbiError(AbiError::InvalidLog)) => {}
        other => panic!("unexpected {other:?}"),
    }
}
