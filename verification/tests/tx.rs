use arkiv_sdk::client::nonce::NonceManager;
use arkiv_sdk::contract::storage_address;
use arkiv_sdk::decimal::decimal_string;
use arkiv_sdk::entity::BlocksToLive;
use arkiv_sdk::rlp::{RlpEncode, RlpError};
use arkiv_sdk::rpc::ArkivRpcMethod;
use arkiv_sdk::tx::ops::{Chown, Delete, Extend};
use arkiv_sdk::entity::Entity;
use arkiv_sdk::tx::{
    PayloadBuilder, StoragePayload, StorageTransactionRequest, COMPRESSION_BUFFER_SIZE,
    COMPRESSION_QUALITY, COMPRESSION_WINDOW,
};

fn with_prefix(prefix: &[u8], body: &[u8]) -> Vec<u8> {
    let mut v = prefix.to_vec();
    v.extend_from_slice(body);
    v
}

#[test]
fn nonces_are_consecutive_and_complete_undoes_next() {
    let mut m = NonceManager { base_nonce: 7, in_flight: 0 };
    assert_eq!(m.next_nonce(), 7);
    assert_eq!(m.next_nonce(), 8);
    assert_eq!(m.in_flight, 2);
    m.complete();
    assert_eq!(m.in_flight, 1);
    assert_eq!(m.next_nonce(), 8);
    m.complete();
    m.complete();
    assert_eq!(m.in_flight, 0);
    m.complete();
    assert_eq!(m.in_flight, 0);
    assert_eq!(m.base_nonce, 7);
}

#[test]
fn rpc_method_names() {
    assert_eq!(ArkivRpcMethod::Query.as_str(), "arkiv_query");
    assert_eq!(ArkivRpcMethod::GetEntityCount.as_str(), "arkiv_getEntityCount");
    assert_eq!(ArkivRpcMethod::GetNumberOfUsedSlots.as_str(), "arkiv_getNumberOfUsedSlots");
    assert_eq!(ArkivRpcMethod::GetBlockTiming.as_str(), "arkiv_getBlockTiming");
}

#[test]
fn decimal_strings() {
    assert_eq!(decimal_string(0), "0");
    assert_eq!(decimal_string(7), "7");
    assert_eq!(decimal_string(10), "10");
    assert_eq!(decimal_string(1337), "1337");
    assert_eq!(decimal_string(u64::MAX), u64::MAX.to_string());
}

#[test]
fn storage_address_is_arkiv() {
    let a = storage_address();
    assert_eq!(&a[15..], b"arkiv");
    assert!(a[..15].iter().all(|b| *b == 0));
}

#[test]
fn delete_encodes_as_its_key() {
    let key = [0x11u8; 32];
    let d = Delete::new(key);
    assert_eq!(d.entity_key(), key);
    assert_eq!(Delete::from(key).entity_key(), key);
    assert_eq!(d.rlp_bytes(), with_prefix(&[0xa0], &key));
}

#[test]
fn extend_encodes_as_key_and_blocks() {
    let key = [0x22u8; 32];
    let e = Extend::new(key, BlocksToLive::new(30));
    assert_eq!(e.entity_key(), key);
    assert_eq!(e.number_of_blocks(), 30);
    let mut expected = with_prefix(&[0xe2, 0xa0], &key);
    expected.push(0x1e);
    assert_eq!(e.rlp_bytes(), expected);

    let e = Extend::new(key, BlocksToLive::new(1000));
    let mut expected = with_prefix(&[0xe4, 0xa0], &key);
    expected.extend_from_slice(&[0x82, 0x03, 0xe8]);
    assert_eq!(e.rlp_bytes(), expected);
}

#[test]
fn chown_encodes_as_key_and_owner() {
    let key = [0x33u8; 32];
    let owner = [0x44u8; 20];
    let c = Chown::new(key, owner);
    let mut expected = with_prefix(&[0xf6, 0xa0], &key);
    expected.push(0x94);
    expected.extend_from_slice(&owner);
    assert_eq!(c.rlp_bytes(), expected);
}

#[test]
fn empty_payload() {
    let p: StoragePayload<Delete, Delete> = StoragePayload::default();
    assert!(p.is_empty());
    assert_eq!(p.len(), 0);
    assert_eq!(p.encode(), vec![0xc5, 0xc0, 0xc0, 0xc0, 0xc0, 0xc0]);
}

#[test]
fn payload_counts_every_operation() {
    let mut p: StoragePayload<Delete, Delete> = StoragePayload::default();
    p.with_deletes(vec![Delete::new([1; 32]), Delete::new([2; 32])]);
    p.with_extensions(vec![Extend::new([3; 32], BlocksToLive::new(5))]);
    assert!(!p.is_empty());
    assert_eq!(p.len(), 3);
    p.with_deletes(Vec::new());
    assert_eq!(p.len(), 1);
    p.with_extensions(Vec::new());
    assert!(p.is_empty());
}

#[test]
fn payload_encodes_lists_by_kind() {
    let key = [0x55u8; 32];
    let mut p: StoragePayload<Delete, Delete> = StoragePayload::default();
    p.with_deletes(vec![Delete::new(key)]);
    let mut expected = vec![0xe6, 0xc0, 0xc0, 0xe1, 0xa0];
    expected.extend_from_slice(&key);
    expected.extend_from_slice(&[0xc0, 0xc0]);
    assert_eq!(p.encode(), expected);
}

#[test]
fn request_compresses_the_encoded_payload() {
    let key = [0x66u8; 32];
    let request: StorageTransactionRequest<Delete, Delete> = StorageTransactionRequest::new()
        .delete_entities(vec![Delete::new(key)])
        .transfer_entities(vec![Chown::new(key, [0x77; 20])]);
    assert_eq!(request.payload().deletes.len(), 1);
    assert_eq!(request.payload().transfers.len(), 1);
    assert_eq!(request.payload().len(), 2);
    let encoded = request.payload().encode();
    let call = request.into_request();
    assert_eq!(call.to, storage_address());
    assert_ne!(call.input, encoded);
    let mut decompressed = Vec::new();
    brotli::BrotliDecompress(&mut call.input.as_slice(), &mut decompressed).unwrap();
    assert_eq!(decompressed, encoded);
}

#[test]
fn btl_values() {
    assert_eq!(BlocksToLive::new(1).value(), 1);
    assert_eq!(BlocksToLive::from_secs(3).value(), 1);
    assert_eq!(u64::from(BlocksToLive::from_secs(3600)), 1800);
}

#[test]
fn delete_decodes_what_it_encodes() {
    let key = [0x99u8; 32];
    let mut bytes = Delete::new(key).rlp_bytes();
    bytes.extend_from_slice(&[1, 2]);
    let mut buf: &[u8] = &bytes;
    let d = Delete::decode(&mut buf).expect("a canonical key");
    assert_eq!(d.entity_key(), key);
    assert_eq!(buf, &[1, 2]);
}

#[test]
fn delete_decode_errors() {
    let mut empty: &[u8] = &[];
    assert_eq!(Delete::decode(&mut empty).err(), Some(RlpError::InputTooShort));
    let short = [0xa0u8; 20];
    assert_eq!(Delete::decode(&mut &short[..]).err(), Some(RlpError::InputTooShort));
    let mut long_form = vec![0xb8u8, 0x20];
    long_form.extend_from_slice(&[7u8; 32]);
    assert_eq!(Delete::decode(&mut &long_form[..]).err(), Some(RlpError::NonCanonicalSize));
    let list = [0xc0u8];
    assert_eq!(Delete::decode(&mut &list[..]).err(), Some(RlpError::UnexpectedList));
    let five = [0x85u8, 1, 2, 3, 4, 5];
    assert_eq!(Delete::decode(&mut &five[..]).err(), Some(RlpError::UnexpectedLength));
}

#[test]
fn rpc_method_as_str_deref_and_cow() {
    assert_eq!(&*ArkivRpcMethod::GetBlockTiming, "arkiv_getBlockTiming");
    assert_eq!(ArkivRpcMethod::Query.len(), 11);
    let c: std::borrow::Cow<'static, str> = ArkivRpcMethod::GetEntityCount.into();
    assert_eq!(c, "arkiv_getEntityCount");
    assert!(matches!(c, std::borrow::Cow::Borrowed(_)));
}

#[test]
fn request_payload_mut_and_default() {
    let mut t: StorageTransactionRequest<Delete, Delete> = StorageTransactionRequest::default();
    assert!(t.payload().is_empty());
    t.payload_mut().with_deletes(vec![Delete::new([4; 32])]);
    assert_eq!(t.payload().len(), 1);
    assert_eq!(t.payload().deletes[0].entity_key(), [4; 32]);
}

#[test]
fn last_nonce_is_handed_out() {
    let mut m = NonceManager { base_nonce: u64::MAX, in_flight: 0 };
    assert_eq!(m.next_nonce(), u64::MAX);
    assert_eq!(m.in_flight, 1);
}

#[test]
fn payload_is_compressed_with_fixed_settings() {
    assert_eq!(COMPRESSION_BUFFER_SIZE, 4096);
    assert_eq!(COMPRESSION_QUALITY, 5);
    assert_eq!(COMPRESSION_WINDOW, 22);
    let request: StorageTransactionRequest<Delete, Delete> =
        StorageTransactionRequest::new().delete_entities(vec![Delete::new([9; 32])]);
    let encoded = request.payload().encode();
    let mut expected = Vec::new();
    {
        let mut writer = brotli::CompressorWriter::new(&mut expected, 4096, 5, 22);
        std::io::Write::write_all(&mut writer, &encoded).unwrap();
        std::io::Write::flush(&mut writer).unwrap();
    }
    assert_eq!(request.into_request().input, expected);
}

#[test]
fn entity_default_is_empty() {
    let e: Entity<String, u64> = Entity::default();
    assert_eq!(e.key, [0; 32]);
    assert!(e.value.is_empty() && e.content_type.is_empty());
    assert_eq!((e.expires_at, e.owner, e.created_at_block), ([0; 32], [0; 20], [0; 32]));
    assert!(e.string_attributes.is_empty() && e.numeric_attributes.is_empty());
}
