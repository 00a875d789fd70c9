//! The storage contract of the Arkiv network: its address, and the events that it
//! emits, decoded from logs and receipts.
//!
//! The events are those of this contract version:
//! <https://github.com/Arkiv-Network/arkiv-op-geth/blob/4d831af4042037469d9b941e41cd79d78fd37f4c/arkiv/logs/arkiv.go>.
use vstd::prelude::*;

use crate::tx::receipt::RawTransactionReceipt;

use crate::abi::{
    AbiError, LogData, check_shape, data_word, event_signature_hash, first_topic_is,
    shape_outcome, signature_hash, word_views,
};
use crate::primitives::{Address, Uint256, Word, address_from_word, address_of_word, word_at};

verus! {

/// The address of the Arkiv storage contract. All entity-related transactions are
/// sent to this address: `0x00000000000000000000000000000061726B6976`.
pub fn storage_address() -> (r: Address)
    ensures
        r@ == storage_address_spec(),
{
    let a: Address = [0, 0, 0, 0, 0, 0, 0, 0, 0, 0, 0, 0, 0, 0, 0, 0x61, 0x72, 0x6B, 0x69, 0x76];
    assert(a@ =~= storage_address_spec());
    a
}

pub open spec fn storage_address_spec() -> Seq<u8> {
    seq![0u8, 0, 0, 0, 0, 0, 0, 0, 0, 0, 0, 0, 0, 0, 0, 0x61, 0x72, 0x6B, 0x69, 0x76]
}

/// `ArkivEntityCreated(uint256 indexed entityKey, address indexed ownerAddress, uint256 expirationBlock, uint256 cost)`.
pub const ENTITY_CREATED_SIGNATURE: &'static str = "ArkivEntityCreated(uint256,address,uint256,uint256)";

/// `ArkivEntityUpdated(uint256 indexed entityKey, address indexed ownerAddress, uint256 oldExpirationBlock, uint256 newExpirationBlock, uint256 cost)`.
pub const ENTITY_UPDATED_SIGNATURE: &'static str = "ArkivEntityUpdated(uint256,address,uint256,uint256,uint256)";

/// `ArkivEntityExpired(uint256 indexed entityKey, address indexed ownerAddress)`.
pub const ENTITY_EXPIRED_SIGNATURE: &'static str = "ArkivEntityExpired(uint256,address)";

/// `ArkivEntityDeleted(uint256 indexed entityKey, address indexed ownerAddress)`.
pub const ENTITY_DELETED_SIGNATURE: &'static str = "ArkivEntityDeleted(uint256,address)";

/// `ArkivEntityBTLExtended(uint256 indexed entityKey, address indexed ownerAddress, uint256 oldExpirationBlock, uint256 newExpirationBlock, uint256 cost)`.
pub const ENTITY_BTL_EXTENDED_SIGNATURE: &'static str = "ArkivEntityBTLExtended(uint256,address,uint256,uint256,uint256)";

/// `ArkivEntityOwnerChanged(uint256 indexed entityKey, address indexed oldOwnerAddress, address indexed newOwnerAddress)`.
pub const ENTITY_OWNER_CHANGED_SIGNATURE: &'static str = "ArkivEntityOwnerChanged(uint256,address,address)";

/// The parameters of `ArkivEntityCreated`.
#[derive(Debug, Clone, Copy)]
pub struct ArkivEntityCreated {
    pub entity_key: Uint256,
    pub owner_address: Address,
    pub expiration_block: Uint256,
    pub cost: Uint256,
}

/// The parameters of `ArkivEntityUpdated`.
#[derive(Debug, Clone, Copy)]
pub struct ArkivEntityUpdated {
    pub entity_key: Uint256,
    pub owner_address: Address,
    pub old_expiration_block: Uint256,
    pub new_expiration_block: Uint256,
    pub cost: Uint256,
}

/// The parameters of `ArkivEntityExpired`.
#[derive(Debug, Clone, Copy)]
pub struct ArkivEntityExpired {
    pub entity_key: Uint256,
    pub owner_address: Address,
}

/// The parameters of `ArkivEntityDeleted`.
#[derive(Debug, Clone, Copy)]
pub struct ArkivEntityDeleted {
    pub entity_key: Uint256,
    pub owner_address: Address,
}

/// The parameters of `ArkivEntityBTLExtended`.
#[derive(Debug, Clone, Copy)]
pub struct ArkivEntityBTLExtended {
    pub entity_key: Uint256,
    pub owner_address: Address,
    pub old_expiration_block: Uint256,
    pub new_expiration_block: Uint256,
    pub cost: Uint256,
}

/// The parameters of `ArkivEntityOwnerChanged`.
#[derive(Debug, Clone, Copy)]
pub struct ArkivEntityOwnerChanged {
    pub entity_key: Uint256,
    pub old_owner_address: Address,
    pub new_owner_address: Address,
}

/// An event of the storage contract.
#[derive(Debug, Clone, Copy)]
pub enum ArkivAbiEvent {
    ArkivEntityCreated(ArkivEntityCreated),
    ArkivEntityUpdated(ArkivEntityUpdated),
    ArkivEntityExpired(ArkivEntityExpired),
    ArkivEntityDeleted(ArkivEntityDeleted),
    ArkivEntityBTLExtended(ArkivEntityBTLExtended),
    ArkivEntityOwnerChanged(ArkivEntityOwnerChanged),
}

/// Errors of transactions sent to the storage contract.
#[derive(Debug, Clone)]
pub enum ContractError {
    /// The transaction failed; its receipt is attached.
    BadTransactionStatus { receipt: Box<RawTransactionReceipt> },
    /// A log of the receipt does not decode as an event of the storage contract.
    AbiError(AbiError),
}

/// The signature hashes of the storage contract's events, in declaration order.
pub struct ArkivAbiSignatures {
    pub created: Word,
    pub updated: Word,
    pub expired: Word,
    pub deleted: Word,
    pub btl_extended: Word,
    pub owner_changed: Word,
}

/// The views of a set of signature hashes, in declaration order.
pub open spec fn signatures_view(s: ArkivAbiSignatures) -> Seq<Seq<u8>> {
    seq![
        s.created@,
        s.updated@,
        s.expired@,
        s.deleted@,
        s.btl_extended@,
        s.owner_changed@,
    ]
}

/// The signature hashes of the storage contract's events, in declaration order.
pub open spec fn arkiv_signatures() -> Seq<Seq<u8>> {
    seq![
        signature_hash(ENTITY_CREATED_SIGNATURE),
        signature_hash(ENTITY_UPDATED_SIGNATURE),
        signature_hash(ENTITY_EXPIRED_SIGNATURE),
        signature_hash(ENTITY_DELETED_SIGNATURE),
        signature_hash(ENTITY_BTL_EXTENDED_SIGNATURE),
        signature_hash(ENTITY_OWNER_CHANGED_SIGNATURE),
    ]
}

impl ArkivAbiSignatures {
    /// Hash the signatures of the storage contract's events.
    pub fn compute() -> (s: ArkivAbiSignatures)
        ensures
            signatures_view(s) == arkiv_signatures(),
    {
        let s = ArkivAbiSignatures {
            created: event_signature_hash(ENTITY_CREATED_SIGNATURE),
            updated: event_signature_hash(ENTITY_UPDATED_SIGNATURE),
            expired: event_signature_hash(ENTITY_EXPIRED_SIGNATURE),
            deleted: event_signature_hash(ENTITY_DELETED_SIGNATURE),
            btl_extended: event_signature_hash(ENTITY_BTL_EXTENDED_SIGNATURE),
            owner_changed: event_signature_hash(ENTITY_OWNER_CHANGED_SIGNATURE),
        };
        assert(signatures_view(s) =~= arkiv_signatures());
        s
    }
}

/// Whether `r` is what a log with `topics` and `data` decodes as, given the
/// signature hashes `sigs` of the events (in declaration order): the first event
/// whose signature hash is the first topic, provided the log has that event's
/// topics and enough data. Indexed parameters come from the topics after the
/// first, an indexed `address` being the last 20 bytes of its topic; the others
/// are the words of the data, in order.
pub open spec fn arkiv_abi_decodes_as(topics: Seq<Seq<u8>>, data: Seq<u8>, sigs: Seq<Seq<u8>>, r: Result<ArkivAbiEvent, AbiError>) -> bool {
    if topics.len() == 0 {
        r == Err::<ArkivAbiEvent, AbiError>(AbiError::InvalidLog)
    } else if topics[0] == sigs[0] {
        match shape_outcome(topics, data, 3, 2) {
            Err(e) => r == Err::<ArkivAbiEvent, AbiError>(e),
            Ok(()) => r matches Ok(ArkivAbiEvent::ArkivEntityCreated(d)) && {
                &&& d.entity_key@ == topics[1]
                &&& d.owner_address@ == address_of_word(topics[2])
                &&& d.expiration_block@ == data_word(data, 0)
                &&& d.cost@ == data_word(data, 1)
            },
        }
    } else if topics[0] == sigs[1] {
        match shape_outcome(topics, data, 3, 3) {
            Err(e) => r == Err::<ArkivAbiEvent, AbiError>(e),
            Ok(()) => r matches Ok(ArkivAbiEvent::ArkivEntityUpdated(d)) && {
                &&& d.entity_key@ == topics[1]
                &&& d.owner_address@ == address_of_word(topics[2])
                &&& d.old_expiration_block@ == data_word(data, 0)
                &&& d.new_expiration_block@ == data_word(data, 1)
                &&& d.cost@ == data_word(data, 2)
            },
        }
    } else if topics[0] == sigs[2] {
        match shape_outcome(topics, data, 3, 0) {
            Err(e) => r == Err::<ArkivAbiEvent, AbiError>(e),
            Ok(()) => r matches Ok(ArkivAbiEvent::ArkivEntityExpired(d)) && {
                &&& d.entity_key@ == topics[1]
                &&& d.owner_address@ == address_of_word(topics[2])
            },
        }
    } else if topics[0] == sigs[3] {
        match shape_outcome(topics, data, 3, 0) {
            Err(e) => r == Err::<ArkivAbiEvent, AbiError>(e),
            Ok(()) => r matches Ok(ArkivAbiEvent::ArkivEntityDeleted(d)) && {
                &&& d.entity_key@ == topics[1]
                &&& d.owner_address@ == address_of_word(topics[2])
            },
        }
    } else if topics[0] == sigs[4] {
        match shape_outcome(topics, data, 3, 3) {
            Err(e) => r == Err::<ArkivAbiEvent, AbiError>(e),
            Ok(()) => r matches Ok(ArkivAbiEvent::ArkivEntityBTLExtended(d)) && {
                &&& d.entity_key@ == topics[1]
                &&& d.owner_address@ == address_of_word(topics[2])
                &&& d.old_expiration_block@ == data_word(data, 0)
                &&& d.new_expiration_block@ == data_word(data, 1)
                &&& d.cost@ == data_word(data, 2)
            },
        }
    } else if topics[0] == sigs[5] {
        match shape_outcome(topics, data, 4, 0) {
            Err(e) => r == Err::<ArkivAbiEvent, AbiError>(e),
            Ok(()) => r matches Ok(ArkivAbiEvent::ArkivEntityOwnerChanged(d)) && {
                &&& d.entity_key@ == topics[1]
                &&& d.old_owner_address@ == address_of_word(topics[2])
                &&& d.new_owner_address@ == address_of_word(topics[3])
            },
        }
    } else {
        r == Err::<ArkivAbiEvent, AbiError>(AbiError::InvalidLog)
    }
}

/// The error of a shape check, if any.
pub open spec fn error_of(r: Result<(), AbiError>) -> Option<AbiError> {
    match r {
        Ok(()) => None,
        Err(e) => Some(e),
    }
}

/// The error that decoding a log with `topics` and `data` gives, if it gives one.
pub open spec fn abi_decode_error(topics: Seq<Seq<u8>>, data: Seq<u8>, sigs: Seq<Seq<u8>>) -> Option<AbiError> {
    if topics.len() == 0 {
        Some(AbiError::InvalidLog)
    } else if topics[0] == sigs[0] {
        error_of(shape_outcome(topics, data, 3, 2))
    } else if topics[0] == sigs[1] {
        error_of(shape_outcome(topics, data, 3, 3))
    } else if topics[0] == sigs[2] {
        error_of(shape_outcome(topics, data, 3, 0))
    } else if topics[0] == sigs[3] {
        error_of(shape_outcome(topics, data, 3, 0))
    } else if topics[0] == sigs[4] {
        error_of(shape_outcome(topics, data, 3, 3))
    } else if topics[0] == sigs[5] {
        error_of(shape_outcome(topics, data, 4, 0))
    } else {
        Some(AbiError::InvalidLog)
    }
}

/// Decoding fails exactly where `abi_decode_error` gives an error, and with that error.
pub proof fn lemma_decode_error(topics: Seq<Seq<u8>>, data: Seq<u8>, sigs: Seq<Seq<u8>>, r: Result<ArkivAbiEvent, AbiError>)
    requires
        arkiv_abi_decodes_as(topics, data, sigs, r),
    ensures
        r is Ok <==> abi_decode_error(topics, data, sigs) is None,
        r matches Err(e) ==> abi_decode_error(topics, data, sigs) == Some(e),
{
}

/// The words of `a + b + c`, for three 32-byte words, are `a`, `b` and `c` in order.
proof fn lemma_three_words(a: Seq<u8>, b: Seq<u8>, c: Seq<u8>)
    requires
        a.len() == 32,
        b.len() == 32,
        c.len() == 32,
    ensures
        data_word(a + b + c, 0) == a,
        data_word(a + b + c, 1) == b,
        data_word(a + b + c, 2) == c,
{
    assert(data_word(a + b + c, 0) =~= a);
    assert(data_word(a + b + c, 1) =~= b);
    assert(data_word(a + b + c, 2) =~= c);
}

/// The words of `a + b`, for two 32-byte words, are `a` and `b` in order.
proof fn lemma_two_words(a: Seq<u8>, b: Seq<u8>)
    requires
        a.len() == 32,
        b.len() == 32,
    ensures
        data_word(a + b, 0) == a,
        data_word(a + b, 1) == b,
{
    assert(data_word(a + b, 0) =~= a);
    assert(data_word(a + b, 1) =~= b);
}

/// An `ArkivEntityCreated` event decoded from a log carries, in the event's
/// declared order, the entity key (first indexed topic), the owner (the last 20
/// bytes of the second indexed topic), then the data words `expirationBlock` and
/// `cost`.
pub proof fn law_created_fields_in_declared_order(
    topics: Seq<Seq<u8>>,
    expiration: Seq<u8>,
    cost: Seq<u8>,
    sigs: Seq<Seq<u8>>,
    d: ArkivEntityCreated,
)
    requires
        expiration.len() == 32,
        cost.len() == 32,
        arkiv_abi_decodes_as(topics, expiration + cost, sigs, Ok(ArkivAbiEvent::ArkivEntityCreated(d))),
    ensures
        topics.len() == 3,
        d.entity_key@ == topics[1],
        d.owner_address@ == topics[2].subrange(12, 32),
        d.expiration_block@ == expiration,
        d.cost@ == cost,
{
    lemma_two_words(expiration, cost);
}

/// An `ArkivEntityUpdated` event decoded from a log carries, in the event's
/// declared order, the entity key, the owner, then the data words
/// `oldExpirationBlock`, `newExpirationBlock` and `cost`.
pub proof fn law_updated_fields_in_declared_order(
    topics: Seq<Seq<u8>>,
    old: Seq<u8>,
    new: Seq<u8>,
    cost: Seq<u8>,
    sigs: Seq<Seq<u8>>,
    d: ArkivEntityUpdated,
)
    requires
        old.len() == 32,
        new.len() == 32,
        cost.len() == 32,
        arkiv_abi_decodes_as(topics, old + new + cost, sigs, Ok(ArkivAbiEvent::ArkivEntityUpdated(d))),
    ensures
        topics.len() == 3,
        d.entity_key@ == topics[1],
        d.owner_address@ == topics[2].subrange(12, 32),
        d.old_expiration_block@ == old,
        d.new_expiration_block@ == new,
        d.cost@ == cost,
{
    lemma_three_words(old, new, cost);
}

/// An `ArkivEntityBTLExtended` event decoded from a log carries, in the event's
/// declared order, the entity key, the owner, then the data words
/// `oldExpirationBlock`, `newExpirationBlock` and `cost`.
pub proof fn law_btl_extended_fields_in_declared_order(
    topics: Seq<Seq<u8>>,
    old: Seq<u8>,
    new: Seq<u8>,
    cost: Seq<u8>,
    sigs: Seq<Seq<u8>>,
    d: ArkivEntityBTLExtended,
)
    requires
        old.len() == 32,
        new.len() == 32,
        cost.len() == 32,
        arkiv_abi_decodes_as(topics, old + new + cost, sigs, Ok(ArkivAbiEvent::ArkivEntityBTLExtended(d))),
    ensures
        topics.len() == 3,
        d.entity_key@ == topics[1],
        d.owner_address@ == topics[2].subrange(12, 32),
        d.old_expiration_block@ == old,
        d.new_expiration_block@ == new,
        d.cost@ == cost,
{
    lemma_three_words(old, new, cost);
}

/// An `ArkivEntityOwnerChanged` event decoded from a log carries, in the event's
/// declared order, the entity key, the old owner and the new owner, each owner
/// being the last 20 bytes of its topic.
pub proof fn law_owner_changed_fields_in_declared_order(
    topics: Seq<Seq<u8>>,
    data: Seq<u8>,
    sigs: Seq<Seq<u8>>,
    d: ArkivEntityOwnerChanged,
)
    requires
        arkiv_abi_decodes_as(topics, data, sigs, Ok(ArkivAbiEvent::ArkivEntityOwnerChanged(d))),
    ensures
        topics.len() == 4,
        d.entity_key@ == topics[1],
        d.old_owner_address@ == topics[2].subrange(12, 32),
        d.new_owner_address@ == topics[3].subrange(12, 32),
{
}

/// Decode a log as an event of the storage contract, given the signature hashes
/// of its events.
pub fn decode_arkiv_abi_event(topics: &Vec<Word>, data: &Vec<u8>, sigs: &ArkivAbiSignatures) -> (r: Result<ArkivAbiEvent, AbiError>)
    ensures
        arkiv_abi_decodes_as(word_views(topics@), data@, signatures_view(*sigs), r),
{
    let ghost t = word_views(topics@);
    assert(t.len() == topics@.len());
    if first_topic_is(topics, &sigs.created) {
        check_shape(topics, data, 3, 2)?;
        let e = ArkivAbiEvent::ArkivEntityCreated(ArkivEntityCreated {
            entity_key: topics[1],
            owner_address: address_from_word(&topics[2]),
            expiration_block: word_at(data.as_slice(), 0),
            cost: word_at(data.as_slice(), 1),
        });
        assert(t[1] == topics@[1]@ && t[2] == topics@[2]@);
        return Ok(e);
    }
    if first_topic_is(topics, &sigs.updated) {
        check_shape(topics, data, 3, 3)?;
        let e = ArkivAbiEvent::ArkivEntityUpdated(ArkivEntityUpdated {
            entity_key: topics[1],
            owner_address: address_from_word(&topics[2]),
            old_expiration_block: word_at(data.as_slice(), 0),
            new_expiration_block: word_at(data.as_slice(), 1),
            cost: word_at(data.as_slice(), 2),
        });
        assert(t[1] == topics@[1]@ && t[2] == topics@[2]@);
        return Ok(e);
    }
    if first_topic_is(topics, &sigs.expired) {
        check_shape(topics, data, 3, 0)?;
        let e = ArkivAbiEvent::ArkivEntityExpired(ArkivEntityExpired {
            entity_key: topics[1],
            owner_address: address_from_word(&topics[2]),
        });
        assert(t[1] == topics@[1]@ && t[2] == topics@[2]@);
        return Ok(e);
    }
    if first_topic_is(topics, &sigs.deleted) {
        check_shape(topics, data, 3, 0)?;
        let e = ArkivAbiEvent::ArkivEntityDeleted(ArkivEntityDeleted {
            entity_key: topics[1],
            owner_address: address_from_word(&topics[2]),
        });
        assert(t[1] == topics@[1]@ && t[2] == topics@[2]@);
        return Ok(e);
    }
    if first_topic_is(topics, &sigs.btl_extended) {
        check_shape(topics, data, 3, 3)?;
        let e = ArkivAbiEvent::ArkivEntityBTLExtended(ArkivEntityBTLExtended {
            entity_key: topics[1],
            owner_address: address_from_word(&topics[2]),
            old_expiration_block: word_at(data.as_slice(), 0),
            new_expiration_block: word_at(data.as_slice(), 1),
            cost: word_at(data.as_slice(), 2),
        });
        assert(t[1] == topics@[1]@ && t[2] == topics@[2]@);
        return Ok(e);
    }
    if first_topic_is(topics, &sigs.owner_changed) {
        check_shape(topics, data, 4, 0)?;
        let e = ArkivAbiEvent::ArkivEntityOwnerChanged(ArkivEntityOwnerChanged {
            entity_key: topics[1],
            old_owner_address: address_from_word(&topics[2]),
            new_owner_address: address_from_word(&topics[3]),
        });
        assert(t[1] == topics@[1]@ && t[2] == topics@[2]@ && t[3] == topics@[3]@);
        return Ok(e);
    }
    Err(AbiError::InvalidLog)
}

/// Decode the topics and data of a log as an event of the storage contract.
pub fn decode_log_data(log: &LogData) -> (r: Result<ArkivAbiEvent, AbiError>)
    ensures
        arkiv_abi_decodes_as(word_views(log.topics@), log.data@, arkiv_signatures(), r),
{
    let sigs = ArkivAbiSignatures::compute();
    decode_arkiv_abi_event(&log.topics, &log.data, &sigs)
}

} // verus!
