//! The earlier GolemBase storage contract: its address, the events it emits, and
//! the errors of the client that talks to it.
use vstd::prelude::*;

use crate::abi::{event_signature_hash, signature_hash};
use crate::primitives::{Address, Word};

verus! {

/// The address of the GolemBase storage contract:
/// `0x0000000000000000000000000000000060138453`.
pub fn storage_address() -> (r: Address)
    ensures
        r@ == storage_address_spec(),
{
    let a: Address = [0, 0, 0, 0, 0, 0, 0, 0, 0, 0, 0, 0, 0, 0, 0, 0, 0x60, 0x13, 0x84, 0x53];
    assert(a@ =~= storage_address_spec());
    a
}

pub open spec fn storage_address_spec() -> Seq<u8> {
    seq![0u8, 0, 0, 0, 0, 0, 0, 0, 0, 0, 0, 0, 0, 0, 0, 0, 0x60, 0x13, 0x84, 0x53]
}

/// `EntityCreated(uint256 indexed entityKey, uint256 expirationBlock)`.
pub const ENTITY_CREATED_SIGNATURE: &'static str = "EntityCreated(uint256,uint256)";

/// `EntityUpdated(uint256 indexed entityKey, uint256 expirationBlock)`.
pub const ENTITY_UPDATED_SIGNATURE: &'static str = "EntityUpdated(uint256,uint256)";

/// `EntityDeleted(uint256 indexed entityKey)`.
pub const ENTITY_DELETED_SIGNATURE: &'static str = "EntityDeleted(uint256)";

/// `EntityExtended(uint256 indexed entityKey, uint256 oldExpirationBlock, uint256 newExpirationBlock)`.
pub const ENTITY_BTL_EXTENDED_SIGNATURE: &'static str = "EntityExtended(uint256,uint256,uint256)";

/// The signature hashes of the GolemBase contract's events, in declaration order.
pub struct GolemBaseSignatures {
    pub created: Word,
    pub updated: Word,
    pub deleted: Word,
    pub btl_extended: Word,
}

/// The views of a set of signature hashes, in declaration order.
pub open spec fn signatures_view(s: GolemBaseSignatures) -> Seq<Seq<u8>> {
    seq![s.created@, s.updated@, s.deleted@, s.btl_extended@]
}

/// The signature hashes of the GolemBase contract's events, in declaration order.
pub open spec fn golem_base_signatures() -> Seq<Seq<u8>> {
    seq![
        signature_hash(ENTITY_CREATED_SIGNATURE),
        signature_hash(ENTITY_UPDATED_SIGNATURE),
        signature_hash(ENTITY_DELETED_SIGNATURE),
        signature_hash(ENTITY_BTL_EXTENDED_SIGNATURE),
    ]
}

impl GolemBaseSignatures {
    /// Hash the signatures of the GolemBase contract's events.
    pub fn compute() -> (s: GolemBaseSignatures)
        ensures
            signatures_view(s) == golem_base_signatures(),
    {
        let s = GolemBaseSignatures {
            created: event_signature_hash(ENTITY_CREATED_SIGNATURE),
            updated: event_signature_hash(ENTITY_UPDATED_SIGNATURE),
            deleted: event_signature_hash(ENTITY_DELETED_SIGNATURE),
            btl_extended: event_signature_hash(ENTITY_BTL_EXTENDED_SIGNATURE),
        };
        assert(signatures_view(s) =~= golem_base_signatures());
        s
    }
}

/// Errors of the GolemBase client: wrapping transaction, receipt and log
/// decoding errors.
#[derive(Debug, Clone)]
pub enum Error {
    /// Failed to send transaction.
    TransactionSendError(String),
    /// Failed to get transaction receipt.
    TransactionReceiptError(String),
    /// Unexpected log data.
    UnexpectedLogDataError(String),
}

} // verus!
