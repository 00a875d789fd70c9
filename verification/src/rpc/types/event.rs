use vstd::prelude::*;

use crate::abi::{AbiError, Log, LogData, word_views};
use crate::contract::{
    ArkivAbiEvent, abi_decode_error, arkiv_abi_decodes_as, arkiv_signatures, decode_log_data,
    law_btl_extended_fields_in_declared_order, law_created_fields_in_declared_order,
    law_owner_changed_fields_in_declared_order,
    law_updated_fields_in_declared_order, lemma_decode_error,
};
use crate::primitives::{Address, EntityKey, be_value, u64_or_zero, u64_or_zero_of};

verus! {

/// An Arkiv event parsed from a log of the storage contract.
#[derive(Debug, Clone, Copy)]
pub enum ArkivEvent {
    /// An entity was created.
    EntityCreated {
        entity_id: EntityKey,
        expiration_block: u64,
        block_number: u64,
        transaction_hash: EntityKey,
    },
    /// An entity was updated.
    EntityUpdated {
        entity_id: EntityKey,
        expiration_block: u64,
        block_number: u64,
        transaction_hash: EntityKey,
    },
    /// An entity was removed.
    EntityRemoved { entity_id: EntityKey, block_number: u64, transaction_hash: EntityKey },
    /// The BTL of an entity was extended.
    EntityExtended {
        entity_id: EntityKey,
        old_expiration_block: u64,
        new_expiration_block: u64,
        block_number: u64,
        transaction_hash: EntityKey,
    },
    /// The ownership of an entity was transferred.
    EntityTransferred {
        entity_id: EntityKey,
        old_owner: Address,
        new_owner: Address,
        block_number: u64,
        transaction_hash: EntityKey,
    },
    /// A house-keeping event emitted when an entity expires.
    EntityExpired {
        entity_id: EntityKey,
        owner_address: Address,
        block_number: u64,
        transaction_hash: EntityKey,
    },
}

/// Why a log is not an Arkiv event.
#[derive(Debug, Clone, Copy, PartialEq, Eq, Structural)]
pub enum EventError {
    /// The log has no block number.
    MissingBlockNumber,
    /// The log has no transaction hash.
    MissingTransactionHash,
    /// The log does not decode as an event of the storage contract.
    Abi(AbiError),
}

/// The Arkiv event of a decoded storage contract event emitted in block
/// `block_number` by transaction `transaction_hash`. Expiration blocks that do not
/// fit in a `u64` become zero.
pub open spec fn arkiv_event_of(ev: ArkivAbiEvent, block_number: u64, transaction_hash: EntityKey) -> ArkivEvent {
    match ev {
        ArkivAbiEvent::ArkivEntityCreated(d) => ArkivEvent::EntityCreated {
            entity_id: d.entity_key,
            expiration_block: u64_or_zero(d.expiration_block@),
            block_number,
            transaction_hash,
        },
        ArkivAbiEvent::ArkivEntityUpdated(d) => ArkivEvent::EntityUpdated {
            entity_id: d.entity_key,
            expiration_block: u64_or_zero(d.new_expiration_block@),
            block_number,
            transaction_hash,
        },
        ArkivAbiEvent::ArkivEntityDeleted(d) => ArkivEvent::EntityRemoved {
            entity_id: d.entity_key,
            block_number,
            transaction_hash,
        },
        ArkivAbiEvent::ArkivEntityBTLExtended(d) => ArkivEvent::EntityExtended {
            entity_id: d.entity_key,
            old_expiration_block: u64_or_zero(d.old_expiration_block@),
            new_expiration_block: u64_or_zero(d.new_expiration_block@),
            block_number,
            transaction_hash,
        },
        ArkivAbiEvent::ArkivEntityOwnerChanged(d) => ArkivEvent::EntityTransferred {
            entity_id: d.entity_key,
            old_owner: d.old_owner_address,
            new_owner: d.new_owner_address,
            block_number,
            transaction_hash,
        },
        ArkivAbiEvent::ArkivEntityExpired(d) => ArkivEvent::EntityExpired {
            entity_id: d.entity_key,
            owner_address: d.owner_address,
            block_number,
            transaction_hash,
        },
    }
}

/// The Arkiv event of a decoded storage contract event.
pub fn arkiv_event_from(ev: ArkivAbiEvent, block_number: u64, transaction_hash: EntityKey) -> (r: ArkivEvent)
    ensures
        r == arkiv_event_of(ev, block_number, transaction_hash),
{
    match ev {
        ArkivAbiEvent::ArkivEntityCreated(d) => ArkivEvent::EntityCreated {
            entity_id: d.entity_key,
            expiration_block: u64_or_zero_of(&d.expiration_block),
            block_number,
            transaction_hash,
        },
        ArkivAbiEvent::ArkivEntityUpdated(d) => ArkivEvent::EntityUpdated {
            entity_id: d.entity_key,
            expiration_block: u64_or_zero_of(&d.new_expiration_block),
            block_number,
            transaction_hash,
        },
        ArkivAbiEvent::ArkivEntityDeleted(d) => ArkivEvent::EntityRemoved {
            entity_id: d.entity_key,
            block_number,
            transaction_hash,
        },
        ArkivAbiEvent::ArkivEntityBTLExtended(d) => ArkivEvent::EntityExtended {
            entity_id: d.entity_key,
            old_expiration_block: u64_or_zero_of(&d.old_expiration_block),
            new_expiration_block: u64_or_zero_of(&d.new_expiration_block),
            block_number,
            transaction_hash,
        },
        ArkivAbiEvent::ArkivEntityOwnerChanged(d) => ArkivEvent::EntityTransferred {
            entity_id: d.entity_key,
            old_owner: d.old_owner_address,
            new_owner: d.new_owner_address,
            block_number,
            transaction_hash,
        },
        ArkivAbiEvent::ArkivEntityExpired(d) => ArkivEvent::EntityExpired {
            entity_id: d.entity_key,
            owner_address: d.owner_address,
            block_number,
            transaction_hash,
        },
    }
}

/// What parsing `log` gives: an error for a missing block number, then for a
/// missing transaction hash, then for a log that does not decode; else the event.
pub open spec fn arkiv_event_parses_as(log: Log, r: Result<ArkivEvent, EventError>) -> bool {
    match log.block_number {
        None => r == Err::<ArkivEvent, EventError>(EventError::MissingBlockNumber),
        Some(bn) => match log.transaction_hash {
            None => r == Err::<ArkivEvent, EventError>(EventError::MissingTransactionHash),
            Some(tx) => match abi_decode_error(word_views(log.topics@), log.data@, arkiv_signatures()) {
                Some(e) => r == Err::<ArkivEvent, EventError>(EventError::Abi(e)),
                None => exists|ev: ArkivAbiEvent|
                    arkiv_abi_decodes_as(word_views(log.topics@), log.data@, arkiv_signatures(), Ok(ev))
                        && r == Ok::<ArkivEvent, EventError>(arkiv_event_of(ev, bn, tx)),
            },
        },
    }
}

/// The entity key and expiration that an `ArkivEntityUpdated` log reports: the
/// key of its first indexed topic and the expiration after the update, the data
/// word `newExpirationBlock` (the second of `oldExpirationBlock`,
/// `newExpirationBlock`, `cost`), as a `u64` where it fits and zero otherwise;
/// with the log's block and transaction.
pub proof fn law_updated_event_reports_new_expiration(
    log: Log,
    old: Seq<u8>,
    new: Seq<u8>,
    cost: Seq<u8>,
    r: Result<ArkivEvent, EventError>,
)
    requires
        old.len() == 32,
        new.len() == 32,
        cost.len() == 32,
        log.data@ == old + new + cost,
        arkiv_event_parses_as(log, r),
        r matches Ok(ArkivEvent::EntityUpdated { .. }),
    ensures
        r matches Ok(ArkivEvent::EntityUpdated { entity_id, expiration_block, block_number, transaction_hash }) && {
            &&& entity_id@ == log.topics@[1]@
            &&& be_value(new) <= u64::MAX ==> expiration_block == be_value(new)
            &&& be_value(new) > u64::MAX ==> expiration_block == 0
            &&& log.block_number == Some(block_number)
            &&& log.transaction_hash == Some(transaction_hash)
        },
{
    let topics = word_views(log.topics@);
    let ev = choose|ev: ArkivAbiEvent|
        arkiv_abi_decodes_as(topics, log.data@, arkiv_signatures(), Ok(ev)) && r == Ok::<
            ArkivEvent,
            EventError,
        >(arkiv_event_of(ev, log.block_number->0, log.transaction_hash->0));
    if let ArkivAbiEvent::ArkivEntityUpdated(d) = ev {
        law_updated_fields_in_declared_order(topics, old, new, cost, arkiv_signatures(), d);
    }
}

/// The entity key and expirations that an `ArkivEntityBTLExtended` log reports:
/// the key of its first indexed topic, the old expiration from the data word
/// `oldExpirationBlock` and the new one from `newExpirationBlock`, in that declared
/// order, each as a `u64` where it fits and zero otherwise.
pub proof fn law_extended_event_reports_old_then_new(
    log: Log,
    old: Seq<u8>,
    new: Seq<u8>,
    cost: Seq<u8>,
    r: Result<ArkivEvent, EventError>,
)
    requires
        old.len() == 32,
        new.len() == 32,
        cost.len() == 32,
        log.data@ == old + new + cost,
        arkiv_event_parses_as(log, r),
        r matches Ok(ArkivEvent::EntityExtended { .. }),
    ensures
        r matches Ok(ArkivEvent::EntityExtended { entity_id, old_expiration_block, new_expiration_block, .. }) && {
            &&& entity_id@ == log.topics@[1]@
            &&& be_value(old) <= u64::MAX ==> old_expiration_block == be_value(old)
            &&& be_value(new) <= u64::MAX ==> new_expiration_block == be_value(new)
        },
{
    let topics = word_views(log.topics@);
    let ev = choose|ev: ArkivAbiEvent|
        arkiv_abi_decodes_as(topics, log.data@, arkiv_signatures(), Ok(ev)) && r == Ok::<
            ArkivEvent,
            EventError,
        >(arkiv_event_of(ev, log.block_number->0, log.transaction_hash->0));
    if let ArkivAbiEvent::ArkivEntityBTLExtended(d) = ev {
        law_btl_extended_fields_in_declared_order(topics, old, new, cost, arkiv_signatures(), d);
    }
}

/// The entity key and expiration that an `ArkivEntityCreated` log reports: the
/// key of its first indexed topic and the data word `expirationBlock` (the first of
/// `expirationBlock`, `cost`).
pub proof fn law_created_event_reports_expiration(
    log: Log,
    expiration: Seq<u8>,
    cost: Seq<u8>,
    r: Result<ArkivEvent, EventError>,
)
    requires
        expiration.len() == 32,
        cost.len() == 32,
        log.data@ == expiration + cost,
        arkiv_event_parses_as(log, r),
        r matches Ok(ArkivEvent::EntityCreated { .. }),
    ensures
        r matches Ok(ArkivEvent::EntityCreated { entity_id, expiration_block, .. }) && {
            &&& entity_id@ == log.topics@[1]@
            &&& be_value(expiration) <= u64::MAX ==> expiration_block == be_value(expiration)
        },
{
    let topics = word_views(log.topics@);
    let ev = choose|ev: ArkivAbiEvent|
        arkiv_abi_decodes_as(topics, log.data@, arkiv_signatures(), Ok(ev)) && r == Ok::<
            ArkivEvent,
            EventError,
        >(arkiv_event_of(ev, log.block_number->0, log.transaction_hash->0));
    if let ArkivAbiEvent::ArkivEntityCreated(d) = ev {
        law_created_fields_in_declared_order(topics, expiration, cost, arkiv_signatures(), d);
    }
}

/// The owners that an `ArkivEntityOwnerChanged` log reports: the old owner from
/// its second indexed topic and the new owner from its third (each the topic's
/// last 20 bytes), for the key of its first.
pub proof fn law_transferred_event_reports_old_then_new_owner(log: Log, r: Result<ArkivEvent, EventError>)
    requires
        arkiv_event_parses_as(log, r),
        r matches Ok(ArkivEvent::EntityTransferred { .. }),
    ensures
        r matches Ok(ArkivEvent::EntityTransferred { entity_id, old_owner, new_owner, .. }) && {
            &&& entity_id@ == log.topics@[1]@
            &&& old_owner@ == log.topics@[2]@.subrange(12, 32)
            &&& new_owner@ == log.topics@[3]@.subrange(12, 32)
        },
{
    let topics = word_views(log.topics@);
    let ev = choose|ev: ArkivAbiEvent|
        arkiv_abi_decodes_as(topics, log.data@, arkiv_signatures(), Ok(ev)) && r == Ok::<
            ArkivEvent,
            EventError,
        >(arkiv_event_of(ev, log.block_number->0, log.transaction_hash->0));
    if let ArkivAbiEvent::ArkivEntityOwnerChanged(d) = ev {
        law_owner_changed_fields_in_declared_order(topics, log.data@, arkiv_signatures(), d);
    }
}

impl ArkivEvent {
    /// Parse a log of the storage contract into an Arkiv event.
    pub fn from_log(log: Log) -> (r: Result<ArkivEvent, EventError>)
        ensures
            arkiv_event_parses_as(log, r),
    {
        let ghost l = log;
        let block_number = match log.block_number {
            Some(b) => b,
            None => return Err(EventError::MissingBlockNumber),
        };
        let transaction_hash = match log.transaction_hash {
            Some(t) => t,
            None => return Err(EventError::MissingTransactionHash),
        };
        let data = LogData { topics: log.topics, data: log.data };
        let d = decode_log_data(&data);
        proof {
            lemma_decode_error(word_views(l.topics@), l.data@, arkiv_signatures(), d);
        }
        match d {
            Ok(ev) => {
                let r = Ok(arkiv_event_from(ev, block_number, transaction_hash));
                proof {
                    assert(arkiv_abi_decodes_as(word_views(l.topics@), l.data@, arkiv_signatures(), Ok(ev)));
                }
                r
            },
            Err(e) => Err(EventError::Abi(e)),
        }
    }
}

impl vstd::std_specs::convert::TryFromSpecImpl<Log> for ArkivEvent {
    open spec fn obeys_try_from_spec() -> bool {
        false
    }

    open spec fn try_from_spec(v: Log) -> Result<Self, Self::Error> {
        arbitrary()
    }
}

impl TryFrom<Log> for ArkivEvent {
    type Error = EventError;

    /// Parse a log of the storage contract into an Arkiv event.
    fn try_from(log: Log) -> (r: Result<ArkivEvent, EventError>)
        ensures
            arkiv_event_parses_as(log, r),
    {
        ArkivEvent::from_log(log)
    }
}

} // verus!
