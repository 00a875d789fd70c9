//! Events of the earlier GolemBase storage contract.
use vstd::prelude::*;

use crate::abi::{AbiError, Log, check_shape, data_word, first_topic_is, shape_outcome, word_views};
use crate::eth::{GolemBaseSignatures, golem_base_signatures, signatures_view};
use crate::primitives::{EntityKey, Word, u64_or_zero, u64_or_zero_of, word_at};
use crate::rpc::types::EventError;

verus! {

/// A GolemBase event parsed from a log.
#[derive(Debug, Clone, Copy)]
pub enum Event {
    /// An entity was created.
    EntityCreated {
        entity_id: EntityKey,
        expiration_block: u64,
        block_number: u64,
        transaction_hash: EntityKey,
    },
    /// An entity was updated.
    EntityUpdated {
        entity_id: EntityKey,
        expiration_block: u64,
        block_number: u64,
        transaction_hash: EntityKey,
    },
    /// An entity was removed.
    EntityRemoved { entity_id: EntityKey, block_number: u64, transaction_hash: EntityKey },
    /// The BTL of an entity was extended.
    EntityExtended {
        entity_id: EntityKey,
        old_expiration_block: u64,
        new_expiration_block: u64,
        block_number: u64,
        transaction_hash: EntityKey,
    },
}

/// Whether `r` is what a log with `topics` and `data`, emitted in block
/// `block_number` by transaction `transaction_hash`, parses as, given the signature
/// hashes `sigs` of the GolemBase events (in declaration order). Expiration blocks
/// that do not fit in a `u64` become zero.
pub open spec fn golem_base_parses_as(
    topics: Seq<Seq<u8>>,
    data: Seq<u8>,
    sigs: Seq<Seq<u8>>,
    block_number: u64,
    transaction_hash: EntityKey,
    r: Result<Event, EventError>,
) -> bool {
    if topics.len() == 0 {
        r == Err::<Event, EventError>(EventError::Abi(AbiError::InvalidLog))
    } else if topics[0] == sigs[0] {
        match shape_outcome(topics, data, 2, 1) {
            Err(e) => r == Err::<Event, EventError>(EventError::Abi(e)),
            Ok(()) => r matches Ok(Event::EntityCreated { entity_id, expiration_block, block_number: b, transaction_hash: t }) && {
                &&& entity_id@ == topics[1]
                &&& expiration_block == u64_or_zero(data_word(data, 0))
                &&& b == block_number
                &&& t == transaction_hash
            },
        }
    } else if topics[0] == sigs[1] {
        match shape_outcome(topics, data, 2, 1) {
            Err(e) => r == Err::<Event, EventError>(EventError::Abi(e)),
            Ok(()) => r matches Ok(Event::EntityUpdated { entity_id, expiration_block, block_number: b, transaction_hash: t }) && {
                &&& entity_id@ == topics[1]
                &&& expiration_block == u64_or_zero(data_word(data, 0))
                &&& b == block_number
                &&& t == transaction_hash
            },
        }
    } else if topics[0] == sigs[2] {
        match shape_outcome(topics, data, 2, 0) {
            Err(e) => r == Err::<Event, EventError>(EventError::Abi(e)),
            Ok(()) => r matches Ok(Event::EntityRemoved { entity_id, block_number: b, transaction_hash: t }) && {
                &&& entity_id@ == topics[1]
                &&& b == block_number
                &&& t == transaction_hash
            },
        }
    } else if topics[0] == sigs[3] {
        match shape_outcome(topics, data, 2, 2) {
            Err(e) => r == Err::<Event, EventError>(EventError::Abi(e)),
            Ok(()) => r matches Ok(Event::EntityExtended { entity_id, old_expiration_block, new_expiration_block, block_number: b, transaction_hash: t }) && {
                &&& entity_id@ == topics[1]
                &&& old_expiration_block == u64_or_zero(data_word(data, 0))
                &&& new_expiration_block == u64_or_zero(data_word(data, 1))
                &&& b == block_number
                &&& t == transaction_hash
            },
        }
    } else {
        r == Err::<Event, EventError>(EventError::Abi(AbiError::InvalidLog))
    }
}

/// Parse the topics and data of a log emitted in block `block_number` by
/// transaction `transaction_hash`, given the signature hashes of the GolemBase events.
pub fn parse_golem_base_event(
    topics: &Vec<Word>,
    data: &Vec<u8>,
    sigs: &GolemBaseSignatures,
    block_number: u64,
    transaction_hash: EntityKey,
) -> (r: Result<Event, EventError>)
    ensures
        golem_base_parses_as(word_views(topics@), data@, signatures_view(*sigs), block_number, transaction_hash, r),
{
    let ghost t = word_views(topics@);
    assert(t.len() == topics@.len());
    if first_topic_is(topics, &sigs.created) {
        match check_shape(topics, data, 2, 1) {
            Err(e) => return Err(EventError::Abi(e)),
            Ok(()) => {},
        }
        let w = word_at(data.as_slice(), 0);
        assert(t[1] == topics@[1]@);
        return Ok(Event::EntityCreated {
            entity_id: topics[1],
            expiration_block: u64_or_zero_of(&w),
            block_number,
            transaction_hash,
        });
    }
    if first_topic_is(topics, &sigs.updated) {
        match check_shape(topics, data, 2, 1) {
            Err(e) => return Err(EventError::Abi(e)),
            Ok(()) => {},
        }
        let w = word_at(data.as_slice(), 0);
        assert(t[1] == topics@[1]@);
        return Ok(Event::EntityUpdated {
            entity_id: topics[1],
            expiration_block: u64_or_zero_of(&w),
            block_number,
            transaction_hash,
        });
    }
    if first_topic_is(topics, &sigs.deleted) {
        match check_shape(topics, data, 2, 0) {
            Err(e) => return Err(EventError::Abi(e)),
            Ok(()) => {},
        }
        assert(t[1] == topics@[1]@);
        return Ok(Event::EntityRemoved { entity_id: topics[1], block_number, transaction_hash });
    }
    if first_topic_is(topics, &sigs.btl_extended) {
        match check_shape(topics, data, 2, 2) {
            Err(e) => return Err(EventError::Abi(e)),
            Ok(()) => {},
        }
        let old = word_at(data.as_slice(), 0);
        let new = word_at(data.as_slice(), 1);
        assert(t[1] == topics@[1]@);
        return Ok(Event::EntityExtended {
            entity_id: topics[1],
            old_expiration_block: u64_or_zero_of(&old),
            new_expiration_block: u64_or_zero_of(&new),
            block_number,
            transaction_hash,
        });
    }
    Err(EventError::Abi(AbiError::InvalidLog))
}

/// The block from which to listen for events.
#[derive(Debug, Clone, Copy, PartialEq, Eq, Structural)]
pub enum FromBlock {
    /// The latest block.
    Latest,
    /// The block with this number.
    Number(u64),
}

/// A filter for the logs of a contract: its address, the first block, and the
/// signature hashes of the events to report.
#[derive(Debug, Clone)]
pub struct EventFilter {
    pub address: crate::primitives::Address,
    pub from_block: FromBlock,
    pub event_signatures: Vec<Word>,
}

/// A filter for the GolemBase events, from `block` on: the storage contract's
/// address and the signature hashes of its four events.
pub fn create_event_filter(block: FromBlock) -> (f: EventFilter)
    ensures
        f.address@ == crate::eth::storage_address_spec(),
        f.from_block == block,
        word_views(f.event_signatures@) == golem_base_signatures(),
{
    let sigs = GolemBaseSignatures::compute();
    let mut v: Vec<Word> = Vec::new();
    v.push(sigs.created);
    v.push(sigs.updated);
    v.push(sigs.deleted);
    v.push(sigs.btl_extended);
    assert(word_views(v@) =~= golem_base_signatures());
    EventFilter { address: crate::eth::storage_address(), from_block: block, event_signatures: v }
}

/// What parsing `log` gives: an error for a missing block number, then for a
/// missing transaction hash; else what its topics and data parse as.
pub open spec fn event_parses_as(log: Log, r: Result<Event, EventError>) -> bool {
    match log.block_number {
        None => r == Err::<Event, EventError>(EventError::MissingBlockNumber),
        Some(bn) => match log.transaction_hash {
            None => r == Err::<Event, EventError>(EventError::MissingTransactionHash),
            Some(tx) => golem_base_parses_as(word_views(log.topics@), log.data@, golem_base_signatures(), bn, tx, r),
        },
    }
}

impl Event {
    /// Parse a log into a GolemBase event.
    pub fn from_log(log: &Log) -> (r: Result<Event, EventError>)
        ensures
            event_parses_as(*log, r),
    {
        let block_number = match log.block_number {
            Some(b) => b,
            None => return Err(EventError::MissingBlockNumber),
        };
        let transaction_hash = match log.transaction_hash {
            Some(t) => t,
            None => return Err(EventError::MissingTransactionHash),
        };
        let sigs = GolemBaseSignatures::compute();
        parse_golem_base_event(&log.topics, &log.data, &sigs, block_number, transaction_hash)
    }
}

impl vstd::std_specs::convert::TryFromSpecImpl<Log> for Event {
    open spec fn obeys_try_from_spec() -> bool {
        false
    }

    open spec fn try_from_spec(v: Log) -> Result<Self, Self::Error> {
        arbitrary()
    }
}

impl TryFrom<Log> for Event {
    type Error = EventError;

    /// Parse a log into a GolemBase event.
    fn try_from(log: Log) -> (r: Result<Event, EventError>)
        ensures
            event_parses_as(log, r),
    {
        Event::from_log(&log)
    }
}

} // verus!
