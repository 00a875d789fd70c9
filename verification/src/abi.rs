//! Event logs and the parts of ABI decoding that Arkiv's contracts need.
use vstd::prelude::*;

use crate::primitives::{Word, word_eq};

verus! {

/// The topics and data of an event log.
#[derive(Debug, Clone)]
pub struct LogData {
    pub topics: Vec<Word>,
    pub data: Vec<u8>,
}

/// An event log as a node reports it: its topics and data, and where it was emitted.
#[derive(Debug, Clone)]
pub struct Log {
    pub block_number: Option<u64>,
    pub transaction_hash: Option<Word>,
    pub topics: Vec<Word>,
    pub data: Vec<u8>,
}

/// The views of a sequence of words.
pub open spec fn word_views(ws: Seq<Word>) -> Seq<Seq<u8>> {
    ws.map_values(|w: Word| w@)
}

/// Why a log does not decode as an event of a contract.
#[derive(Debug, Clone, Copy, PartialEq, Eq, Structural)]
pub enum AbiError {
    /// The first topic is missing or is the signature hash of none of the events.
    InvalidLog,
    /// The log has more or fewer topics than the event has (its signature hash
    /// and its indexed parameters).
    TopicListLengthMismatch,
    /// The data is shorter than the event's non-indexed parameters.
    Overrun,
}

/// The Keccak-256 digest of a byte string.
pub uninterp spec fn keccak256_digest(data: Seq<u8>) -> Seq<u8>;

/// Calls `alloy::primitives::keccak256`. Its result is the Keccak-256 digest of
/// the bytes, named `keccak256_digest` here, which depends on the bytes alone.
#[verifier::external_body]
pub(crate) fn keccak256(data: &[u8]) -> (r: Word)
    ensures
        r@ == keccak256_digest(data@),
{
    alloy::primitives::keccak256(data).0
}

/// The signature hash of an event: the digest of its canonical signature.
pub open spec fn signature_hash(signature: &str) -> Seq<u8> {
    keccak256_digest(vstd::string::StringSliceAdditionalSpecFns::spec_bytes(signature))
}

/// The signature hash of an event.
pub fn event_signature_hash(signature: &str) -> (r: Word)
    ensures
        r@ == signature_hash(signature),
{
    keccak256(signature.as_bytes())
}

/// What checking the shape of a log against an event with `n_topics` topics
/// (counting the signature hash) and `n_words` words of data gives.
pub open spec fn shape_outcome(topics: Seq<Seq<u8>>, data: Seq<u8>, n_topics: nat, n_words: nat) -> Result<(), AbiError> {
    if topics.len() != n_topics {
        Err(AbiError::TopicListLengthMismatch)
    } else if data.len() < 32 * n_words {
        Err(AbiError::Overrun)
    } else {
        Ok(())
    }
}

/// Check the shape of a log against an event with `n_topics` topics and
/// `n_words` words of data: the topics first, then the data.
pub fn check_shape(topics: &Vec<Word>, data: &Vec<u8>, n_topics: usize, n_words: usize) -> (r: Result<(), AbiError>)
    ensures
        r == shape_outcome(word_views(topics@), data@, n_topics as nat, n_words as nat),
{
    if topics.len() != n_topics {
        return Err(AbiError::TopicListLengthMismatch);
    }
    let whole_words = data.len() / 32;
    assert(whole_words < n_words <==> data@.len() < 32 * n_words) by (nonlinear_arith)
        requires
            whole_words == data@.len() / 32,
    ;
    if whole_words < n_words {
        return Err(AbiError::Overrun);
    }
    Ok(())
}

/// The word at `index` of the data of a log.
pub open spec fn data_word(data: Seq<u8>, index: int) -> Seq<u8> {
    data.subrange(32 * index, 32 * index + 32)
}

/// Whether the first topic of a log is `hash`.
pub fn first_topic_is(topics: &Vec<Word>, hash: &Word) -> (r: bool)
    ensures
        r == (topics@.len() > 0 && topics@[0]@ == hash@),
{
    if topics.len() == 0 {
        return false;
    }
    word_eq(&topics[0], hash)
}

} // verus!
