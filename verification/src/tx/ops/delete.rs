use vstd::prelude::*;

use crate::primitives::EntityKey;
use crate::rlp::{
    RlpEncode, RlpError, rlp_decode_word, rlp_encode_bytes, rlp_string, rlp_word_error,
    starts_with_word,
};

verus! {

/// An operation that deletes an entity.
#[derive(Debug, Clone, Copy)]
pub struct Delete(EntityKey);

impl Delete {
    /// The key of the entity to delete.
    pub closed spec fn key(self) -> EntityKey {
        self.0
    }

    /// Delete the entity with key `entity_key`.
    pub fn new(entity_key: EntityKey) -> (d: Delete)
        ensures
            d.key() == entity_key,
    {
        Delete(entity_key)
    }

    /// The key of the entity to delete.
    pub fn entity_key(&self) -> (k: EntityKey)
        ensures
            k == self.key(),
    {
        self.0
    }
}

impl Delete {
    /// Decode a delete from the front of `buf`: its key, as a 32-byte string,
    /// leaving what follows in `buf`.
    pub fn decode(buf: &mut &[u8]) -> (r: Result<Delete, RlpError>)
        ensures
            starts_with_word(old(buf)@) ==> (r matches Ok(d) && d.key()@ == old(buf)@.subrange(1, 33)
                && final(buf)@ == old(buf)@.subrange(33, old(buf)@.len() as int)),
            !starts_with_word(old(buf)@) ==> r == Err::<Delete, RlpError>(rlp_word_error(old(buf)@)),
    {
        match rlp_decode_word(buf) {
            Ok(key) => Ok(Delete(key)),
            Err(e) => Err(e),
        }
    }
}

/// Decoding what a delete encodes to gives back the delete, and consumes all of it.
pub proof fn law_delete_decode_encode(d: Delete)
    ensures
        starts_with_word(d.rlp()),
        d.rlp().len() == 33,
        d.rlp().subrange(1, 33) == d.key()@,
{
    crate::rlp::lemma_rlp_string_word(d.key()@);
}

impl RlpEncode for Delete {
    /// A delete encodes as its key alone.
    open spec fn rlp(&self) -> Seq<u8> {
        rlp_string(self.key()@)
    }

    fn rlp_bytes(&self) -> (r: Vec<u8>) {
        rlp_encode_bytes(self.0.as_slice())
    }
}

impl vstd::std_specs::convert::FromSpecImpl<EntityKey> for Delete {
    open spec fn obeys_from_spec() -> bool {
        true
    }

    closed spec fn from_spec(v: EntityKey) -> Delete {
        Delete(v)
    }
}

impl From<EntityKey> for Delete {
    fn from(value: EntityKey) -> (d: Delete)
        ensures
            d.key() == value,
    {
        Delete(value)
    }
}

} // verus!
