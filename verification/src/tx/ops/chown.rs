use vstd::prelude::*;

use crate::primitives::{Address, EntityKey};
use crate::rlp::{RlpEncode, extend_bytes, encode_list, rlp_encode_bytes, rlp_list, rlp_string};

verus! {

/// An operation that changes the owner of an entity. The sender must be the
/// current owner and the entity must exist; all other metadata is kept.
#[derive(Debug, Clone, Copy)]
pub struct Chown {
    /// The key of the entity to transfer.
    entity_key: EntityKey,
    /// The address to transfer the entity to.
    new_owner: Address,
}

impl Chown {
    /// The key of the entity to transfer.
    pub closed spec fn key(self) -> EntityKey {
        self.entity_key
    }

    /// The address to transfer the entity to.
    pub closed spec fn owner(self) -> Address {
        self.new_owner
    }

    /// Transfer the entity with key `entity_key` to `new_owner`.
    pub fn new(entity_key: EntityKey, new_owner: Address) -> (c: Chown)
        ensures
            c.key() == entity_key,
            c.owner() == new_owner,
    {
        Chown { entity_key, new_owner }
    }
}

/// A change of owner encodes as the two-item list of its key (`0xa0` then the 32
/// bytes) followed by the new owner (`0x94` then the 20 bytes): `0xf6 0xa0 key 0x94
/// owner`.
pub proof fn law_chown_encodes_key_then_owner(c: Chown)
    ensures
        c.rlp() == seq![0xf6u8, 0xa0] + c.key()@ + seq![0x94u8] + c.owner()@,
{
    crate::rlp::lemma_rlp_string_word(c.key()@);
    assert(crate::rlp::rlp_header(false, 20) =~= seq![0x94u8]);
    let payload = seq![0xa0u8] + c.key()@ + seq![0x94u8] + c.owner()@;
    assert(rlp_string(c.key()@) + rlp_string(c.owner()@) =~= payload);
    assert(payload.len() == 54);
    assert(crate::rlp::rlp_header(true, 54) =~= seq![0xf6u8]);
    assert(rlp_list(payload) =~= seq![0xf6u8, 0xa0] + c.key()@ + seq![0x94u8] + c.owner()@);
}

impl RlpEncode for Chown {
    /// A change of owner encodes as the list of its key and the new owner.
    open spec fn rlp(&self) -> Seq<u8> {
        rlp_list(rlp_string(self.key()@) + rlp_string(self.owner()@))
    }

    fn rlp_bytes(&self) -> (r: Vec<u8>) {
        let mut payload = rlp_encode_bytes(self.entity_key.as_slice());
        let o = rlp_encode_bytes(self.new_owner.as_slice());
        extend_bytes(&mut payload, &o);
        encode_list(&payload)
    }
}

} // verus!
