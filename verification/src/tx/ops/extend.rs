use vstd::prelude::*;

use crate::entity::BlocksToLive;
use crate::primitives::EntityKey;
use crate::rlp::{
    RlpEncode, extend_bytes, encode_list, rlp_encode_bytes, rlp_encode_u64, rlp_list, rlp_string,
    rlp_uint,
};

verus! {

/// An operation that extends the BTL of an entity: the entity's resulting BTL
/// is the sum of the two.
#[derive(Debug, Clone, Copy)]
pub struct Extend {
    /// The key of the entity to extend.
    entity_key: EntityKey,
    /// The number of blocks to extend the BTL by.
    number_of_blocks: u64,
}

impl Extend {
    /// The key of the entity to extend.
    pub closed spec fn key(self) -> EntityKey {
        self.entity_key
    }

    /// The number of blocks to extend the BTL by.
    pub closed spec fn blocks(self) -> u64 {
        self.number_of_blocks
    }

    /// Extend the BTL of the entity with key `entity_key` by `btl`.
    pub fn new(entity_key: EntityKey, btl: BlocksToLive) -> (e: Extend)
        ensures
            e.key() == entity_key,
            e.blocks() == btl.blocks(),
            e.blocks() != 0,
    {
        Extend { entity_key, number_of_blocks: btl.value() }
    }

    /// The key of the entity to extend.
    pub fn entity_key(&self) -> (k: EntityKey)
        ensures
            k == self.key(),
    {
        self.entity_key
    }

    /// The number of blocks to extend the BTL by.
    pub fn number_of_blocks(&self) -> (n: u64)
        ensures
            n == self.blocks(),
    {
        self.number_of_blocks
    }
}

/// An extend by fewer than 128 blocks (and at least one) encodes as the two-item list of its key (a
/// 32-byte string, `0xa0` then the key) followed by its number of blocks (a single
/// byte): `0xe2 0xa0 key blocks`.
pub proof fn law_extend_encodes_key_then_blocks(e: Extend)
    requires
        0 < e.blocks() < 128,
    ensures
        e.rlp() == seq![0xe2u8, 0xa0] + e.key()@ + seq![e.blocks() as u8],
{
    let b = e.blocks() as nat;
    assert(b / 256 == 0 && b % 256 == b);
    assert(crate::rlp::be_trimmed(0) =~= Seq::<u8>::empty());
    assert(crate::rlp::be_trimmed(b) == crate::rlp::be_trimmed(b / 256).push((b % 256) as u8));
    assert(crate::rlp::be_trimmed(b) =~= seq![e.blocks() as u8]);
    assert(rlp_uint(e.blocks()) =~= seq![e.blocks() as u8]);
    crate::rlp::lemma_rlp_string_word(e.key()@);
    let payload = seq![0xa0u8] + e.key()@ + seq![e.blocks() as u8];
    assert(payload.len() == 34);
    assert(crate::rlp::rlp_header(true, 34) =~= seq![0xe2u8]);
    assert(rlp_string(e.key()@) + rlp_uint(e.blocks()) =~= payload);
    assert(rlp_list(payload) =~= seq![0xe2u8, 0xa0] + e.key()@ + seq![e.blocks() as u8]);
}

impl RlpEncode for Extend {
    /// An extend encodes as the list of its key and its number of blocks.
    open spec fn rlp(&self) -> Seq<u8> {
        rlp_list(rlp_string(self.key()@) + rlp_uint(self.blocks()))
    }

    fn rlp_bytes(&self) -> (r: Vec<u8>) {
        let mut payload = rlp_encode_bytes(self.entity_key.as_slice());
        let n = rlp_encode_u64(self.number_of_blocks);
        extend_bytes(&mut payload, &n);
        encode_list(&payload)
    }
}

} // verus!
