//! Entities and the data types that describe them.
pub mod btl;
pub mod content_type;

pub use btl::BlocksToLive;
pub use content_type::ContentType;

use vstd::prelude::*;

use crate::primitives::{Address, EntityKey, Uint256};

verus! {

/// An entity as read from the chain: its key, value, content type, expiration
/// block, owner, creation block and attributes. `S` and `N` are the types of its
/// string and numeric attributes.
#[derive(Debug, Clone)]
pub struct Entity<S, N> {
    pub key: EntityKey,
    pub value: Vec<u8>,
    pub content_type: String,
    pub expires_at: Uint256,
    pub owner: Address,
    pub created_at_block: Uint256,
    /// String attributes of the entity.
    pub string_attributes: Vec<S>,
    /// Numeric attributes of the entity.
    pub numeric_attributes: Vec<N>,
}

impl<S, N> Default for Entity<S, N> {
    /// The entity whose fields are all zero or empty.
    fn default() -> (e: Entity<S, N>)
        ensures
            e.key@ == Seq::new(32, |i: int| 0u8),
            e.value@.len() == 0,
            e.content_type@.len() == 0,
            e.expires_at@ == Seq::new(32, |i: int| 0u8),
            e.owner@ == Seq::new(20, |i: int| 0u8),
            e.created_at_block@ == Seq::new(32, |i: int| 0u8),
            e.string_attributes@.len() == 0,
            e.numeric_attributes@.len() == 0,
    {
        let e = Entity {
            key: [0u8; 32],
            value: Vec::new(),
            content_type: String::new(),
            expires_at: [0u8; 32],
            owner: [0u8; 20],
            created_at_block: [0u8; 32],
            string_attributes: Vec::new(),
            numeric_attributes: Vec::new(),
        };
        assert(e.key@ =~= Seq::new(32, |i: int| 0u8));
        assert(e.expires_at@ =~= Seq::new(32, |i: int| 0u8));
        assert(e.owner@ =~= Seq::new(20, |i: int| 0u8));
        assert(e.created_at_block@ =~= Seq::new(32, |i: int| 0u8));
        e
    }
}

} // verus!
