use vstd::prelude::*;

use crate::contract::ArkivEntityBTLExtended;
use crate::primitives::{Address, EntityKey, Uint256};

verus! {

/// The result of extending the BTL of an entity.
#[derive(Debug, Clone, Copy)]
pub struct ExtendReceipt {
    /// The key of the entity.
    pub entity_key: EntityKey,
    /// The owner of the entity.
    pub owner_address: Address,
    /// The old expiration block of the entity.
    pub old_expiration_block: Uint256,
    /// The new expiration block of the entity.
    pub new_expiration_block: Uint256,
    /// The cost of the transaction in wei.
    pub cost: Uint256,
}

/// The receipt of the event `data`.
pub open spec fn extend_receipt_of(data: ArkivEntityBTLExtended) -> ExtendReceipt {
    ExtendReceipt {
        entity_key: data.entity_key,
        owner_address: data.owner_address,
        old_expiration_block: data.old_expiration_block,
        new_expiration_block: data.new_expiration_block,
        cost: data.cost,
    }
}

impl vstd::std_specs::convert::FromSpecImpl<ArkivEntityBTLExtended> for ExtendReceipt {
    open spec fn obeys_from_spec() -> bool {
        true
    }

    open spec fn from_spec(data: ArkivEntityBTLExtended) -> ExtendReceipt {
        extend_receipt_of(data)
    }
}

impl From<ArkivEntityBTLExtended> for ExtendReceipt {
    fn from(data: ArkivEntityBTLExtended) -> (r: ExtendReceipt) {
        ExtendReceipt {
            entity_key: data.entity_key,
            owner_address: data.owner_address,
            old_expiration_block: data.old_expiration_block,
            new_expiration_block: data.new_expiration_block,
            cost: data.cost,
        }
    }
}

} // verus!
