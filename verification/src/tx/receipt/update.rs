use vstd::prelude::*;

use crate::contract::ArkivEntityUpdated;
use crate::primitives::{Address, EntityKey, Uint256};

verus! {

/// The result of updating an entity.
#[derive(Debug, Clone, Copy)]
pub struct UpdateReceipt {
    /// The key of the entity.
    pub entity_key: EntityKey,
    /// The owner of the entity.
    pub owner_address: Address,
    /// The block number at which the entity would have expired.
    pub old_expiration_block: Uint256,
    /// The block number at which the entity expires now.
    pub new_expiration_block: Uint256,
    /// The cost of the transaction in wei.
    pub cost: Uint256,
}

/// The receipt of the event `data`.
pub open spec fn update_receipt_of(data: ArkivEntityUpdated) -> UpdateReceipt {
    UpdateReceipt {
        entity_key: data.entity_key,
        owner_address: data.owner_address,
        old_expiration_block: data.old_expiration_block,
        new_expiration_block: data.new_expiration_block,
        cost: data.cost,
    }
}

impl vstd::std_specs::convert::FromSpecImpl<ArkivEntityUpdated> for UpdateReceipt {
    open spec fn obeys_from_spec() -> bool {
        true
    }

    open spec fn from_spec(data: ArkivEntityUpdated) -> UpdateReceipt {
        update_receipt_of(data)
    }
}

impl From<ArkivEntityUpdated> for UpdateReceipt {
    fn from(data: ArkivEntityUpdated) -> (r: UpdateReceipt) {
        UpdateReceipt {
            entity_key: data.entity_key,
            owner_address: data.owner_address,
            old_expiration_block: data.old_expiration_block,
            new_expiration_block: data.new_expiration_block,
            cost: data.cost,
        }
    }
}

} // verus!
