use vstd::prelude::*;

use crate::contract::ArkivEntityCreated;
use crate::primitives::{Address, EntityKey, Uint256};

verus! {

/// The result of creating an entity: its key, owner, expiration block and cost.
#[derive(Debug, Clone, Copy)]
pub struct CreateReceipt {
    /// The key of the entity.
    pub entity_key: EntityKey,
    /// The owner of the entity.
    pub owner_address: Address,
    /// The block number at which the entity expires.
    pub expiration_block: Uint256,
    /// The cost of the transaction in wei.
    pub cost: Uint256,
}

/// The receipt of the event `data`.
pub open spec fn create_receipt_of(data: ArkivEntityCreated) -> CreateReceipt {
    CreateReceipt {
        entity_key: data.entity_key,
        owner_address: data.owner_address,
        expiration_block: data.expiration_block,
        cost: data.cost,
    }
}

impl vstd::std_specs::convert::FromSpecImpl<ArkivEntityCreated> for CreateReceipt {
    open spec fn obeys_from_spec() -> bool {
        true
    }

    open spec fn from_spec(data: ArkivEntityCreated) -> CreateReceipt {
        create_receipt_of(data)
    }
}

impl From<ArkivEntityCreated> for CreateReceipt {
    fn from(data: ArkivEntityCreated) -> (r: CreateReceipt) {
        CreateReceipt {
            entity_key: data.entity_key,
            owner_address: data.owner_address,
            expiration_block: data.expiration_block,
            cost: data.cost,
        }
    }
}

} // verus!
