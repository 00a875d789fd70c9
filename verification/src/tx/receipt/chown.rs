use vstd::prelude::*;

use crate::contract::ArkivEntityOwnerChanged;
use crate::primitives::{Address, EntityKey};

verus! {

/// The result of changing the owner of an entity.
#[derive(Debug, Clone, Copy)]
pub struct ChownReceipt {
    /// The key of the entity that was transferred.
    pub entity_key: EntityKey,
    /// The previous owner of the entity.
    pub old_owner_address: Address,
    /// The new owner of the entity.
    pub new_owner_address: Address,
}

/// The receipt of the event `data`.
pub open spec fn chown_receipt_of(data: ArkivEntityOwnerChanged) -> ChownReceipt {
    ChownReceipt {
        entity_key: data.entity_key,
        old_owner_address: data.old_owner_address,
        new_owner_address: data.new_owner_address,
    }
}

impl vstd::std_specs::convert::FromSpecImpl<ArkivEntityOwnerChanged> for ChownReceipt {
    open spec fn obeys_from_spec() -> bool {
        true
    }

    open spec fn from_spec(data: ArkivEntityOwnerChanged) -> ChownReceipt {
        chown_receipt_of(data)
    }
}

impl From<ArkivEntityOwnerChanged> for ChownReceipt {
    fn from(data: ArkivEntityOwnerChanged) -> (r: ChownReceipt) {
        ChownReceipt {
            entity_key: data.entity_key,
            old_owner_address: data.old_owner_address,
            new_owner_address: data.new_owner_address,
        }
    }
}

} // verus!
