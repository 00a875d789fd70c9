use vstd::prelude::*;

use crate::contract::ArkivEntityDeleted;
use crate::primitives::{Address, EntityKey};

verus! {

/// The result of deleting an entity.
#[derive(Debug, Clone, Copy)]
pub struct DeleteReceipt {
    /// The key of the entity that was deleted.
    pub entity_key: EntityKey,
    /// The owner of the entity that was deleted.
    pub owner_address: Address,
}

/// The receipt of the event `data`.
pub open spec fn delete_receipt_of(data: ArkivEntityDeleted) -> DeleteReceipt {
    DeleteReceipt { entity_key: data.entity_key, owner_address: data.owner_address }
}

impl vstd::std_specs::convert::FromSpecImpl<ArkivEntityDeleted> for DeleteReceipt {
    open spec fn obeys_from_spec() -> bool {
        true
    }

    open spec fn from_spec(data: ArkivEntityDeleted) -> DeleteReceipt {
        delete_receipt_of(data)
    }
}

impl From<ArkivEntityDeleted> for DeleteReceipt {
    fn from(data: ArkivEntityDeleted) -> (r: DeleteReceipt) {
        DeleteReceipt { entity_key: data.entity_key, owner_address: data.owner_address }
    }
}

} // verus!
