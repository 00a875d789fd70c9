//! Types used by the Arkiv storage network for interacting with entities via RPC.
pub mod event;
pub use event::{ArkivEvent, EventError};

use vstd::prelude::*;

verus! {

/// Options of a query.
#[derive(Debug, Default, Clone, PartialEq, Eq)]
pub struct QueryOpts {
    /// Historical block number for the query.
    pub at_block: Option<u64>,
    /// Which fields to return.
    pub include_data: Option<IncludeData>,
    /// Ordering by attributes.
    pub order_by: Option<Vec<OrderByAttribute>>,
    /// Pagination limit.
    pub results_per_page: Option<u64>,
    /// Pagination cursor from a previous response.
    pub cursor: Option<String>,
}

/// Which fields of an entity a query returns.
#[derive(Debug, Default, Clone, Copy, PartialEq, Eq, Structural, PartialOrd, Ord)]
pub struct IncludeData {
    /// Entity key hash.
    pub key: bool,
    /// User-defined attributes.
    pub attributes: bool,
    /// System-generated attributes (`$sequence`, `$creator`).
    pub synthetic_attributes: bool,
    /// Entity data content.
    pub payload: bool,
    /// MIME type.
    pub content_type: bool,
    /// Expiration block number.
    pub expiration: bool,
    /// Owner address.
    pub owner: bool,
    /// Creation block number.
    pub created_at_block: bool,
    /// Last modification block.
    pub last_modified_at_block: bool,
    /// Transaction index.
    pub transaction_index_in_block: bool,
    /// Operation index.
    pub operation_index_in_transaction: bool,
}

/// Ordering of query results by one attribute.
#[derive(Debug, Default, Clone, PartialEq, Eq, PartialOrd, Ord)]
pub struct OrderByAttribute {
    pub name: String,
    /// The attribute's type (`type` on the wire).
    pub attribute_type: String,
    /// Descending order (`desc` on the wire).
    pub descending: bool,
}

/// Current block timing information.
#[derive(Debug, Default, Clone, Copy, PartialEq, Eq, Structural, PartialOrd, Ord)]
pub struct BlockTiming {
    pub current_block: u64,
    pub current_block_time: u64,
    /// The block duration (`duration` on the wire).
    pub block_duration: u64,
}

} // verus!
