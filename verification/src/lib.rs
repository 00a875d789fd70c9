//! A verified core for working with the Arkiv storage network.
pub mod entity;
pub mod client;
pub mod rpc;
pub mod decimal;
pub mod text;
pub mod node_bindings;
pub mod primitives;
pub mod abi;
pub mod contract;
pub mod tx;
pub mod eth;
pub mod events;
pub mod rlp;
pub mod error;
pub mod utils;
