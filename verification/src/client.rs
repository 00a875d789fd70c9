//! Client-side bookkeeping for interacting with the Arkiv network.
pub mod nonce;
