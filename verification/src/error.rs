//! The errors of the library.
use vstd::prelude::*;

use crate::contract::ContractError;
use crate::entity::content_type;

verus! {

/// Errors of building and sending storage transactions.
#[derive(Debug, Clone)]
pub enum Error {
    /// A content type was refused.
    ContentType(content_type::Error),
    /// A string could not be converted to a MIME type.
    MimeFromStr(String),
    /// An entity key is missing.
    MissingEntityKey,
    /// A BTL is missing.
    MissingBtl,
    /// A content type is missing.
    MissingContentType,
    /// A payload is missing.
    MissingPayload,
    /// A transaction sent to the storage contract failed.
    ContractError(ContractError),
}

impl vstd::std_specs::convert::FromSpecImpl<content_type::Error> for Error {
    open spec fn obeys_from_spec() -> bool {
        true
    }

    open spec fn from_spec(v: content_type::Error) -> Error {
        Error::ContentType(v)
    }
}

impl From<content_type::Error> for Error {
    fn from(value: content_type::Error) -> (r: Error) {
        Error::ContentType(value)
    }
}

impl vstd::std_specs::convert::FromSpecImpl<ContractError> for Error {
    open spec fn obeys_from_spec() -> bool {
        true
    }

    open spec fn from_spec(v: ContractError) -> Error {
        Error::ContractError(v)
    }
}

impl From<ContractError> for Error {
    fn from(value: ContractError) -> (r: Error) {
        Error::ContractError(value)
    }
}

} // verus!
