//! RPC methods and types of the Arkiv network.
pub mod types;

use vstd::prelude::*;

verus! {

/// Available RPC methods for interacting with the Arkiv network.
#[derive(Debug, Clone, Copy, PartialEq, Eq, Structural, PartialOrd, Ord)]
pub enum ArkivRpcMethod {
    /// `arkiv_query`: filter and retrieve entities matching a query expression.
    Query,
    /// `arkiv_getEntityCount`: total number of entities at the current block.
    GetEntityCount,
    /// `arkiv_getNumberOfUsedSlots`: storage slot usage accounting.
    GetNumberOfUsedSlots,
    /// `arkiv_getBlockTiming`: current block timing information.
    GetBlockTiming,
}

/// The wire name of each method.
pub open spec fn method_name(m: ArkivRpcMethod) -> Seq<char> {
    match m {
        ArkivRpcMethod::Query => "arkiv_query"@,
        ArkivRpcMethod::GetEntityCount => "arkiv_getEntityCount"@,
        ArkivRpcMethod::GetNumberOfUsedSlots => "arkiv_getNumberOfUsedSlots"@,
        ArkivRpcMethod::GetBlockTiming => "arkiv_getBlockTiming"@,
    }
}

impl ArkivRpcMethod {
    /// Return the corresponding method name as a `&'static str`.
    pub fn as_str(&self) -> (r: &'static str)
        ensures
            r@ == method_name(*self),
    {
        match self {
            ArkivRpcMethod::Query => "arkiv_query",
            ArkivRpcMethod::GetEntityCount => "arkiv_getEntityCount",
            ArkivRpcMethod::GetNumberOfUsedSlots => "arkiv_getNumberOfUsedSlots",
            ArkivRpcMethod::GetBlockTiming => "arkiv_getBlockTiming",
        }
    }
}

impl core::ops::Deref for ArkivRpcMethod {
    type Target = str;

    /// The method name.
    fn deref(&self) -> (r: &str)
        ensures
            r@ == method_name(*self),
    {
        self.as_str()
    }
}

impl vstd::std_specs::convert::FromSpecImpl<ArkivRpcMethod> for std::borrow::Cow<'static, str> {
    open spec fn obeys_from_spec() -> bool {
        false
    }

    open spec fn from_spec(v: ArkivRpcMethod) -> std::borrow::Cow<'static, str> {
        arbitrary()
    }
}

impl From<ArkivRpcMethod> for std::borrow::Cow<'static, str> {
    /// The method name, borrowed.
    fn from(value: ArkivRpcMethod) -> (r: std::borrow::Cow<'static, str>)
        ensures
            r matches std::borrow::Cow::Borrowed(s) && s@ == method_name(value),
    {
        std::borrow::Cow::Borrowed(value.as_str())
    }
}

} // verus!
