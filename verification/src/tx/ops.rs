//! The operations of a storage transaction.
pub mod chown;
pub mod delete;
pub mod extend;

pub use chown::Chown;
pub use delete::Delete;
pub use extend::Extend;

use vstd::prelude::*;

verus! {

/// Attaching attributes to an operation of a transaction. Implementors provide
/// distinct behaviour depending on the wrapper type used (for instance string
/// attributes or numeric attributes).
pub trait WithAttribute<A>: Sized {
    /// Add a single attribute to an operation.
    fn with_attribute(self, attribute: A) -> Self;

    /// Add the attributes of a list.
    fn extend_attributes(self, attributes: Vec<A>) -> Self;
}

} // verus!
