//! Identifiers and the providers that issue them.

use vstd::prelude::*;

verus! {

/// Issues new identifiers of type `ID`.
pub trait IdProvider<ID>: Send + Sync {
    fn generate(&self) -> ID;
}

/// A value that wraps an identifier of type `ID`.
pub trait Identifier<ID>: Sized {
    /// A new identifier, taken from `id_provider`.
    fn generate(id_provider: &dyn IdProvider<ID>) -> Self;

    /// The identifier that wraps `id`.
    fn new(id: ID) -> Self;
}

} // verus!
