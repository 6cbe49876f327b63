use vstd::prelude::*;

verus! {

/// Restricts the set of capability tags to those declared in this crate.
pub trait Sealed {}

} // verus!
