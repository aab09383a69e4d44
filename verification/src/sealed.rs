use vstd::prelude::*;

verus! {

/// Marks the types that may provide notification content; nothing outside
/// this crate can name it, so nothing outside can implement it.
pub trait Sealed {}

} // verus!
