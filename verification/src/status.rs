use vstd::prelude::*;

verus! {

/// The bridge call succeeded.
pub const OK: i32 = 0;
/// The bridge rejected an argument.
pub const INVALID_ARGUMENT: i32 = -1;
/// The framework reported an error.
pub const FRAMEWORK_ERROR: i32 = -2;
/// The bridge gave up waiting for the framework.
pub const TIMED_OUT: i32 = -3;

} // verus!
