use vstd::prelude::*;

verus! {

/// `serde_json::Value`, carried as an opaque JSON value (user info and
/// localization arguments).
#[verifier::external_type_specification]
#[verifier::external_body]
pub struct ExJsonValue(serde_json::Value);

/// `std::time::SystemTime`, carried as an opaque point in time (delivery
/// dates and next trigger dates).
#[verifier::external_type_specification]
#[verifier::external_body]
pub struct ExSystemTime(std::time::SystemTime);

/// `<SystemTime as Clone>::clone`. `SystemTime` is `Copy`, so a clone is the
/// same point in time; this is what the derived `Clone` of the types that
/// hold a date relies on.
pub assume_specification[ <std::time::SystemTime as Clone>::clone ](t: &std::time::SystemTime) -> (r:
    std::time::SystemTime)
    ensures
        r == *t,
;

} // verus!
