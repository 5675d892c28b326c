use vstd::prelude::*;

verus! {

/// Relies on chrono: `Utc::now().timestamp()` reads the current time as
/// whole seconds since the Unix epoch. Nothing is promised of the reading.
#[verifier::external_body]
pub(crate) fn now_unix() -> i64 {
    chrono::Utc::now().timestamp()
}

/// Relies on uuid: the hyphenated text of `Uuid::new_v4()` is 36 characters
/// long. Nothing is promised of the drawn digits.
#[verifier::external_body]
pub(crate) fn new_uuid_string() -> (r: String)
    ensures
        r@.len() == 36,
{
    uuid::Uuid::new_v4().to_string()
}

} // verus!
