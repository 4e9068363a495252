//! Identity and time utilities: fresh identifier strings and wall-clock
//! timestamps, the values that commands to the registries carry.

use vstd::prelude::*;

verus! {

/// Relies on `uuid::Uuid::new_v4` and the `Display` impl of `uuid::Uuid`:
/// a fresh random (version 4) UUID rendered in its hyphenated form, which is
/// always 36 characters long. The value itself depends on entropy, so nothing
/// more is promised of it; in particular two calls may not be assumed distinct
/// here, although collisions are overwhelmingly improbable.
#[verifier::external_body]
pub fn generate_id() -> (r: String)
    ensures
        r@.len() == 36,
{
    uuid::Uuid::new_v4().to_string()
}

/// Relies on `chrono::Utc::now` and `chrono::DateTime::timestamp`: the current
/// wall-clock time in whole seconds since the Unix epoch. The value depends on
/// the machine's clock, so nothing is promised of it.
#[verifier::external_body]
pub fn now() -> i64 {
    chrono::Utc::now().timestamp()
}

} // verus!
