//! Calls into outside crates.

use vstd::prelude::*;

verus! {

/// Relies on uuid::Uuid::new_v4: a random version-4 identifier. Its version
/// bits are always set, so it is never the nil identifier.
#[verifier::external_body]
pub(crate) fn fresh_id() -> (r: u128)
    ensures
        r != 0,
{
    uuid::Uuid::new_v4().as_u128()
}

/// Relies on time::OffsetDateTime::now_utc and unix_timestamp: the current
/// time in seconds since the Unix epoch. Nothing is known of its value.
#[verifier::external_body]
pub(crate) fn now_timestamp() -> (r: i64) {
    time::OffsetDateTime::now_utc().unix_timestamp()
}

} // verus!
