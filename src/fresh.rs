//! Values that come from outside any computation: fresh identities and the
//! current time.

use vstd::prelude::*;

verus! {

/// Relies on uuid's `Uuid::new_v4`, a random version-4 identity, read as an
/// integer with `Uuid::as_u128`. Nothing is promised of its value.
#[verifier::external_body]
pub(crate) fn fresh_id() -> (r: u128) {
    uuid::Uuid::new_v4().as_u128()
}

/// Relies on chrono's `Utc::now`, the system clock, read as microseconds
/// since the Unix epoch with `DateTime::timestamp_micros`. Nothing is
/// promised of its value. `Utc::now` panics only where the system clock reads
/// a time before the Unix epoch.
#[verifier::external_body]
pub(crate) fn now_micros() -> (r: i64) {
    chrono::Utc::now().timestamp_micros()
}

} // verus!
