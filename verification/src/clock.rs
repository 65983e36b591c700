//! The wall clock: the current instant and the current day.
use vstd::prelude::*;
use chrono::Datelike;

verus! {

/// The current UTC instant in RFC 3339 form, from `chrono::Utc::now` and
/// `DateTime::to_rfc3339`. Nothing is stated of the value: it depends on the clock.
#[verifier::external_body]
pub(crate) fn current_timestamp() -> (r: String) {
    chrono::Utc::now().to_rfc3339()
}

/// Today's UTC date as a day number counted from the first day of the common era
/// (`NaiveDate::num_days_from_ce` of `Utc::now().date_naive()`). Nothing is stated
/// of the value: it depends on the clock.
#[verifier::external_body]
pub(crate) fn current_day() -> (r: i32) {
    chrono::Utc::now().date_naive().num_days_from_ce()
}

} // verus!
