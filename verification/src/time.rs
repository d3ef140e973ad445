//! Timestamp validation and timezone-correct display.
//!
//! Instants are held as non-negative Unix seconds (UTC) and converted to
//! the Asia/Tokyo display timezone only at render time.

use vstd::prelude::*;

verus! {

/// The largest Unix seconds value chrono can represent: the last second
/// of the last fully supported year (262142-12-31 23:59:59 UTC).
pub const CHRONO_TIMESTAMP_MAX: u64 = 8_210_266_876_799;

/// The Asia/Tokyo rendering of an instant. The text is a function of the
/// seconds value alone; it is produced by the timezone library and not
/// otherwise specified here.
pub uninterp spec fn spec_tokyo_display(secs: int) -> Seq<char>;

/// Relies on chrono's `DateTime::from_timestamp`: it returns `Some`
/// exactly when the seconds value lies within chrono's supported range,
/// which for non-negative seconds means at most [`CHRONO_TIMESTAMP_MAX`].
#[verifier::external_body]
pub(crate) fn chrono_accepts_timestamp(secs: u64) -> (r: bool)
    ensures
        r == (secs <= CHRONO_TIMESTAMP_MAX),
{
    match i64::try_from(secs) {
        Ok(s) => chrono::DateTime::from_timestamp(s, 0).is_some(),
        Err(_) => false,
    }
}

/// Relies on chrono's `DateTime::from_timestamp` and `with_timezone`,
/// and on chrono-tz's `Tz::Asia__Tokyo`: renders the instant in the
/// Asia/Tokyo timezone. The rendered text depends on the seconds value
/// alone.
#[verifier::external_body]
pub(crate) fn format_tokyo(secs: u64) -> (r: String)
    requires
        secs <= CHRONO_TIMESTAMP_MAX,
    ensures
        r@ == spec_tokyo_display(secs as int),
{
    let dt = chrono::DateTime::from_timestamp(secs as i64, 0).unwrap();
    dt.with_timezone(&chrono_tz::Tz::Asia__Tokyo).to_string()
}

/// Calendar-day index of an instant in the Asia/Tokyo timezone, which
/// sits at the fixed offset UTC+9 with no daylight saving: two instants
/// share a Tokyo calendar date exactly when their indices are equal.
pub open spec fn spec_tokyo_day_index(secs: int) -> int {
    (secs + 32400) / 86400
}

/// Computes [`spec_tokyo_day_index`].
pub fn tokyo_day_index(secs: u64) -> (d: u64)
    requires
        secs <= CHRONO_TIMESTAMP_MAX,
    ensures
        d == spec_tokyo_day_index(secs as int),
{
    (secs + 32400) / 86400
}

} // verus!
