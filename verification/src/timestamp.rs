//! The timestamp carried by every result record: the current UTC wall-clock
//! time, written as an RFC 3339 date-time string.

use vstd::prelude::*;
use crate::size::is_digit;

verus! {

/// The shape of an RFC 3339 rendering of a UTC instant: year, month, day,
/// `T`, hour, minute, second and an optional sub-second fraction, each
/// digit and separator in its place, ending in the explicit `+00:00`
/// offset.
pub open spec fn is_rfc3339_utc(s: Seq<char>) -> bool {
    exists|y: int, f: int| rfc3339_utc_fields(s, y, f)
}

/// The fields of such a rendering, with a year field of `y` characters —
/// four digits, or a sign and four to six digits for far-off years — and
/// a fraction field of `f`: nothing, or a point and exactly three, six or
/// nine digits.
pub open spec fn rfc3339_utc_fields(s: Seq<char>, y: int, f: int) -> bool {
    &&& (y == 4 || (5 <= y <= 7 && (s[0] == '+' || s[0] == '-')))
    &&& (f == 0 || f == 4 || f == 7 || f == 10)
    &&& s.len() == y + 15 + f + 6
    &&& (forall|i: int| 0 <= i < y ==> (i == 0 && y != 4) || is_digit(#[trigger] s[i]))
    &&& s[y] == '-'
    &&& is_digit(s[y + 1]) && is_digit(s[y + 2])
    &&& s[y + 3] == '-'
    &&& is_digit(s[y + 4]) && is_digit(s[y + 5])
    &&& s[y + 6] == 'T'
    &&& is_digit(s[y + 7]) && is_digit(s[y + 8])
    &&& s[y + 9] == ':'
    &&& is_digit(s[y + 10]) && is_digit(s[y + 11])
    &&& s[y + 12] == ':'
    &&& is_digit(s[y + 13]) && is_digit(s[y + 14])
    &&& (f > 0 ==> s[y + 15] == '.')
    &&& (forall|i: int| y + 16 <= i < y + 15 + f ==> is_digit(#[trigger] s[i]))
    &&& s[y + 15 + f] == '+'
    &&& s[y + 16 + f] == '0'
    &&& s[y + 17 + f] == '0'
    &&& s[y + 18 + f] == ':'
    &&& s[y + 19 + f] == '0'
    &&& s[y + 20 + f] == '0'
}

/// Relies on chrono::Utc::now and chrono::DateTime::to_rfc3339: the
/// current UTC wall-clock instant, written as an RFC 3339 date-time
/// string. The system clock alone decides the instant, so nothing is
/// assumed of the value; every rendering has the `is_rfc3339_utc` shape —
/// a four-digit year (signed and longer only for instants many millennia
/// away), zero-padded two-digit fields, a sub-second fraction of three,
/// six or nine digits when one is present, and the explicit `+00:00`
/// offset — and so is at least 25 characters. The call returns only while
/// the system clock lies within the representable range of instants.
#[verifier::external_body]
fn now_rfc3339() -> (r: String)
    ensures
        is_rfc3339_utc(r@),
        r@.len() >= 25,
{
    chrono::Utc::now().to_rfc3339()
}

/// The current UTC time as an RFC 3339 string, stamped on every result
/// record the service returns.
pub fn current_timestamp() -> (r: String)
    ensures
        is_rfc3339_utc(r@),
        r@.len() >= 25,
{
    now_rfc3339()
}

} // verus!
