//! The calls that leave this crate: random job ids and the wall clock.
//!
//! Nothing in here is proved. Each function states what the called code is
//! known to return on every call, and the rest of the crate relies on no
//! more than that.

use vstd::prelude::*;

verus! {

/// A decimal digit or a letter from `a` to `f`.
pub open spec fn is_lower_hex(c: char) -> bool {
    ('0' <= c && c <= '9') || ('a' <= c && c <= 'f')
}

/// The positions of the four hyphens in a hyphenated UUID.
pub open spec fn is_hyphen_position(i: int) -> bool {
    i == 8 || i == 13 || i == 18 || i == 23
}

/// The textual shape of a random (version 4) UUID: 36 characters, lower-case
/// hexadecimal digits in groups of 8, 4, 4, 4 and 12 separated by hyphens,
/// the version digit `4` and a variant digit from `8` to `b`.
pub open spec fn is_uuid_v4_text(s: Seq<char>) -> bool {
    &&& s.len() == 36
    &&& forall|i: int|
        0 <= i < 36 ==> if is_hyphen_position(i) {
            #[trigger] s[i] == '-'
        } else {
            is_lower_hex(s[i])
        }
    &&& s[14] == '4'
    &&& (s[19] == '8' || s[19] == '9' || s[19] == 'a' || s[19] == 'b')
}

/// Draws a fresh job id with `uuid::Uuid::new_v4` and prints it with the
/// crate's `Display`, which is the lower-case hyphenated form.
///
/// Trusted: the text has the shape of a version 4 UUID. Nothing is claimed
/// about which id comes back; two calls may even return the same one. The
/// called code aborts if the operating system cannot supply random bytes.
#[verifier::external_body]
pub(crate) fn random_job_id() -> (id: String)
    ensures
        is_uuid_v4_text(id@),
{
    uuid::Uuid::new_v4().to_string()
}

/// Reads the clock with `chrono::Utc::now` and prints the instant with
/// `DateTime::to_rfc3339`.
///
/// Trusted: nothing beyond the type. The called code aborts if the system
/// clock is set before 1970.
#[verifier::external_body]
pub(crate) fn utc_now_rfc3339() -> String {
    chrono::Utc::now().to_rfc3339()
}

/// The one pattern that [`utc_now_formatted`] is called with: a date and a
/// time of day, digits only, that sort as text in the order of time.
pub open spec fn stamp_pattern() -> Seq<char> {
    "%Y%m%d_%H%M%S"@
}

/// Reads the clock with `chrono::Utc::now` and prints the instant with
/// `DateTime::format` under the given `strftime` pattern.
///
/// Trusted: nothing beyond the type. Printing aborts on a pattern that
/// chrono cannot parse, so only [`stamp_pattern`] is admitted. The called
/// code also aborts if the system clock is set before 1970.
#[verifier::external_body]
pub(crate) fn utc_now_formatted(pattern: &str) -> String
    requires
        pattern@ == stamp_pattern(),
{
    chrono::Utc::now().format(pattern).to_string()
}

} // verus!
