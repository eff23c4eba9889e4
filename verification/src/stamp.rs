//! Random identifiers and timestamps.

use vstd::prelude::*;

verus! {

/// Whether `c` is a lower-case hexadecimal digit.
pub open spec fn is_lower_hex(c: char) -> bool {
    ('0' <= c <= '9') || ('a' <= c <= 'f')
}

/// Whether `s` is the hyphenated lower-case text of a random (version 4,
/// RFC 4122 variant) UUID.
pub open spec fn is_uuid_v4_text(s: Seq<char>) -> bool {
    &&& s.len() == 36
    &&& forall|i: int|
        0 <= i < 36 ==> if i == 8 || i == 13 || i == 18 || i == 23 {
            s[i] == '-'
        } else {
            is_lower_hex(#[trigger] s[i])
        }
    &&& s[14] == '4'
    &&& (s[19] == '8' || s[19] == '9' || s[19] == 'a' || s[19] == 'b')
}

/// Whether `s` ends with the UTC offset `+00:00`.
pub open spec fn ends_with_utc_offset(s: Seq<char>) -> bool {
    s.len() >= 6 && s.skip(s.len() - 6) == seq!['+', '0', '0', ':', '0', '0']
}

/// `uuid::Uuid::new_v4().to_string()`: a fresh random UUID. The value is
/// random; the contract states the shape that the uuid crate gives every
/// such value (the version nibble, the variant bits and the hyphenated
/// lower-case rendering). The crate panics when the operating system cannot
/// provide random bytes; that depends on the machine, not on an argument.
#[verifier::external_body]
pub(crate) fn new_uuid_v4() -> (r: String)
    ensures
        is_uuid_v4_text(r@),
{
    uuid::Uuid::new_v4().to_string()
}

/// `chrono::Utc::now().to_rfc3339()`: the current time. The value depends on
/// the clock; the contract states only that the rendering ends with the UTC
/// offset `+00:00`, as chrono writes it for `Utc`. chrono panics when the
/// system clock reads before 1970; that depends on the machine.
#[verifier::external_body]
pub(crate) fn now_rfc3339() -> (r: String)
    ensures
        ends_with_utc_offset(r@),
{
    chrono::Utc::now().to_rfc3339()
}

/// `chrono::Utc::now().format("%Y-%m-%d").to_string()`: today's UTC date.
/// The value depends on the clock, and nothing is stated of it.
#[verifier::external_body]
pub(crate) fn utc_date_stamp() -> String {
    chrono::Utc::now().format("%Y-%m-%d").to_string()
}

} // verus!
