//! Identifiers and timestamps, which come from outside the library: the first
//! from the operating system's random source, the second from its clock.

use crate::text::is_suffix;
use vstd::prelude::*;

verus! {

/// A digit of lowercase hexadecimal notation.
pub open spec fn is_lower_hex(c: char) -> bool {
    ('0' <= c && c <= '9') || ('a' <= c && c <= 'f')
}

/// The hyphenated text form of a UUID: 36 characters, hyphens after the 8th,
/// 12th, 16th and 20th hexadecimal digit.
pub open spec fn is_uuid_text(s: Seq<char>) -> bool {
    &&& s.len() == 36
    &&& forall|i: int|
        0 <= i < 36 ==> if i == 8 || i == 13 || i == 18 || i == 23 {
            #[trigger] s[i] == '-'
        } else {
            is_lower_hex(s[i])
        }
}

/// The text form of a random (version 4) UUID of the RFC variant.
pub open spec fn is_random_uuid_text(s: Seq<char>) -> bool {
    &&& is_uuid_text(s)
    &&& s[14] == '4'
    &&& (s[19] == '8' || s[19] == '9' || s[19] == 'a' || s[19] == 'b')
}

/// Calls `uuid::Uuid::new_v4` and writes the result with its `Display` impl.
///
/// Which identifier comes back is left open: two calls differ. The contract
/// states only its shape, which `new_v4` fixes by masking the version and
/// variant bits and `Display` by writing lowercase hyphenated hexadecimal.
/// `new_v4` aborts the process where the operating system cannot supply random
/// bytes; that is not modelled.
#[verifier::external_body]
pub(crate) fn fresh_id() -> (id: String)
    ensures
        is_random_uuid_text(id@),
{
    uuid::Uuid::new_v4().to_string()
}

/// The text ends with the offset of UTC, as every RFC 3339 stamp of a time in
/// UTC does when the offset is written in digits.
pub open spec fn is_utc_stamp(s: Seq<char>) -> bool {
    is_suffix(s, "+00:00"@)
}

/// Calls `chrono::Utc::now` and `DateTime::to_rfc3339` on the result: the
/// current time as an RFC 3339 text.
///
/// Which time comes back is left open. The contract states only that the text
/// ends with the offset `+00:00`, which `to_rfc3339` writes after the time of
/// day for a time in UTC. `Utc::now` aborts the process where the system
/// clock is set before 1970; that is not modelled.
#[verifier::external_body]
pub(crate) fn utc_now() -> (now: String)
    ensures
        is_utc_stamp(now@),
{
    chrono::Utc::now().to_rfc3339()
}

} // verus!
