//! What a new record gets from outside the service: a random identifier and the
//! current time, both as text. The two functions here are trusted: their
//! contracts are read off the `uuid` and `chrono` crates, not proved.

use vstd::prelude::*;

verus! {

/// A decimal digit or one of `a` to `f`.
pub open spec fn is_lower_hex(c: char) -> bool {
    ('0' <= c && c <= '9') || ('a' <= c && c <= 'f')
}

/// The hyphenated lower-case text of a version-4 UUID:
/// `xxxxxxxx-xxxx-4xxx-yxxx-xxxxxxxxxxxx`, with each `x` a hex digit and `y`
/// one of `8`, `9`, `a`, `b`.
pub open spec fn is_uuid_v4_text(s: Seq<char>) -> bool {
    &&& s.len() == 36
    &&& forall|i: int|
        0 <= i < 36 ==> if i == 8 || i == 13 || i == 18 || i == 23 {
            #[trigger] s[i] == '-'
        } else {
            is_lower_hex(s[i])
        }
    &&& s[14] == '4'
    &&& (s[19] == '8' || s[19] == '9' || s[19] == 'a' || s[19] == 'b')
}

/// The offset that marks a timestamp as UTC.
pub open spec fn utc_offset_text() -> Seq<char> {
    seq!['+', '0', '0', ':', '0', '0']
}

/// Text that is long enough for a date, a time and an offset, and ends in the
/// UTC offset `+00:00`.
pub open spec fn is_utc_timestamp_text(s: Seq<char>) -> bool {
    &&& s.len() >= 25
    &&& s.subrange(s.len() - 6, s.len() as int) == utc_offset_text()
}

/// A new random identifier.
///
/// Trusted. Calls `uuid::Uuid::new_v4` and renders the result with its
/// `Display` impl. `new_v4` fixes the version nibble to 4 and the variant bits
/// to `10`, and `Display` writes the hyphenated lower-case form, so every result
/// has the shape stated here. Which identifier comes back is up to the operating
/// system's random source: nothing is claimed about it, in particular not that
/// two calls differ. `new_v4` panics if that source cannot be read.
#[verifier::external_body]
pub(crate) fn fresh_id() -> (id: String)
    ensures
        is_uuid_v4_text(id@),
{
    uuid::Uuid::new_v4().to_string()
}

/// The current time as text.
///
/// Trusted. Calls `chrono::Utc::now` and `chrono::DateTime::to_rfc3339` on the
/// result. The writer puts out a year of at least four digits, `-MM-DD`, `T`,
/// `HH:MM:SS`, an optional fraction, and the offset, which for UTC is always
/// `+00:00`; the contract states the least length that follows and the offset.
/// Which instant comes back is up to the system clock. `Utc::now` panics if that
/// clock stands before 1970.
#[verifier::external_body]
pub(crate) fn timestamp_now() -> (text: String)
    ensures
        is_utc_timestamp_text(text@),
{
    chrono::Utc::now().to_rfc3339()
}

} // verus!
