//! Identifiers and wall-clock time, the two inputs of the library that come
//! from the machine rather than from the caller.
use vstd::prelude::*;
use vstd::arithmetic::power2::pow2;

verus! {

/// `uuid::Uuid::new_v4`, returned as its 128-bit value. The identifier is
/// random: nothing is claimed of it.
#[verifier::external_body]
pub(crate) fn new_id() -> u128 {
    uuid::Uuid::new_v4().as_u128()
}

/// The hyphenated text form of a UUID: 36 characters, hyphens at positions
/// 8, 13, 18 and 23, lowercase hexadecimal digits elsewhere.
pub open spec fn hyphenated_uuid(s: Seq<char>) -> bool {
    &&& s.len() == 36
    &&& forall|i: int| 0 <= i < 36 ==> #[trigger] s[i] == '-' <==> (i == 8 || i == 13 || i == 18
        || i == 23)
    &&& forall|i: int| 0 <= i < 36 && s[i] != '-' ==> ('0' <= #[trigger] s[i] <= '9' || 'a'
        <= s[i] <= 'f')
}

/// `uuid::Uuid::new_v4`, rendered by `to_string`, which writes the
/// hyphenated lowercase form. The identifier is random: only its form is
/// claimed.
#[verifier::external_body]
pub(crate) fn new_id_text() -> (r: String)
    ensures
        hyphenated_uuid(r@),
{
    uuid::Uuid::new_v4().to_string()
}

/// `chrono::Utc::now`, as whole seconds since the Unix epoch
/// (`DateTime::timestamp`, converted to unsigned). The reading depends on
/// the clock: nothing is claimed of it.
#[verifier::external_body]
pub(crate) fn now_secs() -> u64 {
    chrono::Utc::now().timestamp() as u64
}

/// `chrono::Utc::now`, as milliseconds since the Unix epoch
/// (`DateTime::timestamp_millis`). The reading depends on the clock; all
/// that is claimed is that it is not negative: `Utc::now` takes the system
/// time as a duration since the epoch and panics (`expect`) on a clock set
/// before it, so a reading that comes back is at or after the epoch.
#[verifier::external_body]
pub(crate) fn now_millis() -> (r: i64)
    ensures
        r >= 0,
{
    chrono::Utc::now().timestamp_millis()
}

/// A hexadecimal digit, lowercase.
pub open spec fn hex_digit(d: int) -> char {
    if d < 10 {
        ('0' as int + d) as char
    } else {
        ('a' as int + d - 10) as char
    }
}

/// The index among the 32 digits of the character at position `i` of the
/// hyphenated form.
pub open spec fn uuid_digit_index(i: int) -> int {
    if i < 8 {
        i
    } else if i < 13 {
        i - 1
    } else if i < 18 {
        i - 2
    } else if i < 23 {
        i - 3
    } else {
        i - 4
    }
}

/// The hyphenated text form of the UUID with the 128-bit value `id`: its
/// 32 hexadecimal digits, most significant first, in groups of 8, 4, 4, 4
/// and 12 separated by hyphens.
pub open spec fn uuid_text(id: u128) -> Seq<char> {
    Seq::new(
        36,
        |i: int|
            if i == 8 || i == 13 || i == 18 || i == 23 {
                '-'
            } else {
                hex_digit((id as int / pow2((4 * (31 - uuid_digit_index(i))) as nat) as int) % 16)
            },
    )
}

/// `uuid::Uuid::from_u128` (whose bytes are the value's big-endian bytes),
/// rendered by `to_string`, the hyphenated lowercase form.
#[verifier::external_body]
pub(crate) fn uuid_to_text(id: u128) -> (r: String)
    ensures
        r@ == uuid_text(id),
{
    uuid::Uuid::from_u128(id).to_string()
}

} // verus!
