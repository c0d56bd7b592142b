//! Identifiers and clock readings taken from the `uuid` and `chrono` crates.
//!
//! A UUID is carried through the library as its 128-bit big-endian value, a
//! point in time as whole seconds and nanoseconds since the Unix epoch.

use vstd::prelude::*;
use vstd::arithmetic::power::pow;
use crate::text::digit_char;

verus! {

/// Lower-case hexadecimal digit for a value in `0..16`.
pub open spec fn hex_digit(d: int) -> char {
    if d < 10 {
        digit_char(d as nat)
    } else if d == 10 {
        'a'
    } else if d == 11 {
        'b'
    } else if d == 12 {
        'c'
    } else if d == 13 {
        'd'
    } else if d == 14 {
        'e'
    } else {
        'f'
    }
}

/// The `k`-th hexadecimal digit (most significant first, `k` in `0..32`) of `id`.
pub open spec fn uuid_nibble(id: u128, k: int) -> int {
    (id as int / pow(16, (31 - k) as nat)) % 16
}

/// Position among the 32 hexadecimal digits of character `j` of the hyphenated form.
pub open spec fn hyphenated_digit_index(j: int) -> int {
    if j < 8 {
        j
    } else if j < 13 {
        j - 1
    } else if j < 18 {
        j - 2
    } else if j < 23 {
        j - 3
    } else {
        j - 4
    }
}

/// The hyphenated lower-case form `xxxxxxxx-xxxx-xxxx-xxxx-xxxxxxxxxxxx` of a UUID.
pub open spec fn uuid_text(id: u128) -> Seq<char> {
    Seq::new(
        36,
        |j: int|
            if j == 8 || j == 13 || j == 18 || j == 23 {
                '-'
            } else {
                hex_digit(uuid_nibble(id, hyphenated_digit_index(j)))
            },
    )
}

/// What `uuid::Uuid::parse_str` yields for a text: the UUID's 128-bit value,
/// or the text of the parse error.
pub uninterp spec fn uuid_parse(text: Seq<char>) -> Result<u128, Seq<char>>;

/// `uuid::Uuid::to_string` of the UUID with value `id`. The `uuid` crate's
/// `Display` writes the hyphenated lower-case form, which is what the contract claims.
#[verifier::external_body]
pub(crate) fn uuid_to_text(id: u128) -> (r: String)
    ensures
        r@ == uuid_text(id),
{
    uuid::Uuid::from_u128(id).to_string()
}

/// A parse result with its error taken by its text.
pub open spec fn parse_view(r: Result<u128, String>) -> Result<u128, Seq<char>> {
    match r {
        Ok(v) => Ok(v),
        Err(e) => Err(e@),
    }
}

/// A parse result that gives back the UUID whose hyphenated form the text is.
pub open spec fn reads_back_hyphenated(text: Seq<char>, r: Result<u128, Seq<char>>) -> bool {
    forall|v: u128| text == uuid_text(v) ==> r == Ok::<u128, Seq<char>>(v)
}

/// `uuid::Uuid::parse_str`, the UUID taken as its 128-bit value and the error
/// as its text. The contract names the result and claims that the hyphenated
/// lower-case form of every UUID parses back to that UUID.
#[verifier::external_body]
pub(crate) fn parse_uuid(text: &str) -> (r: Result<u128, String>)
    ensures
        parse_view(r) == uuid_parse(text@),
        reads_back_hyphenated(text@, parse_view(r)),
{
    uuid::Uuid::parse_str(text).map(|u| u.as_u128()).map_err(|e| e.to_string())
}

/// A random (version 4) UUID: its version nibble is 4 and its variant bits are `10`.
pub open spec fn is_v4_uuid(id: u128) -> bool {
    (id >> 76u128) & 0xfu128 == 4 && (id >> 62u128) & 0x3u128 == 2
}

/// `uuid::Uuid::new_v4`: a random UUID. The contract claims only what every
/// outcome has: the version nibble is 4 and the variant bits are `10`.
#[verifier::external_body]
pub(crate) fn new_uuid_v4() -> (r: u128)
    ensures
        is_v4_uuid(r),
{
    uuid::Uuid::new_v4().as_u128()
}

/// `chrono::Utc::now`, as seconds since the Unix epoch and the nanoseconds
/// within that second. The contract claims only that the nanoseconds stay
/// below two seconds' worth (chrono represents a leap second above one).
#[verifier::external_body]
pub(crate) fn utc_now() -> (r: (i64, u32))
    ensures
        r.1 < 2_000_000_000,
{
    let now = chrono::Utc::now();
    (now.timestamp(), now.timestamp_subsec_nanos())
}

} // verus!
