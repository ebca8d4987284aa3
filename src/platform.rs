use vstd::prelude::*;

verus! {

/// The lowercase hexadecimal digit of a value below 16.
pub open spec fn hex_digit(n: u128) -> char {
    seq!['0', '1', '2', '3', '4', '5', '6', '7', '8', '9', 'a', 'b', 'c', 'd', 'e', 'f'][n as int]
}

/// The `i`-th of the 32 four-bit groups of `v`, counted from the top.
pub open spec fn nibble(v: u128, i: int) -> u128 {
    (v >> ((124 - 4 * i) as u128)) & 0xfu128
}

/// How many hyphens the hyphenated form holds before position `k`.
pub open spec fn hyphens_before(k: int) -> int {
    (if k > 8 { 1int } else { 0int }) + (if k > 13 { 1int } else { 0int }) + (if k > 18 {
        1int
    } else {
        0int
    }) + (if k > 23 { 1int } else { 0int })
}

/// The hyphenated text form of a 128-bit identifier: 36 characters, the
/// lowercase hex digits of its 32 four-bit groups from the top, with a
/// hyphen at positions 8, 13, 18 and 23.
pub open spec fn uuid_text_of(v: u128) -> Seq<char> {
    Seq::new(
        36,
        |k: int|
            if k == 8 || k == 13 || k == 18 || k == 23 {
                '-'
            } else {
                hex_digit(nibble(v, k - hyphens_before(k)))
            },
    )
}

/// Relies on uuid::Uuid::new_v4 and Uuid::as_u128: a random identifier whose
/// version nibble is 4 and whose variant bits are those of RFC 4122.
#[verifier::external_body]
pub(crate) fn new_uuid() -> (r: u128)
    ensures
        (r >> 76u128) & 0xfu128 == 4u128,
        (r >> 62u128) & 0x3u128 == 2u128,
{
    uuid::Uuid::new_v4().as_u128()
}

/// Relies on uuid::Uuid::from_u128 and its `Display`, which writes the
/// hyphenated lowercase form.
#[verifier::external_body]
pub(crate) fn uuid_text(v: u128) -> (r: String)
    ensures
        r@ == uuid_text_of(v),
{
    uuid::Uuid::from_u128(v).to_string()
}

/// Relies on chrono::Utc::now and DateTime::timestamp_millis: the clock now,
/// in milliseconds since the Unix epoch. Nothing is promised of its value;
/// chrono panics only when the system clock reads before 1970.
#[verifier::external_body]
pub(crate) fn now_millis() -> (r: i64) {
    chrono::Utc::now().timestamp_millis()
}

/// A random identifier is never zero.
pub proof fn lemma_uuid_nonzero(r: u128)
    requires
        (r >> 76u128) & 0xfu128 == 4u128,
    ensures
        r != 0,
{
    assert(r == 0u128 ==> (r >> 76u128) & 0xfu128 == 0u128) by (bit_vector);
}

} // verus!
