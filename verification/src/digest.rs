use vstd::prelude::*;
use crate::text::{ascii_upper, join, upper_case};

verus! {

/// The SHA-256 digest of the UTF-8 bytes of a text, as the sha256 crate
/// writes it: 64 hexadecimal digits in lower case.
pub uninterp spec fn sha256_hex(input: Seq<char>) -> Seq<char>;

/// Whether a character is a hexadecimal digit in lower case.
pub open spec fn is_lower_hex(c: char) -> bool {
    ('0' <= c && c <= '9') || ('a' <= c && c <= 'f')
}

/// Whether a text has the shape of a SHA-256 digest: 64 hexadecimal digits
/// in lower case.
pub open spec fn is_digest_text(text: Seq<char>) -> bool {
    text.len() == 64 && forall|i: int| 0 <= i < text.len() ==> is_lower_hex(#[trigger] text[i])
}

/// The digit that stands for a number below sixteen in lower-case
/// hexadecimal notation.
pub open spec fn hex_digit(n: int) -> char {
    if 0 <= n < 10 {
        ((n + 48) as u8) as char
    } else {
        ((n + 87) as u8) as char
    }
}

/// The place among the 32 hexadecimal digits of a UUID of the character at
/// `i` in its hyphenated text (where that character is no hyphen).
pub open spec fn uuid_digit_index(i: int) -> int {
    i - (if i > 8 { 1int } else { 0 }) - (if i > 13 { 1int } else { 0 })
        - (if i > 18 { 1int } else { 0 }) - (if i > 23 { 1int } else { 0 })
}

/// The hyphenated lower-case text of the UUID made of sixteen bytes:
/// 8, 4, 4, 4 and 12 hexadecimal digits, the groups parted by hyphens.
pub open spec fn uuid_text(bytes: Seq<u8>) -> Seq<char>
    recommends
        bytes.len() == 16,
{
    Seq::new(
        36,
        |i: int|
            if i == 8 || i == 13 || i == 18 || i == 23 {
                '-'
            } else {
                let k = uuid_digit_index(i);
                let byte = bytes[k / 2] as int;
                hex_digit(if k % 2 == 0 { byte / 16 } else { byte % 16 })
            },
    )
}

/// The key under which a session is found again from a status: the SHA-256
/// digest of the session id followed by the status's salt, in upper case.
pub open spec fn session_key(session_id: Seq<char>, salt: Seq<char>) -> Seq<char> {
    ascii_upper(sha256_hex(session_id + salt))
}

/// Calls `sha256::digest` on a text. Trusted: the result is a function of
/// the text alone, named `sha256_hex`, and is the hexadecimal text of the 32
/// bytes of the digest: 64 digits in lower case.
#[verifier::external_body]
pub(crate) fn sha256_of(input: &str) -> (r: String)
    ensures
        r@ == sha256_hex(input@),
        is_digest_text(r@),
{
    sha256::digest(input)
}

/// Calls `uuid::Uuid::from_bytes` and turns the UUID into a `String`.
/// Trusted: the text is the hyphenated lower-case form of the sixteen bytes.
#[verifier::external_body]
pub(crate) fn uuid_to_text(bytes: &[u8; 16]) -> (r: String)
    ensures
        r@ == uuid_text(bytes@),
{
    uuid::Uuid::from_bytes(*bytes).into()
}

/// Calls `uuid::Uuid::new_v4` and turns the UUID into a `String`. Trusted:
/// the UUID is random, so nothing is claimed of the text.
#[verifier::external_body]
pub(crate) fn random_uuid_text() -> (r: String) {
    uuid::Uuid::new_v4().to_string()
}

/// The key of a session under a salt.
pub fn session_hash_key(session_id: &str, salt: &str) -> (r: String)
    ensures
        r@ == session_key(session_id@, salt@),
{
    let salted = join(session_id, salt);
    let digested = sha256_of(salted.as_str());
    upper_case(digested.as_str())
}

} // verus!
