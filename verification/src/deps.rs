//! The calls this library makes into other crates and into the system
//! clock. Each function here is believed by the verifier, not proved: its
//! contract restates what the called code documents.

use vstd::prelude::*;

verus! {

/// A lower-case hexadecimal digit.
pub open spec fn is_lower_hex(c: char) -> bool {
    ('0' <= c && c <= '9') || ('a' <= c && c <= 'f')
}

/// The hyphenated lower-case form of a version-4 UUID: 36 characters,
/// hyphens after the 8th, 12th, 16th and 20th digit, the version digit `4`
/// and a variant digit of `8`, `9`, `a` or `b`.
pub open spec fn is_uuid_v4_text(s: Seq<char>) -> bool {
    &&& s.len() == 36
    &&& forall|i: int|
        0 <= i < 36 ==> if i == 8 || i == 13 || i == 18 || i == 23 {
            s[i] == '-'
        } else {
            is_lower_hex(#[trigger] s[i])
        }
    &&& s[14] == '4'
    &&& (s[19] == '8' || s[19] == '9' || s[19] == 'a' || s[19] == 'b')
}

/// `uuid::Uuid::new_v4()` rendered by its `Display` impl. The value is
/// random, so the contract gives only its shape: `new_v4` forces the
/// version and variant bits, and `Display` writes the hyphenated lower-case
/// form. The call panics if the operating system hands out no random bytes.
#[verifier::external_body]
pub(crate) fn random_uuid() -> (r: String)
    ensures
        is_uuid_v4_text(r@),
{
    uuid::Uuid::new_v4().to_string()
}

/// The MD5 digest of the UTF-8 bytes of a text, as the 32 lower-case
/// hexadecimal digits that `md5::Digest` prints with `{:x}`.
pub uninterp spec fn md5_hex(text: Seq<char>) -> Seq<char>;

/// `md5::compute` on the bytes of `text`, formatted with `{:x}`.
#[verifier::external_body]
pub(crate) fn md5_hex_of(text: &str) -> (r: String)
    ensures
        r@ == md5_hex(text@),
{
    format!("{:x}", md5::compute(text.as_bytes()))
}

/// The fields of a form-urlencoded body: the name/value pairs in the order
/// in which the body holds them, percent-decoded, or `None` where
/// `serde_urlencoded` reports an error.
pub uninterp spec fn form_fields(body: Seq<u8>) -> Option<Seq<(Seq<char>, Seq<char>)>>;

/// The pairs of texts that a vector of string pairs holds.
pub open spec fn pairs_view(v: Seq<(String, String)>) -> Seq<(Seq<char>, Seq<char>)> {
    Seq::new(v.len(), |i: int| (v[i].0@, v[i].1@))
}

/// `serde_urlencoded::from_bytes` with a vector of string pairs as target.
#[verifier::external_body]
pub(crate) fn decode_form(body: &[u8]) -> (r: Option<Vec<(String, String)>>)
    ensures
        match r {
            Some(v) => form_fields(body@) == Some(pairs_view(v@)),
            None => form_fields(body@) is None,
        },
{
    match serde_urlencoded::from_bytes::<Vec<(String, String)>>(body) {
        Ok(v) => Some(v),
        Err(_) => None,
    }
}

/// What the first two capture groups of a regular expression hold when it
/// is searched for in `text`: `None` where the pattern does not compile,
/// finds no match, or one of the two groups took no part in the match.
/// With `fold_case` the pattern is compiled case-insensitively.
pub uninterp spec fn regex_two_groups(pattern: Seq<char>, fold_case: bool, text: Seq<char>) -> Option<
    (Seq<char>, Seq<char>),
>;

/// `regex::RegexBuilder::new(pattern).case_insensitive(fold_case).build()`,
/// then `Regex::captures` on `text` and `Captures::get` for groups 1 and 2.
#[verifier::external_body]
pub(crate) fn two_groups(pattern: &str, fold_case: bool, text: &str) -> (r: Option<
    (String, String),
>)
    ensures
        match r {
            Some(p) => regex_two_groups(pattern@, fold_case, text@) == Some((p.0@, p.1@)),
            None => regex_two_groups(pattern@, fold_case, text@) is None,
        },
{
    let re = regex::RegexBuilder::new(pattern).case_insensitive(fold_case).build().ok()?;
    let caps = re.captures(text)?;
    Some((caps.get(1)?.as_str().to_owned(), caps.get(2)?.as_str().to_owned()))
}

/// The system clock, in milliseconds since the Unix epoch: `SystemTime::now`
/// measured against `UNIX_EPOCH`. `None` where the clock stands before the
/// epoch. Nothing is promised of the value.
#[verifier::external_body]
pub(crate) fn unix_millis() -> Option<u64> {
    match std::time::SystemTime::now().duration_since(std::time::UNIX_EPOCH) {
        Ok(d) => Some(d.as_millis() as u64),
        Err(_) => None,
    }
}

} // verus!
