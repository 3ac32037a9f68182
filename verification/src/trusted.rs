//! The boundary to code that is not verified here: outside types that the
//! library carries, and the calls it makes into other crates and into parts
//! of the standard library that have no specification yet.
//!
//! Every contract in this file is believed, not proved.

use std::sync::Arc;
use crate::text::byte_len;
use crate::text::pairs_bytes;
use crate::text::pairs_text;
use vstd::arithmetic::power::pow;
use vstd::prelude::*;

verus! {

/// Why `url` could not read a text as a URL.
#[verifier::external_type_specification]
#[verifier::external_body]
pub struct ExUrlParseError(url::ParseError);

/// A JSON document of any shape.
#[verifier::external_type_specification]
#[verifier::external_body]
pub struct ExJsonValue(serde_json::Value);

/// A failure of the operating system's input or output.
#[verifier::external_type_specification]
#[verifier::external_body]
pub struct ExIoError(std::io::Error);

/// The HTTP transport.
#[verifier::external_type_specification]
#[verifier::external_body]
pub struct ExHttpClient(reqwest::Client);

/// The longest text, in bytes, that is handed to the URL parser. The parser
/// indexes a URL with 32 bits; a text of this length still fits after every
/// byte of it has been percent-encoded.
pub const MAX_URL_BYTES: usize = 0x1000_0000;

/// The most query pairs that are handed to the URL parser at once.
pub const MAX_QUERY_PAIRS: usize = 0x10_0000;

/// The path of the URL that `input` parses to; `None` where it does not
/// parse.
pub uninterp spec fn url_path_text(input: Seq<char>) -> Option<Seq<char>>;

/// `url::Url::parse` followed by `Url::path`: parses `input` as an absolute
/// URL and returns the percent-encoded path of the result, or the parser's
/// error. The contract claims only that the outcome is a function of the
/// characters of `input`.
#[verifier::external_body]
pub(crate) fn url_path(input: &str) -> (r: Result<String, url::ParseError>)
    ensures
        match r {
            Ok(path) => url_path_text(input@) == Some(path@),
            Err(_) => url_path_text(input@) is None,
        },
{
    let parsed = url::Url::parse(input)?;
    Ok(parsed.path().to_string())
}

/// The URL that `input` parses to, written out after its path has been
/// replaced by `path`; `None` where `input` does not parse.
pub uninterp spec fn url_with_path_text(input: Seq<char>, path: Seq<char>) -> Option<Seq<char>>;

/// `url::Url::set_path` on the URL that `url::Url::parse` reads from `input`:
/// returns the serialization of the changed URL, or the parser's error. The
/// contract claims only that the outcome is a function of the characters of
/// the two arguments. `set_path` indexes the result with 32 bits and panics
/// beyond that, so both arguments are bounded.
#[verifier::external_body]
pub(crate) fn url_with_path(input: &str, path: &str) -> (r: Result<String, url::ParseError>)
    requires
        byte_len(input@) <= MAX_URL_BYTES,
        byte_len(path@) <= MAX_URL_BYTES,
    ensures
        match r {
            Ok(text) => url_with_path_text(input@, path@) == Some(text@),
            Err(_) => url_with_path_text(input@, path@) is None,
        },
{
    let mut parsed = url::Url::parse(input)?;
    parsed.set_path(path);
    Ok(parsed.into())
}

/// The URL that `input` parses to, written out after `pairs` have been
/// appended to its query; `None` where `input` does not parse.
pub uninterp spec fn url_with_query_text(
    input: Seq<char>,
    pairs: Seq<(Seq<char>, Seq<char>)>,
) -> Option<Seq<char>>;

/// `form_urlencoded::Serializer::extend_pairs` on `url::Url::query_pairs_mut`
/// of the URL that `url::Url::parse` reads from `input`: returns the
/// serialization of the URL with the pairs appended to its query, or the
/// parser's error. The contract claims only that the outcome is a function
/// of the characters of the arguments. The serializer indexes the result
/// with 32 bits and panics beyond that, so the arguments are bounded.
#[verifier::external_body]
pub(crate) fn url_with_query(input: &str, pairs: &Vec<(String, String)>) -> (r: Result<
    String,
    url::ParseError,
>)
    requires
        byte_len(input@) <= MAX_URL_BYTES,
        pairs.len() <= MAX_QUERY_PAIRS,
        pairs_bytes(pairs_text(pairs@)) <= MAX_URL_BYTES,
    ensures
        match r {
            Ok(text) => url_with_query_text(input@, pairs_text(pairs@)) == Some(text@),
            Err(_) => url_with_query_text(input@, pairs_text(pairs@)) is None,
        },
{
    let mut parsed = url::Url::parse(input)?;
    parsed.query_pairs_mut().extend_pairs(pairs);
    Ok(parsed.into())
}

/// `url::ParseError::Overflow`: the error with which `url` refuses a URL
/// that is too long for it.
#[verifier::external_body]
pub(crate) fn url_overflow() -> url::ParseError {
    url::ParseError::Overflow
}

/// The lower-case hexadecimal digit of value `n`.
pub open spec fn hex_char(n: nat) -> char {
    if n < 10 {
        crate::text::digit_char(n)
    } else if n == 10 {
        'a'
    } else if n == 11 {
        'b'
    } else if n == 12 {
        'c'
    } else if n == 13 {
        'd'
    } else if n == 14 {
        'e'
    } else {
        'f'
    }
}

/// The `i`-th of the 32 hexadecimal digits of `value`, the most
/// significant being digit 0.
pub open spec fn hex_digit_at(value: u128, i: nat) -> nat {
    ((value as nat) / (pow(16, (31 - i) as nat) as nat)) % 16
}

/// How many hyphens stand before position `i` of a hyphenated identifier.
pub open spec fn hyphens_before(i: int) -> int {
    if i < 8 {
        0
    } else if i < 13 {
        1
    } else if i < 18 {
        2
    } else if i < 23 {
        3
    } else {
        4
    }
}

/// The 36 characters of `value` as an identifier: 32 lower-case hexadecimal
/// digits in groups of 8, 4, 4, 4 and 12, with a hyphen between groups.
pub open spec fn hyphenated_text(value: u128) -> Seq<char> {
    Seq::new(
        36,
        |i: int|
            if i == 8 || i == 13 || i == 18 || i == 23 {
                '-'
            } else {
                hex_char(hex_digit_at(value, (i - hyphens_before(i)) as nat))
            },
    )
}

/// `Display` of `uuid::Uuid`, on the identifier that `Uuid::from_u128` makes
/// of `value`: the hyphenated lower-case form.
#[verifier::external_body]
pub(crate) fn uuid_text(value: u128) -> (text: String)
    ensures
        text@ == hyphenated_text(value),
{
    uuid::Uuid::from_u128(value).to_string()
}

/// `reqwest::ClientBuilder::build` on a builder with the given total
/// timeout; a failure comes back as the text of the transport's error.
/// Whether it succeeds depends on the machine, so nothing is claimed of the
/// result.
#[verifier::external_body]
pub(crate) fn transport_with_timeout(secs: u64, nanos: u32) -> (r: Result<reqwest::Client, String>)
    requires
        nanos < 1_000_000_000,
{
    let timeout = std::time::Duration::new(secs, nanos);
    match reqwest::Client::builder().timeout(timeout).build() {
        Ok(client) => Ok(client),
        Err(cause) => Err(cause.to_string()),
    }
}

/// `Clone` of `reqwest::Client`: the copy is a handle to the same transport.
pub assume_specification[ <reqwest::Client as Clone>::clone ](client: &reqwest::Client) -> (copy:
    reqwest::Client)
    ensures
        copy == *client,
;

/// `Arc::clone`: the copy points to the same value.
#[verifier::external_body]
pub(crate) fn share<T>(shared: &Arc<T>) -> (copy: Arc<T>)
    ensures
        copy == *shared,
{
    Arc::clone(shared)
}

/// `text` as `Debug` writes a string: in double quotes, with escapes.
pub uninterp spec fn quoted_text(text: Seq<char>) -> Seq<char>;

/// `Debug` of `str`.
#[verifier::external_body]
pub(crate) fn quoted(text: &str) -> (r: String)
    ensures
        r@ == quoted_text(text@),
{
    format!("{:?}", text)
}

/// A span of time as `Debug` writes a `Duration`.
pub uninterp spec fn span_text(secs: u64, nanos: u32) -> Seq<char>;

/// `Debug` of `std::time::Duration`, on the duration that `Duration::new`
/// makes of whole seconds and a fraction below one second.
#[verifier::external_body]
pub(crate) fn span(secs: u64, nanos: u32) -> (r: String)
    requires
        nanos < 1_000_000_000,
    ensures
        r@ == span_text(secs, nanos),
{
    format!("{:?}", std::time::Duration::new(secs, nanos))
}

/// `text` in lower case, as Unicode defines it.
pub uninterp spec fn lowercase_text(text: Seq<char>) -> Seq<char>;

/// `str::to_lowercase`.
#[verifier::external_body]
pub(crate) fn lowercase(text: &str) -> (lowered: String)
    ensures
        lowered@ == lowercase_text(text@),
{
    text.to_lowercase()
}

} // verus!
