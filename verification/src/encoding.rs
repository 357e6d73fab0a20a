//! Encodings of text for addresses and headers.
//!
//! Percent-encoding and form encoding are stated in full over the UTF-8
//! bytes of a text. Base64 and the reading of a query string are named
//! results of the crates that compute them.

use base64::Engine;
use rand::Rng;
use vstd::prelude::*;
use vstd::utf8::encode_utf8;

verus! {

/// The upper-case hexadecimal digit for `n`.
pub open spec fn hex_digit(n: int) -> char
    recommends
        0 <= n < 16,
{
    if n < 10 {
        ((n + 48) as u8) as char
    } else {
        ((n + 55) as u8) as char
    }
}

/// `%` and the two hexadecimal digits of a byte.
pub open spec fn percent_byte(b: u8) -> Seq<char> {
    seq!['%', hex_digit(b as int / 16), hex_digit(b as int % 16)]
}

/// An ASCII letter or digit.
pub open spec fn is_alphanumeric_byte(b: u8) -> bool {
    (48 <= b <= 57) || (65 <= b <= 90) || (97 <= b <= 122)
}

/// How one byte stands in a percent-encoded text: letters, digits and
/// `-`, `.`, `_`, `~` as they are, any other byte as `%XX`.
pub open spec fn url_byte(b: u8) -> Seq<char> {
    if is_alphanumeric_byte(b) || b == 45 || b == 46 || b == 95 || b == 126 {
        seq![b as char]
    } else {
        percent_byte(b)
    }
}

/// How one byte stands in a form-encoded text: letters, digits and
/// `*`, `-`, `.`, `_` as they are, a space as `+`, any other byte as `%XX`.
pub open spec fn form_byte(b: u8) -> Seq<char> {
    if is_alphanumeric_byte(b) || b == 42 || b == 45 || b == 46 || b == 95 {
        seq![b as char]
    } else if b == 32 {
        seq!['+']
    } else {
        percent_byte(b)
    }
}

/// The encodings of the bytes of `bytes`, one after the other.
pub open spec fn encode_each(bytes: Seq<u8>, each: spec_fn(u8) -> Seq<char>) -> Seq<char>
    decreases bytes.len(),
{
    if bytes.len() == 0 {
        Seq::empty()
    } else {
        encode_each(bytes.drop_last(), each) + each(bytes.last())
    }
}

/// The percent-encoding of a text, over its UTF-8 bytes.
pub open spec fn percent_encoded(text: Seq<char>) -> Seq<char> {
    encode_each(encode_utf8(text), |b: u8| url_byte(b))
}

/// The form encoding of one name or value, over its UTF-8 bytes.
pub open spec fn form_component(text: Seq<char>) -> Seq<char> {
    encode_each(encode_utf8(text), |b: u8| form_byte(b))
}

/// The form encoding of one pair: `name=value`.
pub open spec fn form_pair(p: (Seq<char>, Seq<char>)) -> Seq<char> {
    form_component(p.0) + seq!['='] + form_component(p.1)
}

/// The form encoding of a list of pairs, joined by `&`.
pub open spec fn form_encoded(pairs: Seq<(Seq<char>, Seq<char>)>) -> Seq<char>
    decreases pairs.len(),
{
    if pairs.len() == 0 {
        Seq::empty()
    } else if pairs.len() == 1 {
        form_pair(pairs[0])
    } else {
        form_encoded(pairs.drop_last()) + seq!['&'] + form_pair(pairs.last())
    }
}

#[verifier::external_type_specification]
#[verifier::external_body]
pub struct ExUrl(url::Url);

/// The address that `Url::parse` reads from a text; `None` for a text that
/// is no address.
pub uninterp spec fn parsed_url(text: Seq<char>) -> Option<url::Url>;

/// The pairs of the query string of an address, names and values decoded, in
/// the order in which `Url::query_pairs` yields them.
pub uninterp spec fn url_pairs(address: url::Url) -> Seq<(Seq<char>, Seq<char>)>;

/// The decoded pairs of the query string of a text read as an address;
/// `None` for a text that is no address.
pub open spec fn query_pairs_of(url: Seq<char>) -> Option<Seq<(Seq<char>, Seq<char>)>> {
    match parsed_url(url) {
        Some(address) => Some(url_pairs(address)),
        None => None,
    }
}

/// The Base64 text of a sequence of bytes, in the standard alphabet and with
/// padding.
pub uninterp spec fn base64_of(bytes: Seq<u8>) -> Seq<char>;

/// `urlencoding::encode`: every byte of the text is percent-encoded, except
/// ASCII letters and digits and `-`, `_`, `.`, `~`.
#[verifier::external_body]
pub(crate) fn percent_encode(text: &str) -> (r: String)
    ensures
        r@ == percent_encoded(text@),
{
    urlencoding::encode(text).into_owned()
}

/// `url::form_urlencoded::Serializer` on an empty string: each pair is
/// appended as `name=value`, both form-encoded, with `&` between pairs.
#[verifier::external_body]
pub(crate) fn form_encode(pairs: &Vec<(String, String)>) -> (r: String)
    ensures
        r@ == form_encoded(pairs.deep_view()),
{
    url::form_urlencoded::Serializer::new(String::new()).extend_pairs(pairs.iter()).finish()
}

/// `Url::parse` of the url crate: the address that a text holds, or `None`
/// where the text does not parse.
#[verifier::external_body]
pub(crate) fn parse_url(text: &str) -> (r: Option<url::Url>)
    ensures
        r == parsed_url(text@),
{
    match url::Url::parse(text) {
        Ok(address) => Some(address),
        Err(_) => None,
    }
}

/// `Url::query_pairs` of the url crate: the pairs of the query string, names
/// and values decoded, in their order.
#[verifier::external_body]
pub(crate) fn pairs_of_url(address: &url::Url) -> (r: Vec<(String, String)>)
    ensures
        r.deep_view() == url_pairs(*address),
{
    address.query_pairs().into_owned().collect()
}

/// The decoded pairs of the query string of a text read as an address.
pub fn query_pairs(url: &str) -> (r: Option<Vec<(String, String)>>)
    ensures
        r.deep_view() == query_pairs_of(url@),
{
    match parse_url(url) {
        Some(address) => Some(pairs_of_url(&address)),
        None => None,
    }
}

/// `encode` of the engine `STANDARD` of the base64 crate, on the UTF-8
/// bytes of a text.
#[verifier::external_body]
pub(crate) fn base64_encode(text: &str) -> (r: String)
    ensures
        r@ == base64_of(encode_utf8(text@)),
{
    base64::engine::general_purpose::STANDARD.encode(text)
}

/// `gen_range` of the rand crate on the thread's generator: some number
/// below `bound`. Which one is not known.
#[verifier::external_body]
pub(crate) fn random_below(bound: u8) -> (r: u8)
    requires
        bound > 0,
    ensures
        r < bound,
{
    rand::thread_rng().gen_range(0..bound)
}

} // verus!
