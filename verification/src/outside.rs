//! What this crate takes from other crates, and from parts of the standard
//! library that come without specification.
//!
//! Every function here only makes the call. What is written under `ensures`
//! is taken on trust: it is what the documentation or the source of the
//! function called says of it, not something that was proved. Where the
//! result takes more than a few lines to state, it is given a name, and
//! nothing is claimed of it but that it depends on the arguments alone.

use vstd::prelude::*;

verus! {

/// `String::push` of the standard library: the character is appended.
#[verifier::external_body]
pub(crate) fn push_char(s: &mut String, c: char)
    ensures
        final(s)@ == old(s)@.push(c),
{
    s.push(c)
}

/// The string in lower case, as the standard library gives it.
pub uninterp spec fn lowercase(s: Seq<char>) -> Seq<char>;

/// `str::to_lowercase` of the standard library. The result is taken to
/// depend on the string alone; nothing else is claimed of it.
#[verifier::external_body]
pub(crate) fn to_lowercase(s: &str) -> (r: String)
    ensures
        r@ == lowercase(s@),
{
    s.to_lowercase()
}

/// The string without the white space at its two ends, as the standard
/// library gives it.
pub uninterp spec fn trimmed(s: Seq<char>) -> Seq<char>;

/// `str::trim` of the standard library. The result is taken to depend on
/// the string alone; nothing else is claimed of it.
#[verifier::external_body]
pub(crate) fn trim(s: &str) -> (r: &str)
    ensures
        r@ == trimmed(s@),
{
    s.trim()
}

/// Whether the pattern matches somewhere in the text, as the crate `regex`
/// decides it; `None` where the pattern is no regular expression of that
/// crate.
pub uninterp spec fn regex_match(pattern: Seq<char>, text: Seq<char>) -> Option<bool>;

/// `regex::Regex::new` on the pattern, then `Regex::is_match` on the text.
/// The result is taken to depend on the two strings alone; nothing else is
/// claimed of it.
#[verifier::external_body]
pub(crate) fn regex_is_match(pattern: &str, text: &str) -> (r: Option<bool>)
    ensures
        r == regex_match(pattern@, text@),
{
    match regex::Regex::new(pattern) {
        Ok(re) => Some(re.is_match(text)),
        Err(_) => None,
    }
}

/// What the capture group `group` holds in every match of the pattern in
/// the text, one entry for each match in the order of the matches, as the
/// crate `regex` finds them; an entry is `None` where the group took no
/// part in the match. `None` where the pattern is no regular expression of
/// that crate.
pub uninterp spec fn regex_groups(pattern: Seq<char>, group: nat, text: Seq<char>) -> Option<
    Seq<Option<Seq<char>>>,
>;

/// `regex::Regex::new` on the pattern, `Regex::captures_iter` on the text,
/// and of every match what `Captures::get` gives for the group. The result
/// is taken to depend on the arguments alone; nothing else is claimed of
/// it.
#[verifier::external_body]
pub(crate) fn regex_capture(pattern: &str, group: usize, text: &str) -> (r: Option<
    Vec<Option<String>>,
>)
    ensures
        r.deep_view() == regex_groups(pattern@, group as nat, text@),
{
    match regex::Regex::new(pattern) {
        Ok(re) => Some(
            re.captures_iter(text).map(|c| c.get(group).map(|m| m.as_str().to_owned())).collect(),
        ),
        Err(_) => None,
    }
}

/// The byte is a letter or a digit of ASCII, or one of `-`, `_`, `.`, `~`.
pub open spec fn is_unreserved(b: u8) -> bool {
    ||| 0x30 <= b <= 0x39
    ||| 0x41 <= b <= 0x5a
    ||| 0x61 <= b <= 0x7a
    ||| b == 0x2d
    ||| b == 0x2e
    ||| b == 0x5f
    ||| b == 0x7e
}

/// The hexadecimal digit, in upper case, of a number below sixteen.
pub open spec fn hex_digit(n: u8) -> char {
    if n < 10 {
        ((0x30 + n) as u8) as char
    } else {
        ((0x41 + n - 10) as u8) as char
    }
}

/// A byte as it stands in an address: itself where it is unreserved, else
/// `%` and its two hexadecimal digits.
pub open spec fn encoded_byte(b: u8) -> Seq<char> {
    if is_unreserved(b) {
        seq![b as char]
    } else {
        seq!['%', hex_digit(b / 16), hex_digit(b % 16)]
    }
}

/// The bytes as they stand in an address, one after another.
pub open spec fn encoded_bytes(bytes: Seq<u8>) -> Seq<char>
    decreases bytes.len(),
{
    if bytes.len() == 0 {
        Seq::empty()
    } else {
        encoded_bytes(bytes.drop_last()) + encoded_byte(bytes.last())
    }
}

/// The text as it stands in an address: every byte of its UTF-8 form but
/// letters, digits and `-`, `_`, `.`, `~` written as `%` and two
/// hexadecimal digits.
pub open spec fn percent_encoded(s: Seq<char>) -> Seq<char> {
    encoded_bytes(vstd::utf8::encode_utf8(s))
}

/// `urlencoding::encode`: every byte of the text but letters, digits and
/// `-`, `_`, `.`, `~` is written as `%` and two hexadecimal digits in upper
/// case.
#[verifier::external_body]
pub(crate) fn percent_encode(s: &str) -> (r: String)
    ensures
        r@ == percent_encoded(s@),
{
    urlencoding::encode(s).into_owned()
}

/// The JSON object with one more member: the key with the value, both the
/// object and the value given and returned as JSON text, as `serde_json`
/// reads and writes it; `None` where the first text is no JSON object or
/// the last no JSON.
pub uninterp spec fn json_inserted(object: Seq<char>, key: Seq<char>, value: Seq<char>) -> Option<
    Seq<char>,
>;

/// `serde_json::from_str` on the object and on the value, `Map::insert` of
/// the key with the value, and `serde_json::to_string` of the object. The
/// result is taken to depend on the three texts alone; nothing else is
/// claimed of it.
#[verifier::external_body]
pub(crate) fn json_insert(object: &str, key: &str, value: &str) -> (r: Option<String>)
    ensures
        r.deep_view() == json_inserted(object@, key@, value@),
{
    match (serde_json::from_str::<serde_json::Value>(object), serde_json::from_str(value)) {
        (Ok(serde_json::Value::Object(mut map)), Ok(v)) => {
            map.insert(key.to_owned(), v);
            serde_json::to_string(&serde_json::Value::Object(map)).ok()
        },
        _ => None,
    }
}

/// The URL that the text is, in the form in which the crate `url` writes
/// it; `None` where the text is no absolute URL.
pub uninterp spec fn url_parsed(input: Seq<char>) -> Option<Seq<char>>;

/// The URL that the text is, with the pairs added to its query, in the form
/// in which the crate `url` writes it; `None` where the text is no absolute
/// URL.
pub uninterp spec fn url_parsed_with_params(input: Seq<char>, pairs: Seq<(Seq<char>, Seq<char>)>)
    -> Option<Seq<char>>;

/// `url::Url::parse`, and the URL as a string. The result is taken to
/// depend on the text alone; nothing else is claimed of it.
#[verifier::external_body]
pub(crate) fn parse_url(input: &str) -> (r: Option<String>)
    ensures
        r.deep_view() == url_parsed(input@),
{
    match url::Url::parse(input) {
        Ok(u) => Some(String::from(u)),
        Err(_) => None,
    }
}

/// `url::Url::parse_with_params`, and the URL as a string. The result is
/// taken to depend on the text and the pairs alone; nothing else is claimed
/// of it.
#[verifier::external_body]
pub(crate) fn parse_url_with_params(input: &str, pairs: &Vec<(String, String)>) -> (r: Option<String>)
    ensures
        r.deep_view() == url_parsed_with_params(input@, pairs.deep_view()),
{
    match url::Url::parse_with_params(input, pairs) {
        Ok(u) => Some(String::from(u)),
        Err(_) => None,
    }
}

/// The JSON text written without white space between its tokens, as
/// `serde_json` writes it; `None` where the text is no JSON.
pub uninterp spec fn json_compact(text: Seq<char>) -> Option<Seq<char>>;

/// The JSON text written on several lines, indented, as `serde_json` writes
/// it; `None` where the text is no JSON.
pub uninterp spec fn json_pretty(text: Seq<char>) -> Option<Seq<char>>;

/// `serde_json::from_str` to a `Value`, then `serde_json::to_string` of it.
/// The result is taken to depend on the text alone; nothing else is claimed
/// of it.
#[verifier::external_body]
pub(crate) fn compact_json(text: &str) -> (r: Option<String>)
    ensures
        r.deep_view() == json_compact(text@),
{
    match serde_json::from_str::<serde_json::Value>(text) {
        Ok(value) => serde_json::to_string(&value).ok(),
        Err(_) => None,
    }
}

/// `serde_json::from_str` to a `Value`, then `serde_json::to_string_pretty`
/// of it. The result is taken to depend on the text alone; nothing else is
/// claimed of it.
#[verifier::external_body]
pub(crate) fn pretty_json(text: &str) -> (r: Option<String>)
    ensures
        r.deep_view() == json_pretty(text@),
{
    match serde_json::from_str::<serde_json::Value>(text) {
        Ok(value) => serde_json::to_string_pretty(&value).ok(),
        Err(_) => None,
    }
}

} // verus!
