use sha2::Digest;
use vstd::prelude::*;

verus! {

/// The lowercase hexadecimal SHA-256 digest of the UTF-8 bytes of a text.
pub uninterp spec fn sha256_hex(text: Seq<char>) -> Seq<char>;

/// The host that the `url` crate reads out of a text: `None` where the text
/// is no absolute URL or the URL has no host.
pub uninterp spec fn url_host(url: Seq<char>) -> Option<Seq<char>>;

/// What the first capture group of a regular expression holds at the
/// leftmost match in a text: `None` where the pattern does not compile, the
/// text has no match, or the group took no part in the match.
pub uninterp spec fn regex_first_group(pattern: Seq<char>, text: Seq<char>) -> Option<Seq<char>>;

/// The instant that an RFC 3339 date-and-time text denotes, in milliseconds
/// since 1970-01-01T00:00:00Z: `None` where the text is no such date and time.
pub uninterp spec fn rfc3339_millis(text: Seq<char>) -> Option<i64>;

/// The Unicode lowercase form of a text.
pub uninterp spec fn unicode_lowercase(text: Seq<char>) -> Seq<char>;

/// The Unicode uppercase form of a text.
pub uninterp spec fn unicode_uppercase(text: Seq<char>) -> Seq<char>;

/// Whether a character is a Unicode letter or number.
pub uninterp spec fn unicode_alphanumeric(c: char) -> bool;

/// Whether a character has the Unicode property `White_Space`.
pub uninterp spec fn unicode_whitespace(c: char) -> bool;

/// Reads the system clock through `chrono::Utc::now` and gives the time in
/// milliseconds since the Unix epoch. Nothing is claimed of the value: two
/// calls may give any two numbers. (`chrono` itself stops the process where
/// the system clock stands before 1970.)
#[verifier::external_body]
pub(crate) fn current_time_millis() -> (now: i64) {
    chrono::Utc::now().timestamp_millis()
}

/// Hashes the bytes of `text` with `sha2::Sha256` and prints the digest with
/// `{:x}`. The contract names the outcome, so that the same text gives the
/// same digest, and gives its length: the digest has 32 bytes, and each is
/// printed as two hexadecimal digits.
#[verifier::external_body]
pub(crate) fn sha256_hex_of(text: &str) -> (digest: String)
    ensures
        digest@ == sha256_hex(text@),
        digest@.len() == 64,
{
    let mut hasher = sha2::Sha256::new();
    hasher.update(text.as_bytes());
    format!("{:x}", hasher.finalize())
}

/// Parses `url` with `url::Url::parse` and copies `host_str()` out of it. The
/// contract only names the outcome; a parse error and a URL without a host
/// both come back as `None`.
#[verifier::external_body]
pub(crate) fn parse_host(url: &str) -> (host: Option<String>)
    ensures
        match host {
            Some(h) => url_host(url@) == Some(h@),
            None => url_host(url@) is None,
        },
{
    match url::Url::parse(url) {
        Ok(parsed) => match parsed.host_str() {
            Some(h) => Some(h.to_string()),
            None => None,
        },
        Err(_) => None,
    }
}

/// Compiles `pattern` with `regex::Regex::new`, searches `text` with
/// `Regex::captures` and copies out group 1 (`Captures::get(1)`). The contract
/// only names the outcome; a pattern that does not compile gives `None`.
#[verifier::external_body]
pub(crate) fn first_capture(pattern: &str, text: &str) -> (group: Option<String>)
    ensures
        match group {
            Some(g) => regex_first_group(pattern@, text@) == Some(g@),
            None => regex_first_group(pattern@, text@) is None,
        },
{
    match regex::Regex::new(pattern) {
        Ok(re) => match re.captures(text) {
            Some(caps) => match caps.get(1) {
                Some(m) => Some(m.as_str().to_string()),
                None => None,
            },
            None => None,
        },
        Err(_) => None,
    }
}

/// Parses `text` with `chrono::DateTime::parse_from_rfc3339` and takes
/// `timestamp_millis()` of the outcome. The contract only names the outcome;
/// a parse error gives `None`.
#[verifier::external_body]
pub(crate) fn parse_rfc3339(text: &str) -> (millis: Option<i64>)
    ensures
        millis == rfc3339_millis(text@),
{
    match chrono::DateTime::parse_from_rfc3339(text) {
        Ok(instant) => Some(instant.timestamp_millis()),
        Err(_) => None,
    }
}

/// `str::to_lowercase`: the Unicode lowercase form, named and not spelled out.
#[verifier::external_body]
pub(crate) fn lowercase(text: &str) -> (lower: String)
    ensures
        lower@ == unicode_lowercase(text@),
{
    text.to_lowercase()
}

/// `str::to_uppercase`: the Unicode uppercase form, named and not spelled out.
#[verifier::external_body]
pub(crate) fn uppercase(text: &str) -> (upper: String)
    ensures
        upper@ == unicode_uppercase(text@),
{
    text.to_uppercase()
}

/// `char::is_alphanumeric`: membership in Unicode's letter and number
/// classes, named and not spelled out.
#[verifier::external_body]
pub(crate) fn is_alphanumeric(c: char) -> (r: bool)
    ensures
        r == unicode_alphanumeric(c),
{
    c.is_alphanumeric()
}

/// `char::is_whitespace`: the Unicode property `White_Space`, named and not
/// spelled out.
#[verifier::external_body]
pub(crate) fn is_whitespace(c: char) -> (r: bool)
    ensures
        r == unicode_whitespace(c),
{
    c.is_whitespace()
}

} // verus!
