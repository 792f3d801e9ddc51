//! Turning what the user typed or clicked into the address to request.

use vstd::prelude::*;
use vstd::utf8::encode_utf8;

verus! {

/// Why an address could not be read as an absolute URL.
#[derive(Debug, PartialEq, Eq)]
pub struct UrlError {
    /// The address is relative and was read without a base.
    pub relative_without_base: bool,
    /// The URL parser's description of the problem.
    pub message: String,
}

/// The mathematical model of [`UrlError`].
pub struct UrlFault {
    pub relative_without_base: bool,
    pub message: Seq<char>,
}

impl View for UrlError {
    type V = UrlFault;

    open spec fn view(&self) -> UrlFault {
        UrlFault { relative_without_base: self.relative_without_base, message: self.message@ }
    }
}

/// What the URL parser makes of `s` read as an absolute URL: the URL's
/// serialization, or what it finds wrong with `s`.
pub uninterp spec fn url_parse(s: Seq<char>) -> Result<Seq<char>, UrlFault>;

/// The serialized URL that `reference` names when read relative to the URL
/// `base`; `None` where `base` is no URL or the join fails.
pub uninterp spec fn url_join(base: Seq<char>, reference: Seq<char>) -> Option<Seq<char>>;

/// Relies on url::Url::parse, for whether `s` is an absolute URL and for its
/// serialization, and on url::ParseError, for the kind of the failure and
/// its Display text.
#[verifier::external_body]
pub(crate) fn parse_url(s: &str) -> (r: Result<String, UrlError>)
    ensures
        result_view(r) == url_parse(s@),
{
    match url::Url::parse(s) {
        Ok(u) => Ok(u.to_string()),
        Err(e) => Err(UrlError {
            relative_without_base: e == url::ParseError::RelativeUrlWithoutBase,
            message: e.to_string(),
        }),
    }
}

/// Relies on url::Url::parse of `base` and on url::Url::join, for the
/// address of `reference` relative to `base`, serialized by url::Url.
#[verifier::external_body]
pub(crate) fn join_url(base: &str, reference: &str) -> (r: Option<String>)
    ensures
        match r {
            Some(u) => url_join(base@, reference@) == Some(u@),
            None => url_join(base@, reference@) is None,
        },
{
    match url::Url::parse(base) {
        Ok(b) => match b.join(reference) {
            Ok(u) => Some(u.to_string()),
            Err(_) => None,
        },
        Err(_) => None,
    }
}

/// The address requested for `url`, typed or clicked while `current` is on
/// screen: `url` itself where it is an absolute URL; where it is relative,
/// its join with `current`; else the parser's complaint about `url`.
pub open spec fn resolved(current: Seq<char>, url: Seq<char>) -> Result<Seq<char>, UrlFault> {
    match url_parse(url) {
        Ok(_) => Ok(url),
        Err(f) => if f.relative_without_base && url_join(current, url) is Some {
            Ok(url_join(current, url)->Some_0)
        } else {
            Err(f)
        },
    }
}

/// The address chosen for `url` from the parser's verdict on it and, where
/// that was asked, from its join with the page on screen.
pub open spec fn resolution(url: Seq<char>, parsed: Result<(), UrlFault>, joined: Option<Seq<char>>) -> Result<Seq<char>, UrlFault> {
    match parsed {
        Ok(_) => Ok(url),
        Err(f) => if f.relative_without_base && joined is Some {
            Ok(joined->Some_0)
        } else {
            Err(f)
        },
    }
}

/// The view of a string result.
pub open spec fn result_view(r: Result<String, UrlError>) -> Result<Seq<char>, UrlFault> {
    match r {
        Ok(s) => Ok(s@),
        Err(e) => Err(e@),
    }
}

/// Picks the address to request for `url`, given whether `url` parsed
/// (`parsed`) and its join with the page on screen (`joined`).
pub fn pick_resolution(url: String, parsed: Result<(), UrlError>, joined: Option<String>) -> (r: Result<String, UrlError>)
    ensures
        result_view(r) == resolution(
            url@,
            match parsed { Ok(_) => Ok(()), Err(e) => Err(e@) },
            match joined { Some(j) => Some(j@), None => None },
        ),
{
    match parsed {
        Ok(_) => Ok(url),
        Err(e) => {
            if e.relative_without_base {
                match joined {
                    Some(j) => Ok(j),
                    None => Err(e),
                }
            } else {
                Err(e)
            }
        },
    }
}

/// The address to request for `url` while `current_url` is on screen: `url`
/// itself where it is an absolute URL, its join with `current_url` where it
/// is relative and the join succeeds, else the parser's complaint about `url`.
pub fn resolve_url(current_url: &str, url: &str) -> (r: Result<String, UrlError>)
    ensures
        result_view(r) == resolved(current_url@, url@),
{
    let parsed = match parse_url(url) {
        Ok(_) => Ok(()),
        Err(e) => Err(e),
    };
    let joined = match &parsed {
        Ok(_) => None,
        Err(e) => if e.relative_without_base {
            join_url(current_url, url)
        } else {
            None
        },
    };
    pick_resolution(url.to_owned(), parsed, joined)
}

/// Whether byte `b` is an ASCII letter or digit.
pub open spec fn is_alphanumeric_byte(b: u8) -> bool {
    (0x30 <= b <= 0x39) || (0x41 <= b <= 0x5a) || (0x61 <= b <= 0x7a)
}

/// The upper-case hexadecimal digit for `n`, below 16.
pub open spec fn hex_digit(n: int) -> char {
    if n < 10 {
        (n + 0x30) as char
    } else {
        (n - 10 + 0x41) as char
    }
}

/// The percent-encoding of one byte: ASCII letters and digits stand for
/// themselves, every other byte becomes `%` and two upper-case hex digits.
pub open spec fn percent_encoded_byte(b: u8) -> Seq<char> {
    if is_alphanumeric_byte(b) {
        seq![b as char]
    } else {
        seq!['%', hex_digit(b as int / 16), hex_digit(b as int % 16)]
    }
}

/// The percent-encoding of a byte string, byte by byte.
pub open spec fn percent_encoded(bytes: Seq<u8>) -> Seq<char>
    decreases bytes.len(),
{
    if bytes.len() == 0 {
        Seq::empty()
    } else {
        percent_encoded(bytes.drop_last()) + percent_encoded_byte(bytes.last())
    }
}

/// Relies on percent_encoding::utf8_percent_encode with NON_ALPHANUMERIC:
/// every byte of the UTF-8 form of `s` that is not an ASCII letter or digit
/// becomes `%` and two upper-case hex digits.
#[verifier::external_body]
fn percent_encode(s: &str) -> (r: String)
    ensures
        r@ == percent_encoded(encode_utf8(s@)),
{
    percent_encoding::utf8_percent_encode(s, percent_encoding::NON_ALPHANUMERIC).to_string()
}

/// The address that answers a server's request for input at `url` with
/// `answer`: `url`, `?`, then `answer` percent-encoded.
pub open spec fn input_url_of(url: Seq<char>, answer: Seq<char>) -> Seq<char> {
    url + seq!['?'] + percent_encoded(encode_utf8(answer))
}

/// The address to request after the user answered a server's request for
/// input at `url` with `answer`.
pub fn input_url(url: &str, answer: &str) -> (r: String)
    ensures
        r@ == input_url_of(url@, answer@),
{
    let encoded = percent_encode(answer);
    let mut query = String::from_str(url);
    query.append("?");
    query.append(encoded.as_str());
    proof {
        reveal_strlit("?");
        assert(query@ =~= url@ + seq!['?'] + encoded@);
    }
    query
}

} // verus!
