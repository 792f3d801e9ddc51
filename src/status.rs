//! Gemini response headers: the status a server answers with, and the
//! response as the browser reads it.

use vstd::prelude::*;

verus! {

/// The kinds of input a server can ask for.
#[derive(Clone, Copy, PartialEq, Eq, Structural, Debug)]
pub enum InputCode {
    Input,
    Sensitive,
}

/// The kinds of redirect a server can answer with.
#[derive(Clone, Copy, PartialEq, Eq, Structural, Debug)]
pub enum RedirectCode {
    Temporary,
    Permanent,
}

/// The kinds of temporary failure a server can report.
#[derive(Clone, Copy, PartialEq, Eq, Structural, Debug)]
pub enum FailTemporaryCode {
    Temporary,
    ServerUnavailable,
    CGIError,
    ProxyError,
    SlowDown,
}

/// The kinds of permanent failure a server can report.
#[derive(Clone, Copy, PartialEq, Eq, Structural, Debug)]
pub enum FailPermanentCode {
    Permanent,
    NotFound,
    Gone,
    ProxyRefused,
    BadRequest,
}

/// The kinds of certificate failure a server can report.
#[derive(Clone, Copy, PartialEq, Eq, Structural, Debug)]
pub enum CertFailCode {
    CertRequired,
    CertNotAuthorized,
    CertNotValid,
}

/// The status of a response header.
#[derive(Clone, Copy, PartialEq, Eq, Structural, Debug)]
pub enum StatusCode {
    Input(InputCode),
    Success,
    Redirect(RedirectCode),
    FailTemporary(FailTemporaryCode),
    FailPermanent(FailPermanentCode),
    CertFail(CertFailCode),
}

/// The two-digit number that stands for `s` on the wire.
pub open spec fn status_number(s: StatusCode) -> nat {
    match s {
        StatusCode::Input(InputCode::Input) => 10,
        StatusCode::Input(InputCode::Sensitive) => 11,
        StatusCode::Success => 20,
        StatusCode::Redirect(RedirectCode::Temporary) => 30,
        StatusCode::Redirect(RedirectCode::Permanent) => 31,
        StatusCode::FailTemporary(FailTemporaryCode::Temporary) => 40,
        StatusCode::FailTemporary(FailTemporaryCode::ServerUnavailable) => 41,
        StatusCode::FailTemporary(FailTemporaryCode::CGIError) => 42,
        StatusCode::FailTemporary(FailTemporaryCode::ProxyError) => 43,
        StatusCode::FailTemporary(FailTemporaryCode::SlowDown) => 44,
        StatusCode::FailPermanent(FailPermanentCode::Permanent) => 50,
        StatusCode::FailPermanent(FailPermanentCode::NotFound) => 51,
        StatusCode::FailPermanent(FailPermanentCode::Gone) => 52,
        StatusCode::FailPermanent(FailPermanentCode::ProxyRefused) => 53,
        StatusCode::FailPermanent(FailPermanentCode::BadRequest) => 59,
        StatusCode::CertFail(CertFailCode::CertRequired) => 60,
        StatusCode::CertFail(CertFailCode::CertNotAuthorized) => 61,
        StatusCode::CertFail(CertFailCode::CertNotValid) => 62,
    }
}

/// The decimal digit `d` as a character.
pub open spec fn digit_char(d: nat) -> char {
    (d + 48) as char
}

/// The text of a status: its number in two decimal digits.
pub open spec fn status_text(s: StatusCode) -> Seq<char> {
    seq![digit_char(status_number(s) / 10), digit_char(status_number(s) % 10)]
}

impl StatusCode {
    /// The two-digit text of the status, as it stands in a header.
    pub fn to_str(&self) -> (r: &'static str)
        ensures
            r@ == status_text(*self),
    {
        match self {
            StatusCode::Input(InputCode::Input) => {
                proof { reveal_strlit("10"); }
                "10"
            },
            StatusCode::Input(InputCode::Sensitive) => {
                proof { reveal_strlit("11"); }
                "11"
            },
            StatusCode::Success => {
                proof { reveal_strlit("20"); }
                "20"
            },
            StatusCode::Redirect(RedirectCode::Temporary) => {
                proof { reveal_strlit("30"); }
                "30"
            },
            StatusCode::Redirect(RedirectCode::Permanent) => {
                proof { reveal_strlit("31"); }
                "31"
            },
            StatusCode::FailTemporary(FailTemporaryCode::Temporary) => {
                proof { reveal_strlit("40"); }
                "40"
            },
            StatusCode::FailTemporary(FailTemporaryCode::ServerUnavailable) => {
                proof { reveal_strlit("41"); }
                "41"
            },
            StatusCode::FailTemporary(FailTemporaryCode::CGIError) => {
                proof { reveal_strlit("42"); }
                "42"
            },
            StatusCode::FailTemporary(FailTemporaryCode::ProxyError) => {
                proof { reveal_strlit("43"); }
                "43"
            },
            StatusCode::FailTemporary(FailTemporaryCode::SlowDown) => {
                proof { reveal_strlit("44"); }
                "44"
            },
            StatusCode::FailPermanent(FailPermanentCode::Permanent) => {
                proof { reveal_strlit("50"); }
                "50"
            },
            StatusCode::FailPermanent(FailPermanentCode::NotFound) => {
                proof { reveal_strlit("51"); }
                "51"
            },
            StatusCode::FailPermanent(FailPermanentCode::Gone) => {
                proof { reveal_strlit("52"); }
                "52"
            },
            StatusCode::FailPermanent(FailPermanentCode::ProxyRefused) => {
                proof { reveal_strlit("53"); }
                "53"
            },
            StatusCode::FailPermanent(FailPermanentCode::BadRequest) => {
                proof { reveal_strlit("59"); }
                "59"
            },
            StatusCode::CertFail(CertFailCode::CertRequired) => {
                proof { reveal_strlit("60"); }
                "60"
            },
            StatusCode::CertFail(CertFailCode::CertNotAuthorized) => {
                proof { reveal_strlit("61"); }
                "61"
            },
            StatusCode::CertFail(CertFailCode::CertNotValid) => {
                proof { reveal_strlit("62"); }
                "62"
            },
        }
    }
}

/// A server's response: the header's status and meta line, and the body,
/// which only a successful response carries.
#[derive(Debug, PartialEq, Eq)]
pub struct Response {
    pub status: StatusCode,
    pub meta: String,
    pub body: Option<Vec<u8>>,
}

} // verus!
