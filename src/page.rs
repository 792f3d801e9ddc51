//! What the browser does with a server's response, and the messages it shows
//! when a page cannot be loaded.

use vstd::prelude::*;
use vstd::utf8::{valid_utf8, decode_utf8};
use crate::gemtext::{
    Element, ElementView, Segment, SegmentView, elements_view, segments_view, layout, gemtext_parse,
    parse_gemtext, gemtext_to_segments, gemtext_readable, is_gemtext_readable,
};
use crate::status::{
    StatusCode, InputCode, RedirectCode, FailTemporaryCode, FailPermanentCode, CertFailCode,
    Response, status_text,
};
use crate::urls::{UrlError, UrlFault};

verus! {

/// Why a page could not be loaded.
#[derive(Debug, PartialEq, Eq)]
pub enum LoadPageError {
    /// The request failed; the client's description of the failure.
    RequestFailure(String),
    /// A successful response came without a body.
    EmptyBody(StatusCode),
    /// The response is neither plain text nor gemtext; its meta line.
    NotGemtext(String),
    /// The body is not well-formed gemtext; the parser's description.
    GemtextParsing(String),
    InvalidUrl(UrlError),
    FailTemporary(FailTemporaryCode),
    FailPermanent(FailPermanentCode),
    CertFail(CertFailCode),
}

/// The mathematical model of [`LoadPageError`].
pub enum PageFault {
    RequestFailure(Seq<char>),
    EmptyBody(StatusCode),
    NotGemtext(Seq<char>),
    GemtextParsing(Seq<char>),
    InvalidUrl(UrlFault),
    FailTemporary(FailTemporaryCode),
    FailPermanent(FailPermanentCode),
    CertFail(CertFailCode),
}

impl View for LoadPageError {
    type V = PageFault;

    open spec fn view(&self) -> PageFault {
        match self {
            LoadPageError::RequestFailure(m) => PageFault::RequestFailure(m@),
            LoadPageError::EmptyBody(s) => PageFault::EmptyBody(*s),
            LoadPageError::NotGemtext(m) => PageFault::NotGemtext(m@),
            LoadPageError::GemtextParsing(m) => PageFault::GemtextParsing(m@),
            LoadPageError::InvalidUrl(e) => PageFault::InvalidUrl(e@),
            LoadPageError::FailTemporary(c) => PageFault::FailTemporary(*c),
            LoadPageError::FailPermanent(c) => PageFault::FailPermanent(*c),
            LoadPageError::CertFail(c) => PageFault::CertFail(*c),
        }
    }
}

/// Whether a message can be given for `f`: an empty body is reported only
/// for a status that carries one.
pub open spec fn has_message(f: PageFault) -> bool {
    match f {
        PageFault::EmptyBody(s) => !(s is Input || s is Redirect),
        _ => true,
    }
}

/// The message shown for `f`.
pub open spec fn fault_message(f: PageFault) -> Seq<char> {
    match f {
        PageFault::RequestFailure(m) => "Page request failed with error: "@ + m,
        PageFault::EmptyBody(s) => match s {
            StatusCode::FailTemporary(_) => "Temporary failure: "@ + status_text(s),
            StatusCode::FailPermanent(_) => "Permanent failure: "@ + status_text(s),
            StatusCode::CertFail(_) => "Certificate failure: "@ + status_text(s),
            _ => "Success, but empty response body"@,
        },
        PageFault::NotGemtext(meta) => "Response wasn't gemtext. Meta: "@ + meta,
        PageFault::GemtextParsing(m) => "Gemtext parsing error: "@ + m,
        PageFault::InvalidUrl(e) => "Failed to parse url: "@ + e.message,
        PageFault::FailTemporary(c) => "Temporary failure: "@ + status_text(StatusCode::FailTemporary(c)),
        PageFault::FailPermanent(c) => "Permanent failure: "@ + status_text(StatusCode::FailPermanent(c)),
        PageFault::CertFail(c) => "Certificate failure: "@ + status_text(StatusCode::CertFail(c))
            + "\nCertificates are currently not supported"@,
    }
}

/// `prefix` followed by `rest`.
fn joined(prefix: &str, rest: &str) -> (r: String)
    ensures
        r@ == prefix@ + rest@,
{
    let mut r = String::from_str(prefix);
    r.append(rest);
    r
}

impl LoadPageError {
    /// The message to show the user for this error.
    pub fn message(&self) -> (r: String)
        requires
            has_message(self@),
        ensures
            r@ == fault_message(self@),
    {
        match self {
            LoadPageError::RequestFailure(m) => joined("Page request failed with error: ", m.as_str()),
            LoadPageError::EmptyBody(s) => match s {
                StatusCode::FailTemporary(_) => joined("Temporary failure: ", s.to_str()),
                StatusCode::FailPermanent(_) => joined("Permanent failure: ", s.to_str()),
                StatusCode::CertFail(_) => joined("Certificate failure: ", s.to_str()),
                _ => String::from_str("Success, but empty response body"),
            },
            LoadPageError::NotGemtext(meta) => joined("Response wasn't gemtext. Meta: ", meta.as_str()),
            LoadPageError::GemtextParsing(m) => joined("Gemtext parsing error: ", m.as_str()),
            LoadPageError::InvalidUrl(e) => joined("Failed to parse url: ", e.message.as_str()),
            LoadPageError::FailTemporary(c) => {
                joined("Temporary failure: ", StatusCode::FailTemporary(*c).to_str())
            },
            LoadPageError::FailPermanent(c) => {
                joined("Permanent failure: ", StatusCode::FailPermanent(*c).to_str())
            },
            LoadPageError::CertFail(c) => {
                let mut r = joined("Certificate failure: ", StatusCode::CertFail(*c).to_str());
                r.append("\nCertificates are currently not supported");
                r
            },
        }
    }
}

/// The question put to the user before following a redirect to `target`.
pub open spec fn redirect_prompt_of(target: Seq<char>, permanent: bool) -> Seq<char> {
    "This website has a "@ + (if permanent { "permanent"@ } else { "temporary"@ }) + " redirect to "@
        + target + "\nWould you like to continue?"@
}

/// The question put to the user before following a redirect to `target`.
pub fn redirect_prompt(target: &str, permanent: bool) -> (r: String)
    ensures
        r@ == redirect_prompt_of(target@, permanent),
{
    let mut r = String::from_str("This website has a ");
    if permanent {
        r.append("permanent");
    } else {
        r.append("temporary");
    }
    r.append(" redirect to ");
    r.append(target);
    r.append("\nWould you like to continue?");
    r
}

/// What the browser does next with a response.
#[derive(Debug, PartialEq, Eq)]
pub enum PageStep {
    /// Ask the user for input with `prompt`; hide what is typed where
    /// `sensitive`. The answer is sent with [`crate::urls::input_url`].
    AskInput { prompt: String, sensitive: bool },
    /// Show a plain-text page.
    ShowPlaintext(String),
    /// Show a gemtext page, laid out.
    ShowGemtext(Vec<Segment>),
    /// Ask the user whether to follow a redirect to `target`.
    ConfirmRedirect { target: String, permanent: bool },
    /// Report that the page could not be loaded.
    Failed(LoadPageError),
}

/// The mathematical model of [`PageStep`].
pub enum PageStepView {
    AskInput { prompt: Seq<char>, sensitive: bool },
    ShowPlaintext(Seq<char>),
    ShowGemtext(Seq<SegmentView>),
    ConfirmRedirect { target: Seq<char>, permanent: bool },
    Failed(PageFault),
}

impl View for PageStep {
    type V = PageStepView;

    open spec fn view(&self) -> PageStepView {
        match self {
            PageStep::AskInput { prompt, sensitive } => PageStepView::AskInput { prompt: prompt@, sensitive: *sensitive },
            PageStep::ShowPlaintext(t) => PageStepView::ShowPlaintext(t@),
            PageStep::ShowGemtext(ss) => PageStepView::ShowGemtext(segments_view(ss@)),
            PageStep::ConfirmRedirect { target, permanent } => PageStepView::ConfirmRedirect { target: target@, permanent: *permanent },
            PageStep::Failed(e) => PageStepView::Failed(e@),
        }
    }
}

/// Whether `p` is a prefix of `s`.
pub open spec fn starts_with(s: Seq<char>, p: Seq<char>) -> bool {
    p.len() <= s.len() && s.subrange(0, p.len() as int) == p
}

/// Whether `p` is a prefix of `s`.
fn has_prefix(s: &str, p: &str) -> (r: bool)
    ensures
        r == starts_with(s@, p@),
{
    let pn = p.unicode_len();
    let sn = s.unicode_len();
    if pn > sn {
        return false;
    }
    let mut i: usize = 0;
    while i < pn
        invariant
            i <= pn <= sn,
            pn == p@.len(),
            sn == s@.len(),
            forall|k: int| 0 <= k < i ==> s@[k] == p@[k],
        decreases pn - i,
    {
        if s.get_char(i) != p.get_char(i) {
            assert(s@.subrange(0, pn as int)[i as int] != p@[i as int]);
            return false;
        }
        i = i + 1;
    }
    assert(s@.subrange(0, pn as int) =~= p@);
    true
}

/// The text that lossy UTF-8 decoding makes of `bytes`.
pub uninterp spec fn utf8_lossy(bytes: Seq<u8>) -> Seq<char>;

/// Relies on String::from_utf8_lossy: `bytes` decoded as UTF-8, with each
/// invalid sequence replaced; valid UTF-8 decodes unchanged.
#[verifier::external_body]
fn decode_lossy(bytes: &Vec<u8>) -> (r: String)
    ensures
        r@ == utf8_lossy(bytes@),
        valid_utf8(bytes@) ==> r@ == decode_utf8(bytes@),
{
    String::from_utf8_lossy(bytes.as_slice()).into_owned()
}

/// The step for a gemtext body, from what the gemtext parser made of it.
pub open spec fn gemtext_step_of(parsed: Result<Seq<ElementView>, Seq<char>>) -> PageStepView {
    match parsed {
        Ok(es) => PageStepView::ShowGemtext(layout(es)),
        Err(m) => PageStepView::Failed(PageFault::GemtextParsing(m)),
    }
}

/// The parse error reported for a text that the gemtext parser cannot read.
pub const UNREADABLE_LINK: &'static str =
    "A link line's target is followed by a whitespace character of more than one byte";

/// The step for a gemtext body decoded to `text`.
pub open spec fn gemtext_page_of(text: Seq<char>) -> PageStepView {
    if gemtext_readable(text) {
        gemtext_step_of(gemtext_parse(text))
    } else {
        PageStepView::Failed(PageFault::GemtextParsing(UNREADABLE_LINK@))
    }
}

/// Whether a successful response with meta line `meta` is shown as plain text.
pub open spec fn is_plaintext(meta: Seq<char>) -> bool {
    starts_with(meta, "text/plaintext"@)
}

/// Whether a successful response with meta line `meta` is read as gemtext:
/// its type is gemtext, or it gives none.
pub open spec fn is_gemtext(meta: Seq<char>) -> bool {
    starts_with(meta, "text/gemini"@) || meta.len() == 0
}

/// What the browser does with a response with `status`, meta line `meta`
/// and `body`. A request for input is put to the user, a redirect is
/// offered for confirmation, a plain-text or gemtext body is shown, and
/// anything else is reported as an error.
pub open spec fn response_step(status: StatusCode, meta: Seq<char>, body: Option<Seq<u8>>) -> PageStepView {
    match status {
        StatusCode::Input(c) => PageStepView::AskInput { prompt: meta, sensitive: c == InputCode::Sensitive },
        StatusCode::Success => if is_plaintext(meta) {
            match body {
                Some(b) => PageStepView::ShowPlaintext(utf8_lossy(b)),
                None => PageStepView::Failed(PageFault::EmptyBody(status)),
            }
        } else if is_gemtext(meta) {
            match body {
                Some(b) => gemtext_page_of(utf8_lossy(b)),
                None => PageStepView::Failed(PageFault::EmptyBody(status)),
            }
        } else {
            PageStepView::Failed(PageFault::NotGemtext(meta))
        },
        StatusCode::Redirect(c) => PageStepView::ConfirmRedirect { target: meta, permanent: c == RedirectCode::Permanent },
        StatusCode::FailTemporary(c) => PageStepView::Failed(PageFault::FailTemporary(c)),
        StatusCode::FailPermanent(c) => PageStepView::Failed(PageFault::FailPermanent(c)),
        StatusCode::CertFail(c) => PageStepView::Failed(PageFault::CertFail(c)),
    }
}

/// The view of a response body.
pub open spec fn body_view(body: Option<Vec<u8>>) -> Option<Seq<u8>> {
    match body {
        Some(b) => Some(b@),
        None => None,
    }
}

/// The step for a gemtext body, given what the gemtext parser made of it.
pub fn gemtext_step(parsed: Result<Vec<Element>, String>) -> (r: PageStep)
    ensures
        r@ == gemtext_step_of(match parsed {
            Ok(es) => Ok(elements_view(es@)),
            Err(m) => Err(m@),
        }),
{
    match parsed {
        Ok(es) => PageStep::ShowGemtext(gemtext_to_segments(es)),
        Err(m) => PageStep::Failed(LoadPageError::GemtextParsing(m)),
    }
}

/// The step for a gemtext page with text `text`: its layout, or why it
/// cannot be read.
pub fn gemtext_page(text: &str) -> (r: PageStep)
    ensures
        r@ == gemtext_page_of(text@),
{
    if is_gemtext_readable(text) {
        gemtext_step(parse_gemtext(text))
    } else {
        PageStep::Failed(LoadPageError::GemtextParsing(String::from_str(UNREADABLE_LINK)))
    }
}

/// Decides what to do with a server's response. A body in valid UTF-8 is
/// read as its UTF-8 text.
pub fn handle_response(response: Response) -> (r: PageStep)
    ensures
        r@ == response_step(response.status, response.meta@, body_view(response.body)),
        response.status == StatusCode::Success && (is_plaintext(response.meta@) || is_gemtext(
            response.meta@,
        )) && response.body is Some && valid_utf8(response.body->Some_0@) ==> utf8_lossy(
            response.body->Some_0@,
        ) == decode_utf8(response.body->Some_0@),
{
    match response.status {
        StatusCode::Input(c) => PageStep::AskInput {
            prompt: response.meta,
            sensitive: c == InputCode::Sensitive,
        },
        StatusCode::Success => {
            if has_prefix(response.meta.as_str(), "text/plaintext") {
                match &response.body {
                    Some(b) => PageStep::ShowPlaintext(decode_lossy(b)),
                    None => PageStep::Failed(LoadPageError::EmptyBody(response.status)),
                }
            } else if has_prefix(response.meta.as_str(), "text/gemini") || response.meta.as_str().is_empty() {
                match &response.body {
                    Some(b) => {
                        let text = decode_lossy(b);
                        gemtext_page(text.as_str())
                    },
                    None => PageStep::Failed(LoadPageError::EmptyBody(response.status)),
                }
            } else {
                PageStep::Failed(LoadPageError::NotGemtext(response.meta))
            }
        },
        StatusCode::Redirect(c) => PageStep::ConfirmRedirect {
            target: response.meta,
            permanent: c == RedirectCode::Permanent,
        },
        StatusCode::FailTemporary(c) => PageStep::Failed(LoadPageError::FailTemporary(c)),
        StatusCode::FailPermanent(c) => PageStep::Failed(LoadPageError::FailPermanent(c)),
        StatusCode::CertFail(c) => PageStep::Failed(LoadPageError::CertFail(c)),
    }
}

} // verus!
