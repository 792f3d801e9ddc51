use castor::delegate::{Command, Delegate, DelegateAction};
use castor::gemtext::{gemtext_to_segments, Element, Segment, TextStyle};
use castor::history::{Castor, DEFAULT_URL};
use castor::gemtext::is_gemtext_readable;
use castor::page::{
    gemtext_page, gemtext_step, handle_response, redirect_prompt, LoadPageError, PageStep,
    UNREADABLE_LINK,
};
use castor::status::{
    CertFailCode, FailPermanentCode, FailTemporaryCode, InputCode, RedirectCode, Response,
    StatusCode,
};
use castor::urls::{input_url, pick_resolution, resolve_url, UrlError};

fn styled(t: &str, s: TextStyle) -> Segment {
    Segment::Styled(t.to_string(), s)
}

fn response(status: StatusCode, meta: &str, body: Option<&[u8]>) -> Response {
    Response { status, meta: meta.to_string(), body: body.map(|b| b.to_vec()) }
}

#[test]
fn new_window_starts_on_default_page() {
    let c = Castor::new();
    assert_eq!(c.current_url(), DEFAULT_URL);
    assert_eq!(c.get_current_url(), DEFAULT_URL);
    assert_eq!(c.history_len(), 1);
    assert_eq!(c.history_index(), 0);
    assert!(!c.can_go_back());
    assert!(!c.can_go_forward());
}

#[test]
fn visit_back_and_forward() {
    let mut c = Castor::with_start_url("gemini://a/".to_string());
    c.push_to_history("gemini://b/".to_string());
    c.push_to_history("gemini://c/".to_string());
    assert_eq!(c.history_len(), 3);
    assert_eq!(c.get_current_url(), "gemini://c/");
    assert_eq!(c.go_forward(), None);
    assert_eq!(c.go_back(), Some("gemini://b/".to_string()));
    assert_eq!(c.go_back(), Some("gemini://a/".to_string()));
    assert_eq!(c.go_back(), None);
    assert_eq!(c.history_index(), 0);
    assert_eq!(c.go_forward(), Some("gemini://b/".to_string()));
    assert!(c.can_go_back());
    assert!(c.can_go_forward());
}

#[test]
fn visit_drops_forward_entries() {
    let mut c = Castor::with_start_url("gemini://a/".to_string());
    c.push_to_history("gemini://b/".to_string());
    c.push_to_history("gemini://c/".to_string());
    c.go_back();
    c.go_back();
    c.push_to_history("gemini://d/".to_string());
    assert_eq!(c.history_len(), 2);
    assert_eq!(c.history_index(), 1);
    assert_eq!(c.get_current_url(), "gemini://d/");
    assert!(!c.can_go_forward());
    assert_eq!(c.go_back(), Some("gemini://a/".to_string()));
}

#[test]
fn page_loaded_sets_current_url_only() {
    let mut c = Castor::new();
    c.page_loaded("gemini://elsewhere/".to_string());
    assert_eq!(c.current_url(), "gemini://elsewhere/");
    assert_eq!(c.get_current_url(), DEFAULT_URL);
    assert_eq!(c.history_len(), 1);
}

#[test]
fn absolute_url_is_kept_as_typed() {
    let r = resolve_url("gemini://example.org/dir/page", "gemini://other.org/x");
    assert_eq!(r, Ok("gemini://other.org/x".to_string()));
}

#[test]
fn relative_url_joins_current_page() {
    let r = resolve_url("gemini://example.org/dir/page", "other.gmi");
    assert_eq!(r, Ok("gemini://example.org/dir/other.gmi".to_string()));
    let r = resolve_url("gemini://example.org/dir/page", "/top");
    assert_eq!(r, Ok("gemini://example.org/top".to_string()));
}

#[test]
fn invalid_url_reports_parser_error() {
    let r = resolve_url("gemini://example.org/", "gemini://example.org:99999/");
    assert_eq!(
        r,
        Err(UrlError { relative_without_base: false, message: "invalid port number".to_string() })
    );
}

#[test]
fn relative_url_without_usable_base() {
    let r = resolve_url("not a url", "page.gmi");
    assert_eq!(
        r,
        Err(UrlError {
            relative_without_base: true,
            message: "relative URL without a base".to_string()
        })
    );
}

#[test]
fn pick_resolution_cases() {
    let rel = || UrlError { relative_without_base: true, message: "m".to_string() };
    let other = || UrlError { relative_without_base: false, message: "n".to_string() };
    assert_eq!(pick_resolution("u".to_string(), Ok(()), Some("j".to_string())), Ok("u".to_string()));
    assert_eq!(pick_resolution("u".to_string(), Err(rel()), Some("j".to_string())), Ok("j".to_string()));
    assert_eq!(pick_resolution("u".to_string(), Err(rel()), None), Err(rel()));
    assert_eq!(pick_resolution("u".to_string(), Err(other()), Some("j".to_string())), Err(other()));
}

#[test]
fn input_url_percent_encodes_the_answer() {
    assert_eq!(input_url("gemini://x/q", "a b"), "gemini://x/q?a%20b");
    assert_eq!(input_url("gemini://x/q", "é/Z9"), "gemini://x/q?%C3%A9%2FZ9");
    assert_eq!(input_url("gemini://x/q", ""), "gemini://x/q?");
}

#[test]
fn redirect_prompts() {
    assert_eq!(
        redirect_prompt("gemini://t/", false),
        "This website has a temporary redirect to gemini://t/\nWould you like to continue?"
    );
    assert_eq!(
        redirect_prompt("gemini://p/", true),
        "This website has a permanent redirect to gemini://p/\nWould you like to continue?"
    );
}

#[test]
fn link_with_wide_whitespace_after_target_is_refused() {
    assert!(!is_gemtext_readable("=>a\u{a0}b"));
    assert!(!is_gemtext_readable("# t\n=> gemini://a/\u{3000}x"));
    let step = handle_response(response(StatusCode::Success, "text/gemini", Some("=>a\u{a0}b".as_bytes())));
    assert_eq!(step, PageStep::Failed(LoadPageError::GemtextParsing(UNREADABLE_LINK.to_string())));
}

#[test]
fn link_lines_inside_preformatted_blocks_are_read() {
    let text = "```\n=>a\u{a0}b";
    assert!(is_gemtext_readable(text));
    assert_eq!(
        gemtext_page(text),
        PageStep::ShowGemtext(vec![styled("=>a\u{a0}b\n\n", TextStyle::Preformatted)])
    );
    assert!(!is_gemtext_readable("```\nx\n```\n=>a\u{a0}b"));
    assert!(!is_gemtext_readable("```alt\n```rest\n=>a\u{a0}b"));
}

#[test]
fn earlier_empty_link_is_the_parser_error() {
    let text = "=>\n=>a\u{a0}b";
    assert!(is_gemtext_readable(text));
    let expected = "Malformed gemtext document: Invalid link format, there must be something after =>. Line #1: ";
    assert_eq!(gemtext_page(text), PageStep::Failed(LoadPageError::GemtextParsing(expected.to_string())));
    assert!(is_gemtext_readable("=> \r\n=>a\u{a0}b"));
}

#[test]
fn wide_whitespace_elsewhere_is_read() {
    assert!(is_gemtext_readable("a\u{a0}b\n=>\u{a0}x y\u{a0}z\n=> u v"));
    assert_eq!(
        gemtext_page("a\u{a0}b\n=>\u{a0}x y\u{a0}z"),
        PageStep::ShowGemtext(vec![
            styled("a\u{a0}b\n", TextStyle::Plaintext),
            Segment::Link { url: "x".to_string(), label: "y\u{a0}z".to_string() },
        ])
    );
    assert!(is_gemtext_readable(""));
}

#[test]
fn status_text() {
    assert_eq!(StatusCode::Success.to_str(), "20");
    assert_eq!(StatusCode::Input(InputCode::Sensitive).to_str(), "11");
    assert_eq!(StatusCode::FailPermanent(FailPermanentCode::BadRequest).to_str(), "59");
    assert_eq!(StatusCode::CertFail(CertFailCode::CertNotValid).to_str(), "62");
}

#[test]
fn tag_names() {
    assert_eq!(TextStyle::Plaintext.tag_name(), "plaintext");
    assert_eq!(TextStyle::Header.tag_name(), "header");
    assert_eq!(TextStyle::Subheader.tag_name(), "subheader");
    assert_eq!(TextStyle::Subsubheader.tag_name(), "subsubheader");
    assert_eq!(TextStyle::Preformatted.tag_name(), "preformatted");
}

#[test]
fn layout_of_each_element() {
    let es = vec![
        Element::Text("para".to_string()),
        Element::Link("gemini://a/".to_string(), "A".to_string()),
        Element::Heading("h1".to_string()),
        Element::Subheading("h2".to_string()),
        Element::Subsubheading("h3".to_string()),
        Element::UnorderedList(vec!["one".to_string(), "two".to_string()]),
        Element::BlockQuote("q".to_string()),
        Element::Preformatted("alt".to_string(), "code\n".to_string()),
    ];
    let expected = vec![
        styled("para\n", TextStyle::Plaintext),
        Segment::Link { url: "gemini://a/".to_string(), label: "A".to_string() },
        styled("h1\n", TextStyle::Header),
        styled("h2\n", TextStyle::Subheader),
        styled("h3\n", TextStyle::Subsubheader),
        styled("•one\n", TextStyle::Plaintext),
        styled("•two\n", TextStyle::Plaintext),
        styled("q\n", TextStyle::Plaintext),
        styled("code\n\n", TextStyle::Preformatted),
    ];
    assert_eq!(gemtext_to_segments(es), expected);
}

#[test]
fn layout_of_empty_document() {
    assert_eq!(gemtext_to_segments(vec![]), vec![]);
    assert_eq!(gemtext_to_segments(vec![Element::UnorderedList(vec![])]), vec![]);
}

#[test]
fn gemtext_step_cases() {
    assert_eq!(
        gemtext_step(Ok(vec![Element::Heading("T".to_string())])),
        PageStep::ShowGemtext(vec![styled("T\n", TextStyle::Header)])
    );
    assert_eq!(
        gemtext_step(Err("bad".to_string())),
        PageStep::Failed(LoadPageError::GemtextParsing("bad".to_string()))
    );
}

#[test]
fn gemtext_response_is_parsed_and_laid_out() {
    let body = b"# Title\n=> gemini://a.b/ Link\n* one\n* two\n```alt\ncode\n```\nplain";
    let step = handle_response(response(StatusCode::Success, "text/gemini; lang=en", Some(body)));
    assert_eq!(
        step,
        PageStep::ShowGemtext(vec![
            styled("Title\n", TextStyle::Header),
            Segment::Link { url: "gemini://a.b/".to_string(), label: "Link".to_string() },
            styled("•one\n", TextStyle::Plaintext),
            styled("•two\n", TextStyle::Plaintext),
            styled("code\n\n", TextStyle::Preformatted),
            styled("plain\n", TextStyle::Plaintext),
        ])
    );
}

#[test]
fn empty_meta_is_read_as_gemtext() {
    let step = handle_response(response(StatusCode::Success, "", Some(b"hello")));
    assert_eq!(step, PageStep::ShowGemtext(vec![styled("hello\n", TextStyle::Plaintext)]));
}

#[test]
fn malformed_gemtext_is_reported() {
    let step = handle_response(response(StatusCode::Success, "text/gemini", Some(b"=>")));
    let expected = "Malformed gemtext document: Invalid link format, there must be something after =>. Line #1: ";
    assert_eq!(step, PageStep::Failed(LoadPageError::GemtextParsing(expected.to_string())));
    if let PageStep::Failed(e) = step {
        assert_eq!(e.message(), format!("Gemtext parsing error: {expected}"));
    }
}

#[test]
fn plaintext_response_is_decoded_lossily() {
    let step = handle_response(response(StatusCode::Success, "text/plaintext", Some(&[0x66, 0xff, 0x67])));
    assert_eq!(step, PageStep::ShowPlaintext("f\u{FFFD}g".to_string()));
}

#[test]
fn success_without_body() {
    let step = handle_response(response(StatusCode::Success, "text/gemini", None));
    assert_eq!(step, PageStep::Failed(LoadPageError::EmptyBody(StatusCode::Success)));
    let step = handle_response(response(StatusCode::Success, "text/plaintext", None));
    assert_eq!(step, PageStep::Failed(LoadPageError::EmptyBody(StatusCode::Success)));
    assert_eq!(
        LoadPageError::EmptyBody(StatusCode::Success).message(),
        "Success, but empty response body"
    );
}

#[test]
fn other_media_type_is_not_gemtext() {
    let step = handle_response(response(StatusCode::Success, "image/png", Some(b"x")));
    assert_eq!(step, PageStep::Failed(LoadPageError::NotGemtext("image/png".to_string())));
    assert_eq!(
        LoadPageError::NotGemtext("image/png".to_string()).message(),
        "Response wasn't gemtext. Meta: image/png"
    );
}

#[test]
fn input_requests_are_put_to_the_user() {
    let step = handle_response(response(StatusCode::Input(InputCode::Input), "Search", None));
    assert_eq!(step, PageStep::AskInput { prompt: "Search".to_string(), sensitive: false });
    let step = handle_response(response(StatusCode::Input(InputCode::Sensitive), "Password", None));
    assert_eq!(step, PageStep::AskInput { prompt: "Password".to_string(), sensitive: true });
}

#[test]
fn redirects_are_offered() {
    let step = handle_response(response(StatusCode::Redirect(RedirectCode::Temporary), "gemini://t/", None));
    assert_eq!(step, PageStep::ConfirmRedirect { target: "gemini://t/".to_string(), permanent: false });
    let step = handle_response(response(StatusCode::Redirect(RedirectCode::Permanent), "gemini://p/", None));
    assert_eq!(step, PageStep::ConfirmRedirect { target: "gemini://p/".to_string(), permanent: true });
}

#[test]
fn failures_are_reported() {
    let step = handle_response(response(StatusCode::FailTemporary(FailTemporaryCode::SlowDown), "5", None));
    assert_eq!(step, PageStep::Failed(LoadPageError::FailTemporary(FailTemporaryCode::SlowDown)));
    let step = handle_response(response(StatusCode::FailPermanent(FailPermanentCode::NotFound), "gone", None));
    assert_eq!(step, PageStep::Failed(LoadPageError::FailPermanent(FailPermanentCode::NotFound)));
    let step = handle_response(response(StatusCode::CertFail(CertFailCode::CertNotAuthorized), "", None));
    assert_eq!(step, PageStep::Failed(LoadPageError::CertFail(CertFailCode::CertNotAuthorized)));
}

#[test]
fn error_messages() {
    assert_eq!(
        LoadPageError::RequestFailure("timed out".to_string()).message(),
        "Page request failed with error: timed out"
    );
    assert_eq!(
        LoadPageError::FailTemporary(FailTemporaryCode::SlowDown).message(),
        "Temporary failure: 44"
    );
    assert_eq!(
        LoadPageError::FailPermanent(FailPermanentCode::NotFound).message(),
        "Permanent failure: 51"
    );
    assert_eq!(
        LoadPageError::CertFail(CertFailCode::CertRequired).message(),
        "Certificate failure: 60\nCertificates are currently not supported"
    );
    assert_eq!(
        LoadPageError::EmptyBody(StatusCode::FailTemporary(FailTemporaryCode::CGIError)).message(),
        "Temporary failure: 42"
    );
    assert_eq!(
        LoadPageError::EmptyBody(StatusCode::FailPermanent(FailPermanentCode::Gone)).message(),
        "Permanent failure: 52"
    );
    assert_eq!(
        LoadPageError::EmptyBody(StatusCode::CertFail(CertFailCode::CertNotValid)).message(),
        "Certificate failure: 62"
    );
    let e = UrlError { relative_without_base: false, message: "empty host".to_string() };
    assert_eq!(LoadPageError::InvalidUrl(e).message(), "Failed to parse url: empty host");
}

#[test]
fn delegate_resolves_clicked_links() {
    let mut d = Delegate;
    let mut c = Castor::with_start_url("gemini://example.org/docs/index.gmi".to_string());
    let a = d.command(&Command::LinkClicked("spec.gmi".to_string()), &c);
    assert_eq!(a, DelegateAction::Load("gemini://example.org/docs/spec.gmi".to_string()));
    let a = d.command(&Command::LinkClicked("gemini://b.org/".to_string()), &c);
    assert_eq!(a, DelegateAction::Load("gemini://b.org/".to_string()));
    let a = d.command(&Command::LinkClicked("gemini://b.org/a b".to_string()), &c);
    assert_eq!(a, DelegateAction::Load("gemini://b.org/a%20b".to_string()));
    c.push_to_history("gemini://other.net/a/".to_string());
    let a = d.command(&Command::LinkClicked("b".to_string()), &c);
    assert_eq!(a, DelegateAction::Load("gemini://other.net/a/b".to_string()));
}

#[test]
fn delegate_passes_other_commands_and_rejects_bad_links() {
    let mut d = Delegate;
    let c = Castor::new();
    assert_eq!(d.command(&Command::PageLoaded, &c), DelegateAction::Pass);
    let a = d.command(&Command::LinkClicked("gemini://h:99999/".to_string()), &c);
    assert_eq!(
        a,
        DelegateAction::Reject(UrlError {
            relative_without_base: false,
            message: "invalid port number".to_string()
        })
    );
}
