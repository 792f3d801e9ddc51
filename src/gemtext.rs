//! Gemtext documents and how a page of them is laid out as styled text.

use vstd::prelude::*;
use leda::gemini::gemtext::Element as Parsed;

verus! {

/// One element of a gemtext document.
#[derive(Debug, PartialEq, Eq)]
pub enum Element {
    /// A paragraph of plain text.
    Text(String),
    /// A link: where it goes, then the text to show for it.
    Link(String, String),
    Heading(String),
    Subheading(String),
    Subsubheading(String),
    /// The items of a list, in order.
    UnorderedList(Vec<String>),
    BlockQuote(String),
    /// A preformatted block: its alt text, then its text.
    Preformatted(String, String),
}

/// The mathematical model of [`Element`].
pub enum ElementView {
    Text(Seq<char>),
    Link(Seq<char>, Seq<char>),
    Heading(Seq<char>),
    Subheading(Seq<char>),
    Subsubheading(Seq<char>),
    UnorderedList(Seq<Seq<char>>),
    BlockQuote(Seq<char>),
    Preformatted(Seq<char>, Seq<char>),
}

impl View for Element {
    type V = ElementView;

    open spec fn view(&self) -> ElementView {
        match self {
            Element::Text(t) => ElementView::Text(t@),
            Element::Link(u, t) => ElementView::Link(u@, t@),
            Element::Heading(t) => ElementView::Heading(t@),
            Element::Subheading(t) => ElementView::Subheading(t@),
            Element::Subsubheading(t) => ElementView::Subsubheading(t@),
            Element::UnorderedList(items) => ElementView::UnorderedList(items.deep_view()),
            Element::BlockQuote(t) => ElementView::BlockQuote(t@),
            Element::Preformatted(a, t) => ElementView::Preformatted(a@, t@),
        }
    }
}

/// The view of a list of elements.
pub open spec fn elements_view(es: Seq<Element>) -> Seq<ElementView> {
    es.map_values(|e: Element| e@)
}

/// The elements that the gemtext parser reads from `text`, or its
/// description of why the text is malformed.
pub uninterp spec fn gemtext_parse(text: Seq<char>) -> Result<Seq<ElementView>, Seq<char>>;

/// A whitespace character of one byte in UTF-8, as `char::is_whitespace`
/// counts them.
pub open spec fn is_narrow_whitespace(c: char) -> bool {
    c == '\t' || c == '\n' || c == '\u{0B}' || c == '\u{0C}' || c == '\r' || c == ' '
}

/// A whitespace character of more than one byte in UTF-8, as
/// `char::is_whitespace` counts them.
pub open spec fn is_wide_whitespace(c: char) -> bool {
    c == '\u{85}' || c == '\u{A0}' || c == '\u{1680}' || ('\u{2000}' <= c && c <= '\u{200A}')
        || c == '\u{2028}' || c == '\u{2029}' || c == '\u{202F}' || c == '\u{205F}' || c == '\u{3000}'
}

/// Whitespace as `char::is_whitespace` counts it.
pub open spec fn is_whitespace(c: char) -> bool {
    is_narrow_whitespace(c) || is_wide_whitespace(c)
}

/// Where a scan of a text, line by line as the gemtext parser reads it,
/// stands. Outside preformatted blocks: at the start of a line, after a
/// line's leading `=`, in the whitespace after a leading `=>`, in a link's
/// target, after a leading backquote or two, or elsewhere in a line. Inside a
/// block (from the rest of its opening line on): at the start of a line,
/// after a leading backquote or two, or elsewhere in a line. And the two ends
/// of the parser's reading: a link line with nothing after `=>`, where it
/// stops with an error, and a link whose target is followed by whitespace of
/// more than one byte, where it would split the line inside that character.
#[derive(Clone, Copy, PartialEq, Eq, Structural, Debug)]
pub enum LinkScan {
    LineStart,
    Equals,
    Lead,
    Target,
    Tick1,
    Tick2,
    Other,
    BlockLineStart,
    BlockTick1,
    BlockTick2,
    BlockOther,
    EmptyLink,
    WideAfterTarget,
}

/// Whether the scan is inside a preformatted block.
pub open spec fn in_block(s: LinkScan) -> bool {
    s == LinkScan::BlockLineStart || s == LinkScan::BlockTick1 || s == LinkScan::BlockTick2
        || s == LinkScan::BlockOther
}

/// The scan's state after character `c` in state `s`.
pub open spec fn scan_step(s: LinkScan, c: char) -> LinkScan {
    if s == LinkScan::WideAfterTarget || s == LinkScan::EmptyLink {
        s
    } else if c == '\n' {
        if s == LinkScan::Lead {
            LinkScan::EmptyLink
        } else if in_block(s) {
            LinkScan::BlockLineStart
        } else {
            LinkScan::LineStart
        }
    } else {
        match s {
            LinkScan::LineStart => if c == '=' {
                LinkScan::Equals
            } else if c == '`' {
                LinkScan::Tick1
            } else {
                LinkScan::Other
            },
            LinkScan::Equals => if c == '>' { LinkScan::Lead } else { LinkScan::Other },
            LinkScan::Lead => if is_whitespace(c) { LinkScan::Lead } else { LinkScan::Target },
            LinkScan::Target => if is_wide_whitespace(c) {
                LinkScan::WideAfterTarget
            } else if is_whitespace(c) {
                LinkScan::Other
            } else {
                LinkScan::Target
            },
            LinkScan::Tick1 => if c == '`' { LinkScan::Tick2 } else { LinkScan::Other },
            LinkScan::Tick2 => if c == '`' { LinkScan::BlockOther } else { LinkScan::Other },
            LinkScan::BlockLineStart => if c == '`' { LinkScan::BlockTick1 } else { LinkScan::BlockOther },
            LinkScan::BlockTick1 => if c == '`' { LinkScan::BlockTick2 } else { LinkScan::BlockOther },
            LinkScan::BlockTick2 => if c == '`' { LinkScan::Other } else { LinkScan::BlockOther },
            LinkScan::BlockOther => LinkScan::BlockOther,
            _ => LinkScan::Other,
        }
    }
}

/// The scan's state at the end of `text`.
pub open spec fn scan(text: Seq<char>) -> LinkScan
    decreases text.len(),
{
    if text.len() == 0 {
        LinkScan::LineStart
    } else {
        scan_step(scan(text.drop_last()), text.last())
    }
}

/// Whether the gemtext parser reads `text` without panicking: it reads the
/// lines in order, skips those of preformatted blocks, stops with an error at
/// the first line that is `=>` and whitespace alone, and splits every other
/// line that begins with `=>` one byte after the first whitespace that
/// follows the link's target, which must then be a character of one byte.
pub open spec fn gemtext_readable(text: Seq<char>) -> bool {
    scan(text) != LinkScan::WideAfterTarget
}

/// Whether `c` is whitespace of more than one byte.
fn wide_whitespace(c: char) -> (r: bool)
    ensures
        r == is_wide_whitespace(c),
{
    c == '\u{85}' || c == '\u{A0}' || c == '\u{1680}' || ('\u{2000}' <= c && c <= '\u{200A}')
        || c == '\u{2028}' || c == '\u{2029}' || c == '\u{202F}' || c == '\u{205F}' || c == '\u{3000}'
}

/// Whether `c` is whitespace.
fn whitespace(c: char) -> (r: bool)
    ensures
        r == is_whitespace(c),
{
    c == '\t' || c == '\n' || c == '\u{0B}' || c == '\u{0C}' || c == '\r' || c == ' ' || wide_whitespace(c)
}

/// One step of the scan.
fn next_scan(s: LinkScan, c: char) -> (r: LinkScan)
    ensures
        r == scan_step(s, c),
{
    if s == LinkScan::WideAfterTarget || s == LinkScan::EmptyLink {
        s
    } else if c == '\n' {
        if s == LinkScan::Lead {
            LinkScan::EmptyLink
        } else if s == LinkScan::BlockLineStart || s == LinkScan::BlockTick1 || s == LinkScan::BlockTick2
            || s == LinkScan::BlockOther {
            LinkScan::BlockLineStart
        } else {
            LinkScan::LineStart
        }
    } else {
        match s {
            LinkScan::LineStart => if c == '=' {
                LinkScan::Equals
            } else if c == '`' {
                LinkScan::Tick1
            } else {
                LinkScan::Other
            },
            LinkScan::Equals => if c == '>' { LinkScan::Lead } else { LinkScan::Other },
            LinkScan::Lead => if whitespace(c) { LinkScan::Lead } else { LinkScan::Target },
            LinkScan::Target => if wide_whitespace(c) {
                LinkScan::WideAfterTarget
            } else if whitespace(c) {
                LinkScan::Other
            } else {
                LinkScan::Target
            },
            LinkScan::Tick1 => if c == '`' { LinkScan::Tick2 } else { LinkScan::Other },
            LinkScan::Tick2 => if c == '`' { LinkScan::BlockOther } else { LinkScan::Other },
            LinkScan::BlockLineStart => if c == '`' { LinkScan::BlockTick1 } else { LinkScan::BlockOther },
            LinkScan::BlockTick1 => if c == '`' { LinkScan::BlockTick2 } else { LinkScan::BlockOther },
            LinkScan::BlockTick2 => if c == '`' { LinkScan::Other } else { LinkScan::BlockOther },
            LinkScan::BlockOther => LinkScan::BlockOther,
            _ => LinkScan::Other,
        }
    }
}

/// Whether the gemtext parser can read `text`.
pub fn is_gemtext_readable(text: &str) -> (r: bool)
    ensures
        r == gemtext_readable(text@),
{
    let mut s = LinkScan::LineStart;
    for c in it: text.chars()
        invariant
            it.seq() == text@,
            s == scan(text@.subrange(0, it.index() as int)),
    {
        proof {
            assert(text@.subrange(0, it.index() + 1).drop_last() =~= text@.subrange(0, it.index() as int));
        }
        s = next_scan(s, c);
    }
    proof {
        assert(text@.subrange(0, text@.len() as int) =~= text@);
    }
    s != LinkScan::WideAfterTarget
}

/// Relies on leda::gemini::Gemtext::new, for the elements of `text`, and on
/// the Display text of leda::gemini::Error where it refuses the text.
#[verifier::external_body]
pub(crate) fn parse_gemtext(text: &str) -> (r: Result<Vec<Element>, String>)
    requires
        gemtext_readable(text@),
    ensures
        match r {
            Ok(es) => gemtext_parse(text@) == Ok::<_, Seq<char>>(elements_view(es@)),
            Err(m) => gemtext_parse(text@) == Err::<Seq<ElementView>, _>(m@),
        },
{
    match leda::gemini::Gemtext::new(text) {
        Ok(doc) => Ok(doc.elements.into_iter().map(|e| match e {
            Parsed::Text(t) => Element::Text(t),
            Parsed::Link(u, t) => Element::Link(u, t),
            Parsed::Heading(t) => Element::Heading(t),
            Parsed::Subheading(t) => Element::Subheading(t),
            Parsed::Subsubheading(t) => Element::Subsubheading(t),
            Parsed::UnorderedList(items) => Element::UnorderedList(items),
            Parsed::BlockQuote(t) => Element::BlockQuote(t),
            Parsed::Preformatted(a, t) => Element::Preformatted(a, t),
        }).collect()),
        Err(e) => Err(e.to_string()),
    }
}

/// The styles of text on a page; each is a tag of the page's text buffer.
#[derive(Clone, Copy, PartialEq, Eq, Structural, Debug)]
pub enum TextStyle {
    Plaintext,
    Header,
    Subheader,
    Subsubheader,
    Preformatted,
}

/// The name of the text tag for a style.
pub open spec fn style_tag(s: TextStyle) -> Seq<char> {
    match s {
        TextStyle::Plaintext => "plaintext"@,
        TextStyle::Header => "header"@,
        TextStyle::Subheader => "subheader"@,
        TextStyle::Subsubheader => "subsubheader"@,
        TextStyle::Preformatted => "preformatted"@,
    }
}

impl TextStyle {
    /// The name of the text tag that renders this style.
    pub fn tag_name(&self) -> (r: &'static str)
        ensures
            r@ == style_tag(*self),
    {
        match self {
            TextStyle::Plaintext => "plaintext",
            TextStyle::Header => "header",
            TextStyle::Subheader => "subheader",
            TextStyle::Subsubheader => "subsubheader",
            TextStyle::Preformatted => "preformatted",
        }
    }
}

/// A piece of a laid-out page.
#[derive(Debug, PartialEq, Eq)]
pub enum Segment {
    /// Text shown in a style.
    Styled(String, TextStyle),
    /// A link shown as a button with `label`, leading to `url`, followed by
    /// a line break.
    Link { url: String, label: String },
}

/// The mathematical model of [`Segment`].
pub enum SegmentView {
    Styled(Seq<char>, TextStyle),
    Link { url: Seq<char>, label: Seq<char> },
}

impl View for Segment {
    type V = SegmentView;

    open spec fn view(&self) -> SegmentView {
        match self {
            Segment::Styled(t, s) => SegmentView::Styled(t@, *s),
            Segment::Link { url, label } => SegmentView::Link { url: url@, label: label@ },
        }
    }
}

/// The view of a list of segments.
pub open spec fn segments_view(ss: Seq<Segment>) -> Seq<SegmentView> {
    ss.map_values(|s: Segment| s@)
}

/// `t` followed by a line break.
pub open spec fn line(t: Seq<char>) -> Seq<char> {
    t.push('\n')
}

/// The list items `items`, each shown as a bullet, its text and a line break.
pub open spec fn list_segments(items: Seq<Seq<char>>) -> Seq<SegmentView>
    decreases items.len(),
{
    if items.len() == 0 {
        Seq::empty()
    } else {
        list_segments(items.drop_last()).push(
            SegmentView::Styled(line(seq!['•'] + items.last()), TextStyle::Plaintext),
        )
    }
}

/// How one element is laid out. Paragraphs, list items and block quotes are
/// plain text, headings take the style of their level, and a preformatted
/// block is shown without its alt text; each text ends with a line break.
pub open spec fn element_segments(e: ElementView) -> Seq<SegmentView> {
    match e {
        ElementView::Text(t) => seq![SegmentView::Styled(line(t), TextStyle::Plaintext)],
        ElementView::Link(u, t) => seq![SegmentView::Link { url: u, label: t }],
        ElementView::Heading(t) => seq![SegmentView::Styled(line(t), TextStyle::Header)],
        ElementView::Subheading(t) => seq![SegmentView::Styled(line(t), TextStyle::Subheader)],
        ElementView::Subsubheading(t) => seq![SegmentView::Styled(line(t), TextStyle::Subsubheader)],
        ElementView::UnorderedList(items) => list_segments(items),
        ElementView::BlockQuote(t) => seq![SegmentView::Styled(line(t), TextStyle::Plaintext)],
        ElementView::Preformatted(_, t) => seq![SegmentView::Styled(line(t), TextStyle::Preformatted)],
    }
}

/// How a document is laid out: its elements' segments, in order.
pub open spec fn layout(es: Seq<ElementView>) -> Seq<SegmentView>
    decreases es.len(),
{
    if es.len() == 0 {
        Seq::empty()
    } else {
        layout(es.drop_last()) + element_segments(es.last())
    }
}

/// `t` with a line break appended.
fn with_newline(t: String) -> (r: String)
    ensures
        r@ == line(t@),
{
    let mut r = t;
    r.append("\n");
    proof {
        reveal_strlit("\n");
    }
    r
}

/// Appends the layout of `e` to `out`.
fn push_element(out: &mut Vec<Segment>, e: Element)
    ensures
        segments_view(final(out)@) == segments_view(old(out)@) + element_segments(e@),
{
    let ghost ev = e@;
    let ghost start = segments_view(out@);
    match e {
        Element::Text(t) => out.push(Segment::Styled(with_newline(t), TextStyle::Plaintext)),
        Element::Link(u, t) => out.push(Segment::Link { url: u, label: t }),
        Element::Heading(t) => out.push(Segment::Styled(with_newline(t), TextStyle::Header)),
        Element::Subheading(t) => out.push(Segment::Styled(with_newline(t), TextStyle::Subheader)),
        Element::Subsubheading(t) => out.push(Segment::Styled(with_newline(t), TextStyle::Subsubheader)),
        Element::UnorderedList(items) => {
            let ghost iv = items.deep_view();
            let mut i: usize = 0;
            while i < items.len()
                invariant
                    i <= items@.len(),
                    iv == items.deep_view(),
                    segments_view(out@) == start + list_segments(iv.subrange(0, i as int)),
                decreases items@.len() - i,
            {
                let mut text = String::from_str("•");
                text.append(items[i].as_str());
                let text = with_newline(text);
                let ghost before = out@;
                proof {
                    reveal_strlit("•");
                    assert(iv.subrange(0, i + 1).drop_last() =~= iv.subrange(0, i as int));
                    assert(iv[i as int] == items@[i as int]@);
                    assert("•"@ =~= seq!['•']);
                    assert(text@ =~= line(seq!['•'] + iv[i as int]));
                }
                out.push(Segment::Styled(text, TextStyle::Plaintext));
                proof {
                    assert(segments_view(out@) =~= segments_view(before).push(
                        SegmentView::Styled(line(seq!['•'] + iv[i as int]), TextStyle::Plaintext),
                    ));
                }
                i = i + 1;
            }
            assert(iv.subrange(0, i as int) =~= iv);
        },
        Element::BlockQuote(t) => out.push(Segment::Styled(with_newline(t), TextStyle::Plaintext)),
        Element::Preformatted(_, t) => out.push(Segment::Styled(with_newline(t), TextStyle::Preformatted)),
    }
    assert(segments_view(out@) =~= start + element_segments(ev));
}

/// Lays out a gemtext document as styled text and link buttons.
pub fn gemtext_to_segments(elements: Vec<Element>) -> (r: Vec<Segment>)
    ensures
        segments_view(r@) == layout(elements_view(elements@)),
{
    let ghost all = elements_view(elements@);
    let mut out: Vec<Segment> = Vec::new();
    let mut rest = elements;
    while rest.len() > 0
        invariant
            rest@.len() <= all.len(),
            elements_view(rest@) == all.subrange(all.len() - rest@.len(), all.len() as int),
            segments_view(out@) == layout(all.subrange(0, all.len() - rest@.len())),
        decreases rest@.len(),
    {
        let ghost k = all.len() - rest@.len();
        let ghost old_rest = rest@;
        let e = rest.remove(0);
        proof {
            assert forall|j: int| 0 <= j < rest@.len() implies rest@[j]@ == all[k + 1 + j] by {
                assert(rest@[j] == old_rest[j + 1]);
                assert(elements_view(old_rest)[j + 1] == all.subrange(k, all.len() as int)[j + 1]);
            }
            assert(elements_view(rest@) =~= all.subrange(k + 1, all.len() as int));
            assert(elements_view(old_rest)[0] == all.subrange(k, all.len() as int)[0]);
            assert(all.subrange(0, k + 1).drop_last() =~= all.subrange(0, k));
            assert(all.subrange(0, k + 1).last() == all[k]);
        }
        push_element(&mut out, e);
    }
    proof {
        assert(all.subrange(0, all.len() as int) =~= all);
    }
    out
}

} // verus!
