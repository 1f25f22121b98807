//! Text with a style.

use vstd::prelude::*;
use vstd::string::StringExecFns;

verus! {

/// How a piece of text is shown.
#[derive(Debug, Clone, Copy, PartialEq, Eq, Structural)]
pub enum Style {
    Plain,
    Bold,
    BoldUnderline,
    Dimmed,
    Cyan,
    Green,
    GreenBold,
    Yellow,
    YellowBold,
    Red,
    RedBold,
    Blue,
    BlueBold,
}

/// A piece of text and how it is shown.
#[derive(Debug, Clone, PartialEq, Eq)]
pub struct Span {
    pub text: String,
    pub style: Style,
}

/// The mathematical value of a [`Span`].
pub struct SpanView {
    pub text: Seq<char>,
    pub style: Style,
}

impl View for Span {
    type V = SpanView;

    open spec fn view(&self) -> SpanView {
        SpanView { text: self.text@, style: self.style }
    }
}

impl DeepView for Span {
    type V = SpanView;

    open spec fn deep_view(&self) -> SpanView {
        self@
    }
}

/// The text `text` in the style `style`.
pub open spec fn styled(text: Seq<char>, style: Style) -> SpanView {
    SpanView { text: text, style: style }
}

/// The text `text` without a style.
pub open spec fn plain(text: Seq<char>) -> SpanView {
    SpanView { text: text, style: Style::Plain }
}

/// The text of `spans`, styles aside.
pub open spec fn text_of(spans: Seq<SpanView>) -> Seq<char>
    decreases spans.len(),
{
    if spans.len() == 0 {
        Seq::empty()
    } else {
        text_of(spans.drop_last()) + spans.last().text
    }
}

/// The character `c`, `n` times.
pub open spec fn repeated(c: char, n: nat) -> Seq<char> {
    Seq::new(n, |i: int| c)
}

/// Appends to `spans` the text `text` in the style `style`.
pub fn push_span(spans: &mut Vec<Span>, text: String, style: Style)
    ensures
        final(spans).deep_view() == old(spans).deep_view() + seq![styled(text@, style)],
{
    spans.push(Span { text, style });
    assert(spans.deep_view() =~= old(spans).deep_view() + seq![styled(text@, style)]);
}

/// Appends to `spans` the text `text` in the style `style`.
pub fn push_str_span(spans: &mut Vec<Span>, text: &str, style: Style)
    ensures
        final(spans).deep_view() == old(spans).deep_view() + seq![styled(text@, style)],
{
    push_span(spans, text.to_owned(), style);
}

/// Appends to `spans` the text `text` without a style.
pub fn push_plain(spans: &mut Vec<Span>, text: &str)
    ensures
        final(spans).deep_view() == old(spans).deep_view() + seq![plain(text@)],
{
    push_span(spans, text.to_owned(), Style::Plain);
}

/// Moves the spans of `more` to the end of `spans`.
pub fn append_spans(spans: &mut Vec<Span>, more: Vec<Span>)
    ensures
        final(spans).deep_view() == old(spans).deep_view() + more.deep_view(),
{
    let mut more = more;
    let ghost moved = more.deep_view();
    spans.append(&mut more);
    assert(spans.deep_view() =~= old(spans).deep_view() + moved);
}

/// No span.
pub fn no_span() -> (spans: Vec<Span>)
    ensures
        spans.deep_view() == Seq::<SpanView>::empty(),
{
    let spans: Vec<Span> = Vec::new();
    assert(spans.deep_view() =~= Seq::<SpanView>::empty());
    spans
}

/// The text of `spans`, styles aside.
pub fn plain_text(spans: &Vec<Span>) -> (out: String)
    ensures
        out@ == text_of(spans.deep_view()),
{
    let ghost all = spans.deep_view();
    let mut out = String::new();
    let mut i: usize = 0;
    assert(all.take(0) =~= Seq::empty());
    while i < spans.len()
        invariant
            i <= spans.len(),
            all == spans.deep_view(),
            out@ == text_of(all.take(i as int)),
        decreases spans.len() - i,
    {
        assert(all.take(i + 1).drop_last() == all.take(i as int));
        assert(all.take(i + 1).last() == spans@[i as int]@);
        out.append(spans[i].text.as_str());
        i += 1;
    }
    assert(all.take(i as int) =~= all);
    out
}

/// The character `c`, `n` times, appended to `out`.
pub fn push_repeated(out: &mut String, c: char, n: usize)
    ensures
        final(out)@ == old(out)@ + repeated(c, n as nat),
{
    let mut i: usize = 0;
    assert(out@ =~= old(out)@ + repeated(c, 0));
    while i < n
        invariant
            i <= n,
            out@ == old(out)@ + repeated(c, i as nat),
        decreases n - i,
    {
        out.push(c);
        i += 1;
        assert(out@ =~= old(out)@ + repeated(c, i as nat));
    }
}

} // verus!
