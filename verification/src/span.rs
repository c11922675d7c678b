//! Pieces of text with a tone, from which the lines on the screen are made.

use vstd::prelude::*;

verus! {

/// How a piece of text is to look. The colours are chosen where it is drawn.
#[derive(Clone, Copy, Debug, PartialEq, Eq, Structural)]
pub enum Tone {
    /// Ordinary text.
    Plain,
    /// Brackets, bars and other marks of the frame.
    Frame,
    /// A key or a label worth noticing.
    Key,
    /// Text in the colour of the configuration.
    Accent,
    /// A part of a cell that matches the search text.
    Match,
    /// The name of a resource.
    Name,
    /// A value that is as it should be.
    Good,
    /// A value to look at.
    Alert,
}

/// A piece of text with a tone.
#[derive(Clone, Debug, PartialEq, Eq)]
pub struct Span {
    pub content: String,
    pub tone: Tone,
}

/// A piece of text with a tone, as mathematical values.
pub struct SpanView {
    pub content: Seq<char>,
    pub tone: Tone,
}

impl View for Span {
    type V = SpanView;

    open spec fn view(&self) -> SpanView {
        SpanView { content: self.content@, tone: self.tone }
    }
}

impl DeepView for Span {
    type V = SpanView;

    open spec fn deep_view(&self) -> SpanView {
        self@
    }
}

impl Span {
    /// A piece of text with a tone.
    pub fn new(content: String, tone: Tone) -> (span: Span)
        ensures
            span@ == (SpanView { content: content@, tone }),
    {
        Span { content, tone }
    }

    /// A piece of text with a tone, from a string slice.
    pub fn of(content: &str, tone: Tone) -> (span: Span)
        ensures
            span@ == (SpanView { content: content@, tone }),
    {
        Span { content: content.to_owned(), tone }
    }
}

/// The items with the separator between each two of them.
pub open spec fn interspersed<T>(items: Seq<T>, separator: T) -> Seq<T> {
    Seq::new(
        if items.len() == 0 {
            0
        } else {
            (2 * items.len() - 1) as nat
        },
        |i: int|
            if i % 2 == 0 {
                items[i / 2]
            } else {
                separator
            },
    )
}

/// Calls `itertools::intersperse` and collects what it yields: the spans in
/// their order, with a copy of the separator between each two of them.
#[verifier::external_body]
pub(crate) fn intersperse(spans: Vec<Span>, separator: Span) -> (joined: Vec<Span>)
    ensures
        joined.deep_view() == interspersed(spans.deep_view(), separator@),
{
    itertools::intersperse(spans, separator).collect()
}

} // verus!
