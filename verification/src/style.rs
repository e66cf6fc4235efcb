//! Styled text.

use vstd::prelude::*;

verus! {

/// The colors in use.
#[derive(Clone, Copy, Debug, PartialEq, Eq, Structural)]
pub enum Color {
    Red,
    Green,
    Yellow,
    Cyan,
    White,
    Black,
}

/// How text looks.
#[derive(Clone, Copy, Debug, PartialEq, Eq, Structural)]
pub struct Style {
    pub fg: Option<Color>,
    pub bg: Option<Color>,
    pub bold: bool,
    pub dim: bool,
    pub italic: bool,
    /// With foreground and background swapped.
    pub reversed: bool,
}

/// Text as it comes.
pub open spec fn plain() -> Style {
    Style { fg: None, bg: None, bold: false, dim: false, italic: false, reversed: false }
}

/// Muted, for secondary text. Deliberately the dim attribute rather than dark
/// gray: that is bright black in ANSI, which several common palettes map to the
/// background color.
pub open spec fn gray() -> Style {
    Style { dim: true, ..plain() }
}

/// In a color.
pub open spec fn fg(color: Color) -> Style {
    Style { fg: Some(color), ..plain() }
}

/// On a color.
pub open spec fn on(s: Style, color: Color) -> Style {
    Style { bg: Some(color), ..s }
}

/// With foreground and background swapped, for the selected row of a list.
pub open spec fn reversed() -> Style {
    Style { reversed: true, ..plain() }
}

/// Bold.
pub open spec fn bold(s: Style) -> Style {
    Style { bold: true, ..s }
}

/// Italic.
pub open spec fn italic(s: Style) -> Style {
    Style { italic: true, ..s }
}

impl Style {
    pub fn plain() -> (res: Self)
        ensures
            res == plain(),
    {
        Style { fg: None, bg: None, bold: false, dim: false, italic: false, reversed: false }
    }

    pub fn gray() -> (res: Self)
        ensures
            res == gray(),
    {
        Style { dim: true, ..Style::plain() }
    }

    pub fn fg(color: Color) -> (res: Self)
        ensures
            res == fg(color),
    {
        Style { fg: Some(color), ..Style::plain() }
    }

    pub fn on(self, color: Color) -> (res: Self)
        ensures
            res == on(self, color),
    {
        Style { bg: Some(color), ..self }
    }

    pub fn reversed() -> (res: Self)
        ensures
            res == reversed(),
    {
        Style { reversed: true, ..Style::plain() }
    }

    pub fn bold(self) -> (res: Self)
        ensures
            res == bold(self),
    {
        Style { bold: true, ..self }
    }

    pub fn italic(self) -> (res: Self)
        ensures
            res == italic(self),
    {
        Style { italic: true, ..self }
    }
}

/// A piece of text in one style.
pub struct Span {
    pub text: String,
    pub style: Style,
}

/// A [`Span`], its text taken by its characters.
#[verifier::ext_equal]
pub struct SpanModel {
    pub text: Seq<char>,
    pub style: Style,
}

impl View for Span {
    type V = SpanModel;

    open spec fn view(&self) -> SpanModel {
        SpanModel { text: self.text@, style: self.style }
    }
}

/// A line of pieces, and the style of the line as a whole.
pub struct Line {
    pub spans: Vec<Span>,
    pub style: Style,
}

/// A [`Line`], its texts taken by their characters.
#[verifier::ext_equal]
pub struct LineModel {
    pub spans: Seq<SpanModel>,
    pub style: Style,
}

/// The pieces of a line.
pub open spec fn spans_view(s: Seq<Span>) -> Seq<SpanModel> {
    s.map_values(|x: Span| x@)
}

impl View for Line {
    type V = LineModel;

    open spec fn view(&self) -> LineModel {
        LineModel { spans: spans_view(self.spans@), style: self.style }
    }
}

/// The lines of a text.
pub open spec fn lines_view(s: Seq<Line>) -> Seq<LineModel> {
    s.map_values(|x: Line| x@)
}

/// A piece of text.
pub open spec fn piece(text: Seq<char>, style: Style) -> SpanModel {
    SpanModel { text, style }
}

/// A line of pieces.
pub open spec fn line(spans: Seq<SpanModel>) -> LineModel {
    LineModel { spans, style: plain() }
}

/// A line of one piece in the plain style.
pub open spec fn words(text: Seq<char>) -> LineModel {
    line(seq![piece(text, plain())])
}

impl Span {
    /// A piece of text.
    pub fn new(text: &str, style: Style) -> (res: Self)
        ensures
            res@ == piece(text@, style),
    {
        Span { text: text.to_owned(), style }
    }
}

impl Line {
    /// A line of one piece.
    pub fn one(a: Span) -> (res: Self)
        ensures
            res@ == line(seq![a@]),
    {
        let mut spans: Vec<Span> = Vec::new();
        spans.push(a);
        assert(spans_view(spans@) =~= seq![a@]);
        Line { spans, style: Style::plain() }
    }

    /// A line of two pieces.
    pub fn two(a: Span, b: Span) -> (res: Self)
        ensures
            res@ == line(seq![a@, b@]),
    {
        let mut spans: Vec<Span> = Vec::new();
        spans.push(a);
        spans.push(b);
        assert(spans_view(spans@) =~= seq![a@, b@]);
        Line { spans, style: Style::plain() }
    }

    /// A line of three pieces.
    pub fn three(a: Span, b: Span, c: Span) -> (res: Self)
        ensures
            res@ == line(seq![a@, b@, c@]),
    {
        let mut spans: Vec<Span> = Vec::new();
        spans.push(a);
        spans.push(b);
        spans.push(c);
        assert(spans_view(spans@) =~= seq![a@, b@, c@]);
        Line { spans, style: Style::plain() }
    }

    /// A line of one piece in the plain style.
    pub fn words(text: &str) -> (res: Self)
        ensures
            res@ == words(text@),
    {
        Line::one(Span::new(text, Style::plain()))
    }

    /// A line without any pieces.
    pub fn empty() -> (res: Self)
        ensures
            res@ == line(Seq::empty()),
    {
        let spans: Vec<Span> = Vec::new();
        assert(spans_view(spans@) =~= Seq::<SpanModel>::empty());
        Line { spans, style: Style::plain() }
    }
}

} // verus!
