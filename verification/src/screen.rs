//! What a screen is made of: styled text in titled regions.

use vstd::prelude::*;
use vstd::string::*;

verus! {

/// The colours the screen uses.
#[derive(Clone, Copy, Debug, PartialEq, Eq)]
pub enum Color {
    Black,
    Red,
    Green,
    Yellow,
    Blue,
    Magenta,
    Cyan,
    Gray,
    DarkGray,
}

/// How a piece of text is drawn. `None` keeps the colour of what surrounds it.
#[derive(Clone, Copy, Debug, PartialEq, Eq)]
pub struct Style {
    pub fg: Option<Color>,
    pub bg: Option<Color>,
    pub bold: bool,
    pub underlined: bool,
}

/// Where the text of a region stands in its width.
#[derive(Clone, Copy, Debug, PartialEq, Eq)]
pub enum Alignment {
    Left,
    Center,
}

/// How many rows a region takes.
#[derive(Clone, Copy, Debug, PartialEq, Eq)]
pub enum Height {
    Exactly(u16),
    AtLeast(u16),
}

/// A rectangle of screen cells.
#[derive(Clone, Copy, Debug, PartialEq, Eq)]
pub struct Rect {
    /// The column of the left edge.
    pub x: u16,
    /// The row of the top edge.
    pub y: u16,
    pub width: u16,
    pub height: u16,
}

/// How the screen is divided: four regions from top to bottom, inside a margin.
#[derive(Clone, Copy, Debug, PartialEq, Eq)]
pub struct LayoutRule {
    /// The rows and columns left free around the regions.
    pub margin: u16,
    pub query: Height,
    pub results: Height,
    pub details: Height,
    pub help: Height,
}

/// The rectangles of the four regions.
#[derive(Clone, Copy, Debug, PartialEq, Eq)]
pub struct Rows {
    pub query: Rect,
    pub results: Rect,
    pub details: Rect,
    pub help: Rect,
}

/// A run of text in one style.
#[derive(Debug, PartialEq, Eq)]
pub struct Span {
    pub text: String,
    pub style: Style,
}

/// One line of a region: its spans from left to right.
#[derive(Debug, PartialEq, Eq)]
pub struct Line {
    pub spans: Vec<Span>,
}

/// The text of a region: either free text, which the terminal breaks into
/// lines itself, or lines of styled spans.
#[derive(Debug, PartialEq, Eq)]
pub enum Body {
    Text(String),
    Lines(Vec<Line>),
}

/// A bordered region that shows text.
#[derive(Debug, PartialEq, Eq)]
pub struct Paragraph {
    pub title: String,
    /// The style of the border.
    pub border: Style,
    pub body: Body,
    /// The style of the text where a span sets none.
    pub style: Style,
    pub alignment: Alignment,
    /// Long lines continue on the next row, without their leading blanks.
    pub wrap: bool,
    /// How many rows of the text are scrolled out at the top.
    pub scroll: u16,
}

/// A bordered region that shows one row per result.
#[derive(Debug, PartialEq, Eq)]
pub struct ResultList {
    pub title: String,
    pub rows: Vec<Line>,
    /// The row that is highlighted.
    pub selected: Option<usize>,
    /// The style of the highlighted row.
    pub highlight: Style,
    /// What stands in front of the highlighted row.
    pub marker: String,
}

/// The region below the query box. It shows exactly one of four things.
#[derive(Debug, PartialEq, Eq)]
pub enum ResultsRegion {
    /// A search is under way.
    Searching(Paragraph),
    /// The last search failed.
    Failed(Paragraph),
    /// There is nothing to list.
    Welcome(Paragraph),
    /// The results.
    Listing(ResultList),
}

/// The whole screen: what each of the four regions shows, and where.
#[derive(Debug, PartialEq, Eq)]
pub struct Screen {
    /// The rule by which the screen was divided.
    pub rule: LayoutRule,
    /// Where the regions stand.
    pub rows: Rows,
    /// The cell that holds the cursor, if the screen has such a cell.
    pub cursor: Option<(u16, u16)>,
    pub query: Paragraph,
    pub results: ResultsRegion,
    pub details: Paragraph,
    pub help: Paragraph,
}

/// A span as plain values.
pub struct SpanView {
    pub text: Seq<char>,
    pub style: Style,
}

/// A line as plain values.
pub type LineView = Seq<SpanView>;

/// The text of a region as plain values.
pub enum BodyView {
    Text(Seq<char>),
    Lines(Seq<LineView>),
}

/// A text region as plain values.
pub struct ParagraphView {
    pub title: Seq<char>,
    pub border: Style,
    pub body: BodyView,
    pub style: Style,
    pub alignment: Alignment,
    pub wrap: bool,
    pub scroll: u16,
}

/// A result list as plain values.
pub struct ResultListView {
    pub title: Seq<char>,
    pub rows: Seq<LineView>,
    pub selected: Option<usize>,
    pub highlight: Style,
    pub marker: Seq<char>,
}

/// The region below the query box as plain values.
pub enum ResultsView {
    Searching(ParagraphView),
    Failed(ParagraphView),
    Welcome(ParagraphView),
    Listing(ResultListView),
}

/// A screen as plain values.
pub struct ScreenView {
    pub rule: LayoutRule,
    pub rows: Rows,
    pub cursor: Option<(u16, u16)>,
    pub query: ParagraphView,
    pub results: ResultsView,
    pub details: ParagraphView,
    pub help: ParagraphView,
}

impl DeepView for Span {
    type V = SpanView;

    open spec fn deep_view(&self) -> SpanView {
        SpanView { text: self.text@, style: self.style }
    }
}

impl DeepView for Line {
    type V = LineView;

    open spec fn deep_view(&self) -> LineView {
        self.spans.deep_view()
    }
}

impl DeepView for Body {
    type V = BodyView;

    open spec fn deep_view(&self) -> BodyView {
        match self {
            Body::Text(text) => BodyView::Text(text@),
            Body::Lines(lines) => BodyView::Lines(lines.deep_view()),
        }
    }
}

impl DeepView for Paragraph {
    type V = ParagraphView;

    open spec fn deep_view(&self) -> ParagraphView {
        ParagraphView {
            title: self.title@,
            border: self.border,
            body: self.body.deep_view(),
            style: self.style,
            alignment: self.alignment,
            wrap: self.wrap,
            scroll: self.scroll,
        }
    }
}

impl DeepView for ResultList {
    type V = ResultListView;

    open spec fn deep_view(&self) -> ResultListView {
        ResultListView {
            title: self.title@,
            rows: self.rows.deep_view(),
            selected: self.selected,
            highlight: self.highlight,
            marker: self.marker@,
        }
    }
}

impl DeepView for ResultsRegion {
    type V = ResultsView;

    open spec fn deep_view(&self) -> ResultsView {
        match self {
            ResultsRegion::Searching(p) => ResultsView::Searching(p.deep_view()),
            ResultsRegion::Failed(p) => ResultsView::Failed(p.deep_view()),
            ResultsRegion::Welcome(p) => ResultsView::Welcome(p.deep_view()),
            ResultsRegion::Listing(list) => ResultsView::Listing(list.deep_view()),
        }
    }
}

impl DeepView for Screen {
    type V = ScreenView;

    open spec fn deep_view(&self) -> ScreenView {
        ScreenView {
            rule: self.rule,
            rows: self.rows,
            cursor: self.cursor,
            query: self.query.deep_view(),
            results: self.results.deep_view(),
            details: self.details.deep_view(),
            help: self.help.deep_view(),
        }
    }
}

/// The style that changes nothing.
pub open spec fn plain() -> Style {
    Style { fg: None, bg: None, bold: false, underlined: false }
}

/// Text in the given colour.
pub open spec fn colored(color: Color) -> Style {
    Style { fg: Some(color), bg: None, bold: false, underlined: false }
}

/// Bold text in the given colour.
pub open spec fn bold(color: Color) -> Style {
    Style { fg: Some(color), bg: None, bold: true, underlined: false }
}

/// Underlined text in the given colour.
pub open spec fn underlined(color: Color) -> Style {
    Style { fg: Some(color), bg: None, bold: false, underlined: true }
}

/// Bold text on the given background.
pub open spec fn bold_on(background: Color) -> Style {
    Style { fg: None, bg: Some(background), bold: true, underlined: false }
}

/// A span of the given text and style.
pub open spec fn styled(text: Seq<char>, style: Style) -> SpanView {
    SpanView { text, style }
}

/// A span of the given text in the style of its surroundings.
pub open spec fn raw(text: Seq<char>) -> SpanView {
    SpanView { text, style: plain() }
}

impl Style {
    /// The style that changes nothing.
    pub fn plain() -> (s: Style)
        ensures
            s == plain(),
    {
        Style { fg: None, bg: None, bold: false, underlined: false }
    }

    /// Text in the given colour.
    pub fn colored(color: Color) -> (s: Style)
        ensures
            s == colored(color),
    {
        Style { fg: Some(color), bg: None, bold: false, underlined: false }
    }

    /// Bold text in the given colour.
    pub fn bold(color: Color) -> (s: Style)
        ensures
            s == bold(color),
    {
        Style { fg: Some(color), bg: None, bold: true, underlined: false }
    }

    /// Underlined text in the given colour.
    pub fn underlined(color: Color) -> (s: Style)
        ensures
            s == underlined(color),
    {
        Style { fg: Some(color), bg: None, bold: false, underlined: true }
    }

    /// Bold text on the given background.
    pub fn bold_on(background: Color) -> (s: Style)
        ensures
            s == bold_on(background),
    {
        Style { fg: None, bg: Some(background), bold: true, underlined: false }
    }
}

impl Line {
    /// A line without text.
    pub fn blank() -> (line: Line)
        ensures
            line.deep_view() == Seq::<SpanView>::empty(),
    {
        let line = Line { spans: Vec::new() };
        assert(line.deep_view() =~= Seq::<SpanView>::empty());
        line
    }

    /// Appends a span of the given text and style.
    pub fn push(&mut self, text: String, style: Style)
        ensures
            final(self).deep_view() == old(self).deep_view().push(styled(text@, style)),
    {
        self.spans.push(Span { text, style });
        assert(self.deep_view() =~= old(self).deep_view().push(styled(text@, style)));
    }

    /// Appends a span that holds a copy of the given text.
    pub fn push_str(&mut self, text: &str, style: Style)
        ensures
            final(self).deep_view() == old(self).deep_view().push(styled(text@, style)),
    {
        self.push(String::from_str(text), style);
    }
}

/// Appends a line to the lines of a region.
pub fn push_line(lines: &mut Vec<Line>, line: Line)
    ensures
        final(lines).deep_view() == old(lines).deep_view().push(line.deep_view()),
{
    lines.push(line);
    assert(lines.deep_view() =~= old(lines).deep_view().push(line.deep_view()));
}

} // verus!
