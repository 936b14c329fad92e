//! What the screen shows, as plain values: styled spans, lines of spans,
//! and the areas the frame is divided into. The terminal front end draws
//! them as they are.

use vstd::prelude::*;

use crate::layout::{engine_split, split_area, within, Constraint, SplitDirection};
use crate::panel::{sty, Rect, Style};
use crate::text::owned;

verus! {

/// A piece of text in one style (also a list item or a table cell).
#[derive(Debug, Clone)]
pub struct Span {
    pub text: String,
    pub style: Style,
}

/// A span as mathematical values.
pub struct SpanView {
    pub text: Seq<char>,
    pub style: Style,
}

impl View for Span {
    type V = SpanView;

    open spec fn view(&self) -> SpanView {
        SpanView { text: self.text@, style: self.style }
    }
}

/// A line of spans, with a style for the whole line (also a table row).
#[derive(Debug, Clone)]
pub struct Line {
    pub spans: Vec<Span>,
    pub style: Style,
}

/// A line as mathematical values.
pub struct LineView {
    pub spans: Seq<SpanView>,
    pub style: Style,
}

pub open spec fn spans_view(s: Seq<Span>) -> Seq<SpanView> {
    s.map_values(|x: Span| x@)
}

pub open spec fn lines_view(s: Seq<Line>) -> Seq<LineView> {
    s.map_values(|l: Line| l@)
}

impl View for Line {
    type V = LineView;

    open spec fn view(&self) -> LineView {
        LineView { spans: spans_view(self.spans@), style: self.style }
    }
}

pub open spec fn sv(text: Seq<char>, style: Style) -> SpanView {
    SpanView { text, style }
}

pub open spec fn lv(spans: Seq<SpanView>, style: Style) -> LineView {
    LineView { spans, style }
}

/// A line holding one span, with no style of its own.
pub open spec fn one(text: Seq<char>, style: Style) -> LineView {
    lv(seq![sv(text, style)], sty(None, None, false))
}

/// A line with nothing on it.
pub open spec fn blank() -> LineView {
    lv(Seq::empty(), sty(None, None, false))
}

/// A span of the given text.
pub fn span(text: &str, style: Style) -> (r: Span)
    ensures
        r@ == sv(text@, style),
{
    Span { text: owned(text), style }
}

/// A span holding the given string.
pub fn span_of(text: String, style: Style) -> (r: Span)
    ensures
        r@ == sv(text@, style),
{
    Span { text, style }
}

/// Adds a span at the end.
pub fn push_span(v: &mut Vec<Span>, s: Span)
    ensures
        spans_view(final(v)@) == spans_view(old(v)@).push(s@),
        final(v)@.len() == old(v)@.len() + 1,
{
    let ghost before = v@;
    v.push(s);
    assert(spans_view(v@) =~= spans_view(before).push(s@));
}

/// Adds a line at the end.
pub fn push_line(v: &mut Vec<Line>, l: Line)
    ensures
        lines_view(final(v)@) == lines_view(old(v)@).push(l@),
        final(v)@.len() == old(v)@.len() + 1,
{
    let ghost before = v@;
    v.push(l);
    assert(lines_view(v@) =~= lines_view(before).push(l@));
}

/// A line of the given spans.
pub fn line_of(spans: Vec<Span>, style: Style) -> (r: Line)
    ensures
        r@ == lv(spans_view(spans@), style),
{
    Line { spans, style }
}

/// A line holding one span of the given text.
pub fn one_line(text: &str, style: Style) -> (r: Line)
    ensures
        r@ == one(text@, style),
{
    let mut spans: Vec<Span> = Vec::new();
    push_span(&mut spans, span(text, style));
    assert(spans_view(spans@) =~= seq![sv(text@, style)]);
    Line { spans, style: Style::plain() }
}

/// A line holding one span of the given string.
pub fn one_line_of(text: String, style: Style) -> (r: Line)
    ensures
        r@ == one(text@, style),
{
    let ghost t = text@;
    let mut spans: Vec<Span> = Vec::new();
    push_span(&mut spans, span_of(text, style));
    assert(spans_view(spans@) =~= seq![sv(t, style)]);
    Line { spans, style: Style::plain() }
}

/// A line with nothing on it.
pub fn blank_line() -> (r: Line)
    ensures
        r@ == blank(),
{
    let spans: Vec<Span> = Vec::new();
    assert(spans_view(spans@) =~= Seq::<SpanView>::empty());
    Line { spans, style: Style::plain() }
}

/// Lines from the `k`-th on.
pub fn skip_lines(v: Vec<Line>, k: usize) -> (r: Vec<Line>)
    ensures
        lines_view(r@) == if k < v@.len() { lines_view(v@).skip(k as int) } else { Seq::empty() },
{
    let mut r: Vec<Line> = Vec::new();
    let n = v.len();
    if k >= n {
        assert(lines_view(r@) =~= Seq::<LineView>::empty());
        return r;
    }
    let mut i: usize = k;
    while i < n
        invariant
            n == v@.len(),
            k <= i <= n,
            lines_view(r@) == lines_view(v@).subrange(k as int, i as int),
        decreases n - i,
    {
        push_line(&mut r, v[i].clone_line());
        assert(lines_view(v@).subrange(k as int, i + 1) =~= lines_view(v@).subrange(k as int, i as int).push(
            v@[i as int]@,
        ));
        i = i + 1;
    }
    assert(lines_view(v@).subrange(k as int, n as int) =~= lines_view(v@).skip(k as int));
    r
}

impl Span {
    /// A copy of the span.
    pub fn clone_span(&self) -> (r: Span)
        ensures
            r@ == self@,
    {
        Span { text: self.text.clone(), style: self.style }
    }
}

impl Line {
    /// A copy of the line.
    pub fn clone_line(&self) -> (r: Line)
        ensures
            r@ == self@,
    {
        let mut spans: Vec<Span> = Vec::new();
        let mut i: usize = 0;
        while i < self.spans.len()
            invariant
                i <= self.spans@.len(),
                spans_view(spans@) == spans_view(self.spans@).take(i as int),
            decreases self.spans@.len() - i,
        {
            push_span(&mut spans, self.spans[i].clone_span());
            assert(spans_view(self.spans@).take(i + 1) =~= spans_view(self.spans@).take(i as int).push(
                self.spans@[i as int]@,
            ));
            i = i + 1;
        }
        assert(spans_view(self.spans@).take(self.spans@.len() as int) =~= spans_view(self.spans@));
        Line { spans, style: self.style }
    }
}

/// The constraints of the screen's rows: a header row, at least one row
/// of panels, a footer row.
pub open spec fn screen_constraints() -> Seq<Constraint> {
    seq![Constraint::Length(1), Constraint::Min(1), Constraint::Length(1)]
}

/// Splits the frame into a header row, the panel area and a footer row:
/// the layout engine's vertical split of the frame under
/// `screen_constraints`, so each part lies within the frame and keeps its
/// column and width. The rows each gets are the engine's.
pub fn screen_areas(area: Rect) -> (r: (Rect, Rect, Rect))
    ensures
        engine_split(SplitDirection::Vertical, screen_constraints(), area, seq![r.0, r.1, r.2]),
{
    let cs = vec![Constraint::Length(1), Constraint::Min(1), Constraint::Length(1)];
    assert(cs@ =~= screen_constraints());
    let parts = split_area(SplitDirection::Vertical, &cs, area);
    let r = (parts[0], parts[1], parts[2]);
    assert(seq![r.0, r.1, r.2] =~= parts@);
    r
}

/// The constraints of a three-way split that gives `percent` of the area
/// to the middle and half the rest to each side.
pub open spec fn thirds(percent: u16) -> Seq<Constraint> {
    let side = ((100 - percent) / 2) as u16;
    seq![Constraint::Percentage(side), Constraint::Percentage(percent), Constraint::Percentage(side)]
}

/// `c` is the middle part of a horizontal split, under `thirds(percent_x)`,
/// of the middle part of a vertical split of `r` under `thirds(percent_y)`.
pub open spec fn centered_in(percent_x: u16, percent_y: u16, r: Rect, c: Rect) -> bool {
    exists|down: Seq<Rect>, across: Seq<Rect>|
        #![trigger engine_split(SplitDirection::Vertical, thirds(percent_y), r, down), engine_split(SplitDirection::Horizontal, thirds(percent_x), down[1], across)]
        engine_split(SplitDirection::Vertical, thirds(percent_y), r, down) && engine_split(
            SplitDirection::Horizontal,
            thirds(percent_x),
            down[1],
            across,
        ) && c == across[1]
}

/// The constraints `thirds(percent)`.
fn third_constraints(percent: u16) -> (r: Vec<Constraint>)
    requires
        percent <= 100,
    ensures
        r@ == thirds(percent),
{
    let side = (100 - percent) / 2;
    let r = vec![Constraint::Percentage(side), Constraint::Percentage(percent), Constraint::Percentage(side)];
    assert(r@ =~= thirds(percent));
    r
}

/// A rectangle centered in `r`, taking `percent_x` of its width and
/// `percent_y` of its height: the middle of a vertical split of `r`, split
/// again across. It lies within `r`; where the cuts fall is the layout
/// engine's.
pub fn centered_rect(percent_x: u16, percent_y: u16, r: Rect) -> (c: Rect)
    requires
        percent_x <= 100,
        percent_y <= 100,
    ensures
        centered_in(percent_x, percent_y, r, c),
        within(c, r),
{
    let down = split_area(SplitDirection::Vertical, &third_constraints(percent_y), r);
    let vertical = down[1];
    let across = split_area(SplitDirection::Horizontal, &third_constraints(percent_x), vertical);
    let c = across[1];
    assert(within(vertical, r));
    assert(within(c, vertical));
    assert(engine_split(SplitDirection::Vertical, thirds(percent_y), r, down@));
    assert(engine_split(SplitDirection::Horizontal, thirds(percent_x), down@[1], across@));
    c
}

} // verus!
