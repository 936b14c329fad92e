//! The pull requests panel: a table of open pull requests.

use vstd::prelude::*;

use crate::api::PullRequest;
use crate::format::{clip, clippable, clipped, format_date};
use crate::panel::{sty, Color, Style};
use crate::screen::{line_of, lines_view, lv, push_line, push_span, span, span_of, sv, Line, LineView, Span};
use crate::status::{pr_icon, spec_pr_icon};
use crate::text::{append, before_char, decimal, decimal_string, owned};

verus! {

/// The message the panel shows instead of a table: while an empty list
/// loads, or when there are no pull requests.
pub open spec fn spec_pull_requests_message(count: nat, loading: bool) -> Option<Seq<char>> {
    if loading && count == 0 {
        Some("Loading pull requests..."@)
    } else if count == 0 {
        Some("No open pull requests"@)
    } else {
        None
    }
}

/// The message the panel shows instead of a table, if any.
pub fn pull_requests_message(prs: &[PullRequest], loading: bool) -> (r: Option<&'static str>)
    ensures
        match r {
            Some(m) => spec_pull_requests_message(prs@.len(), loading) == Some(m@),
            None => spec_pull_requests_message(prs@.len(), loading) is None,
        },
{
    if loading && prs.len() == 0 {
        Some("Loading pull requests...")
    } else if prs.len() == 0 {
        Some("No open pull requests")
    } else {
        None
    }
}

/// Whether a pull request's cells can be cut to the table's widths.
pub open spec fn pr_fits(pr: PullRequest) -> bool {
    &&& clippable(pr.title@, 45)
    &&& clippable(pr.author@, 15)
    &&& clippable(pr.branch@, 20)
}

/// The style of a title: drafts dim and italic, the selected one bright.
pub open spec fn title_style(draft: bool, selected: bool) -> Style {
    if draft {
        Style { fg: Some(Color::DarkGray), bg: None, bold: false, italic: true, reversed: false }
    } else if selected {
        sty(Some(Color::White), None, true)
    } else {
        sty(None, None, false)
    }
}

/// A row of the table: marker and number, state icon, title, author,
/// branch and the day of the last update.
pub open spec fn pr_row(pr: PullRequest, selected: bool) -> LineView {
    let (icon, color) = spec_pr_icon(pr.draft, pr.state@);
    let marker = if selected {
        "▶"@
    } else {
        " "@
    };
    lv(
        seq![
            sv(marker + " #"@ + decimal(pr.number as nat), sty(Some(Color::DarkGray), None, false)),
            sv(icon, sty(Some(color), None, false)),
            sv(clipped(pr.title@, 45), title_style(pr.draft, selected)),
            sv(clipped(pr.author@, 15), sty(Some(Color::Cyan), None, false)),
            sv(clipped(pr.branch@, 20), sty(Some(Color::DarkGray), None, false)),
            sv(before_char(pr.updated_at@, 'T'), sty(Some(Color::DarkGray), None, false)),
        ],
        if selected {
            sty(None, Some(Color::DarkGray), false)
        } else {
            sty(None, None, false)
        },
    )
}

/// The rows of the table.
pub open spec fn spec_pull_request_rows(prs: Seq<PullRequest>, selected: usize) -> Seq<LineView> {
    Seq::new(prs.len(), |i: int| pr_row(prs[i], i == selected))
}

fn pr_line(pr: &PullRequest, selected: bool) -> (r: Line)
    requires
        pr_fits(*pr),
    ensures
        r@ == pr_row(*pr, selected),
{
    let (icon, color) = pr_icon(pr);
    let mut cells: Vec<Span> = Vec::new();
    let mut num = owned(if selected {
        "▶"
    } else {
        " "
    });
    append(&mut num, " #");
    let d = decimal_string(pr.number);
    append(&mut num, d.as_str());
    push_span(&mut cells, span_of(num, Style::fg_only(Color::DarkGray)));
    push_span(&mut cells, span(icon, Style::fg_only(color)));
    let ts = if pr.draft {
        Style { fg: Some(Color::DarkGray), bg: None, bold: false, italic: true, reversed: false }
    } else if selected {
        Style::fg_bold(Color::White)
    } else {
        Style::plain()
    };
    push_span(&mut cells, span_of(clip(pr.title.as_str(), 45), ts));
    push_span(&mut cells, span_of(clip(pr.author.as_str(), 15), Style::fg_only(Color::Cyan)));
    push_span(&mut cells, span_of(clip(pr.branch.as_str(), 20), Style::fg_only(Color::DarkGray)));
    push_span(&mut cells, span_of(format_date(pr.updated_at.as_str()), Style::fg_only(Color::DarkGray)));
    let style = if selected {
        Style::bg_only(Color::DarkGray)
    } else {
        Style::plain()
    };
    let r = line_of(cells, style);
    assert(r@.spans =~= pr_row(*pr, selected).spans);
    r
}

/// The rows of the pull request table, the selected one highlighted.
pub fn pull_request_rows(prs: &[PullRequest], selected: usize) -> (r: Vec<Line>)
    requires
        forall|i: int| 0 <= i < prs@.len() ==> pr_fits(#[trigger] prs@[i]),
    ensures
        lines_view(r@) == spec_pull_request_rows(prs@, selected),
{
    let mut r: Vec<Line> = Vec::new();
    let mut i: usize = 0;
    while i < prs.len()
        invariant
            i <= prs@.len(),
            forall|k: int| 0 <= k < prs@.len() ==> pr_fits(#[trigger] prs@[k]),
            lines_view(r@) == Seq::new(i as nat, |k: int| pr_row(prs@[k], k == selected)),
        decreases prs@.len() - i,
    {
        push_line(&mut r, pr_line(&prs[i], i == selected));
        assert(lines_view(r@) =~= Seq::new((i + 1) as nat, |k: int| pr_row(prs@[k], k == selected)));
        i = i + 1;
    }
    r
}

} // verus!
