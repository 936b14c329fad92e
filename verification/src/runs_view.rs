//! The runs panel: a table of recent runs, or a compact list in a small
//! panel, and the table of the runs view.

use vstd::prelude::*;

use crate::api::{opt_str, ActionRun};
use crate::format::{format_time, formatted_time, time_fits, time_text, truncatable, truncate, truncated};
use crate::lists::dim;
use crate::panel::{sty, Color, Style};
use crate::screen::{line_of, lines_view, lv, one, push_line, push_span, span, span_of, spans_view, sv, Line, LineView, Span, SpanView};
use crate::status::{spec_run_status_style, status_style};
use crate::text::{append, first_piece, owned, second_piece_of};

verus! {

/// The status shown for a run: its conclusion, else its status.
pub open spec fn run_status_text(run: ActionRun) -> Seq<char> {
    match opt_str(run.conclusion) {
        Some(c) => c,
        None => run.status@,
    }
}

/// The branch shown for a run, `-` without one.
pub open spec fn run_branch(run: ActionRun) -> Seq<char> {
    match opt_str(run.branch) {
        Some(b) => b,
        None => "-"@,
    }
}

/// The status cell of a run: icon and status, in the status color.
pub open spec fn run_status_cell(run: ActionRun) -> SpanView {
    let (icon, color) = spec_run_status_style(run.status@, opt_str(run.conclusion));
    sv(icon + " "@ + run_status_text(run), sty(Some(color), None, false))
}

/// The style of a table row: dark and bold when selected.
pub open spec fn row_style(selected: bool) -> Style {
    if selected {
        sty(None, Some(Color::DarkGray), true)
    } else {
        sty(None, None, false)
    }
}

/// Whether a run's cells can be cut to the table's widths.
pub open spec fn run_fits(run: ActionRun) -> bool {
    &&& truncatable(run.workflow_name@, 25)
    &&& truncatable(run_branch(run), 15)
    &&& time_fits(opt_str(run.started_at))
}

/// A row of the runs table.
pub open spec fn run_row(run: ActionRun, selected: bool) -> LineView {
    lv(
        seq![
            run_status_cell(run),
            sv(truncated(run.workflow_name@, 25), sty(None, None, false)),
            sv(truncated(run_branch(run), 15), sty(None, None, false)),
            sv(formatted_time(opt_str(run.started_at)), sty(None, None, false)),
        ],
        row_style(selected),
    )
}

/// A table row holding a message in dark gray.
pub open spec fn message_row(text: Seq<char>) -> LineView {
    lv(seq![sv(text, sty(None, None, false))], sty(Some(Color::DarkGray), None, false))
}

/// The rows of the runs table.
pub open spec fn spec_runs_table_rows(runs: Seq<ActionRun>, selected: usize, loading: bool) -> Seq<LineView> {
    if loading && runs.len() == 0 {
        seq![message_row("Loading..."@)]
    } else if runs.len() == 0 {
        seq![message_row("No runs found"@)]
    } else {
        Seq::new(runs.len(), |i: int| run_row(runs[i], i == selected))
    }
}

fn message_line(text: &str) -> (r: Line)
    ensures
        r@ == message_row(text@),
{
    let mut spans: Vec<Span> = Vec::new();
    push_span(&mut spans, span(text, Style::plain()));
    let r = line_of(spans, Style::fg_only(Color::DarkGray));
    assert(r@.spans =~= seq![sv(text@, sty(None, None, false))]);
    r
}

fn status_cell(run: &ActionRun) -> (r: Span)
    ensures
        r@ == run_status_cell(*run),
{
    let (icon, color) = status_style(run);
    let mut t = owned(icon);
    append(&mut t, " ");
    match &run.conclusion {
        Some(c) => append(&mut t, c.as_str()),
        None => append(&mut t, run.status.as_str()),
    }
    span_of(t, Style::fg_only(color))
}

fn branch_text(run: &ActionRun) -> (r: &str)
    ensures
        r@ == run_branch(*run),
{
    match &run.branch {
        Some(b) => b.as_str(),
        None => "-",
    }
}

fn run_line(run: &ActionRun, selected: bool) -> (r: Line)
    requires
        run_fits(*run),
    ensures
        r@ == run_row(*run, selected),
{
    let mut cells: Vec<Span> = Vec::new();
    push_span(&mut cells, status_cell(run));
    push_span(&mut cells, span_of(truncate(run.workflow_name.as_str(), 25), Style::plain()));
    push_span(&mut cells, span_of(truncate(branch_text(run), 15), Style::plain()));
    push_span(&mut cells, span_of(format_time(&run.started_at), Style::plain()));
    let style = if selected {
        Style::bg_bold(Color::DarkGray)
    } else {
        Style::plain()
    };
    let r = line_of(cells, style);
    assert(r@.spans =~= run_row(*run, selected).spans);
    r
}

/// The rows of the runs table: a message while an empty list loads or when
/// there are no runs, else a row per run with its status, workflow, branch
/// and start time, the selected one highlighted.
pub fn runs_table_rows(runs: &[ActionRun], selected: usize, loading: bool) -> (r: Vec<Line>)
    requires
        forall|i: int| 0 <= i < runs@.len() ==> run_fits(#[trigger] runs@[i]),
    ensures
        lines_view(r@) == spec_runs_table_rows(runs@, selected, loading),
{
    let mut r: Vec<Line> = Vec::new();
    if loading && runs.len() == 0 {
        push_line(&mut r, message_line("Loading..."));
        assert(lines_view(r@) =~= seq![message_row("Loading..."@)]);
        return r;
    }
    if runs.len() == 0 {
        push_line(&mut r, message_line("No runs found"));
        assert(lines_view(r@) =~= seq![message_row("No runs found"@)]);
        return r;
    }
    let mut i: usize = 0;
    while i < runs.len()
        invariant
            i <= runs@.len(),
            forall|k: int| 0 <= k < runs@.len() ==> run_fits(#[trigger] runs@[k]),
            lines_view(r@) == Seq::new(i as nat, |k: int| run_row(runs@[k], k == selected)),
        decreases runs@.len() - i,
    {
        push_line(&mut r, run_line(&runs[i], i == selected));
        assert(lines_view(r@) =~= Seq::new((i + 1) as nat, |k: int| run_row(runs@[k], k == selected)));
        i = i + 1;
    }
    r
}

/// Whether a run's name fits the compact list.
pub open spec fn run_fits_compact(run: ActionRun) -> bool {
    truncatable(run.workflow_name@, 20)
}

/// A row of the compact run list: icon and name, in the status color.
pub open spec fn run_compact_item(run: ActionRun) -> SpanView {
    let (icon, color) = spec_run_status_style(run.status@, opt_str(run.conclusion));
    sv(icon + " "@ + truncated(run.workflow_name@, 20), sty(Some(color), None, false))
}

/// The rows of the compact run list.
pub open spec fn spec_runs_compact_items(runs: Seq<ActionRun>, loading: bool) -> Seq<SpanView> {
    if loading && runs.len() == 0 {
        seq![dim("Loading..."@)]
    } else if runs.len() == 0 {
        seq![dim("No runs"@)]
    } else {
        Seq::new(runs.len(), |i: int| run_compact_item(runs[i]))
    }
}

/// The rows of the runs panel when it is compact.
pub fn runs_compact_items(runs: &[ActionRun], loading: bool) -> (r: Vec<Span>)
    requires
        forall|i: int| 0 <= i < runs@.len() ==> run_fits_compact(#[trigger] runs@[i]),
    ensures
        spans_view(r@) == spec_runs_compact_items(runs@, loading),
{
    let mut r: Vec<Span> = Vec::new();
    if loading && runs.len() == 0 {
        push_span(&mut r, span("Loading...", Style::fg_only(Color::DarkGray)));
        assert(spans_view(r@) =~= seq![dim("Loading..."@)]);
        return r;
    }
    if runs.len() == 0 {
        push_span(&mut r, span("No runs", Style::fg_only(Color::DarkGray)));
        assert(spans_view(r@) =~= seq![dim("No runs"@)]);
        return r;
    }
    let mut i: usize = 0;
    while i < runs.len()
        invariant
            i <= runs@.len(),
            forall|k: int| 0 <= k < runs@.len() ==> run_fits_compact(#[trigger] runs@[k]),
            spans_view(r@) == Seq::new(i as nat, |k: int| run_compact_item(runs@[k])),
        decreases runs@.len() - i,
    {
        let run = &runs[i];
        let (icon, color) = status_style(run);
        let mut t = owned(icon);
        append(&mut t, " ");
        let name = truncate(run.workflow_name.as_str(), 20);
        append(&mut t, name.as_str());
        push_span(&mut r, span_of(t, Style::fg_only(color)));
        assert(spans_view(r@) =~= Seq::new((i + 1) as nat, |k: int| run_compact_item(runs@[k])));
        i = i + 1;
    }
    r
}

/// The start shown in the runs view: the time part of the timestamp, `-`
/// without one.
pub open spec fn started_text(started_at: Option<Seq<char>>) -> Seq<char> {
    match time_text(started_at) {
        Some(t) => t,
        None => "-"@,
    }
}

/// A row of the runs view: the full names and start, and no duration.
pub open spec fn run_view_row(run: ActionRun, selected: bool) -> LineView {
    lv(
        seq![
            run_status_cell(run),
            sv(run.workflow_name@, sty(None, None, false)),
            sv(run_branch(run), sty(None, None, false)),
            sv(started_text(opt_str(run.started_at)), sty(None, None, false)),
            sv("-"@, sty(None, None, false)),
        ],
        row_style(selected),
    )
}

/// The rows of the runs view.
pub open spec fn spec_runs_view_rows(runs: Seq<ActionRun>, selected: usize, loading: bool) -> Seq<LineView> {
    if loading && runs.len() == 0 {
        seq![message_row("Loading..."@)]
    } else if runs.len() == 0 {
        seq![message_row("No runs found"@)]
    } else {
        Seq::new(runs.len(), |i: int| run_view_row(runs[i], i == selected))
    }
}

fn started_of(started_at: &Option<String>) -> (r: String)
    ensures
        r@ == started_text(opt_str(*started_at)),
{
    match started_at {
        Some(s) => match second_piece_of(s.as_str(), 'T') {
            Some(t) => first_piece(t.as_str(), '.'),
            None => owned("-"),
        },
        None => owned("-"),
    }
}

/// The rows of the runs view: as the runs table, with the names uncut, the
/// start time as it comes, and a dash for the duration.
pub fn runs_view_rows(runs: &[ActionRun], selected: usize, loading: bool) -> (r: Vec<Line>)
    ensures
        lines_view(r@) == spec_runs_view_rows(runs@, selected, loading),
{
    let mut r: Vec<Line> = Vec::new();
    if loading && runs.len() == 0 {
        push_line(&mut r, message_line("Loading..."));
        assert(lines_view(r@) =~= seq![message_row("Loading..."@)]);
        return r;
    }
    if runs.len() == 0 {
        push_line(&mut r, message_line("No runs found"));
        assert(lines_view(r@) =~= seq![message_row("No runs found"@)]);
        return r;
    }
    let mut i: usize = 0;
    while i < runs.len()
        invariant
            i <= runs@.len(),
            lines_view(r@) == Seq::new(i as nat, |k: int| run_view_row(runs@[k], k == selected)),
        decreases runs@.len() - i,
    {
        let run = &runs[i];
        let mut cells: Vec<Span> = Vec::new();
        push_span(&mut cells, status_cell(run));
        push_span(&mut cells, span(run.workflow_name.as_str(), Style::plain()));
        push_span(&mut cells, span(branch_text(run), Style::plain()));
        push_span(&mut cells, span_of(started_of(&run.started_at), Style::plain()));
        push_span(&mut cells, span("-", Style::plain()));
        let style = if i == selected {
            Style::bg_bold(Color::DarkGray)
        } else {
            Style::plain()
        };
        let row = line_of(cells, style);
        assert(row@.spans =~= run_view_row(*run, i == selected).spans);
        push_line(&mut r, row);
        assert(lines_view(r@) =~= Seq::new((i + 1) as nat, |k: int| run_view_row(runs@[k], k == selected)));
        i = i + 1;
    }
    r
}

} // verus!
