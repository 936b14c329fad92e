//! The lines of the log viewer: the jobs of the opened run with their
//! steps, in the logs panel and full screen, scrolled by the viewer's
//! offset.

use vstd::prelude::*;

use crate::api::{opt_str, JobInfo, JobStep};
use crate::log_view::LogViewerState;
use crate::panel::{sty, Color, Style};
use crate::screen::{blank, blank_line, line_of, lines_view, lv, one, one_line, push_line, push_span, skip_lines, span, span_of, sv, Line, LineView, Span};
use crate::status::{conclusion_style, job_status_style, spec_conclusion_style, spec_job_status_style, spec_step_status_style, step_status_style};
use crate::text::{append, owned};

verus! {

/// What a job reports: its conclusion, else its status.
pub open spec fn job_state_text(job: JobInfo) -> Seq<char> {
    match opt_str(job.conclusion) {
        Some(c) => c,
        None => job.status@,
    }
}

/// The heading line of a job: icon, name, and state in parentheses.
pub open spec fn job_heading(icon: Seq<char>, color: Color, job: JobInfo) -> LineView {
    lv(
        seq![
            sv(icon + " "@, sty(Some(color), None, false)),
            sv(job.name@, sty(Some(Color::Cyan), None, true)),
            sv(" ("@ + job_state_text(job) + ")"@, sty(Some(color), None, false)),
        ],
        sty(None, None, false),
    )
}

/// A step line of the logs panel.
pub open spec fn panel_step_line(step: JobStep) -> LineView {
    let (icon, color) = spec_step_status_style(step.status@, opt_str(step.conclusion));
    lv(
        seq![sv("  "@ + icon + " "@, sty(Some(color), None, false)), sv(step.name@, sty(Some(Color::White), None, false))],
        sty(None, None, false),
    )
}

/// The lines of a job in the logs panel: heading, steps, a blank line.
pub open spec fn panel_job_lines(job: JobInfo) -> Seq<LineView> {
    let (icon, color) = spec_job_status_style(job.status@, opt_str(job.conclusion));
    seq![job_heading(icon, color, job)] + Seq::new(job.steps@.len(), |i: int| panel_step_line(job.steps@[i]))
        + seq![blank()]
}

/// A step line of the full-screen viewer.
pub open spec fn viewer_step_line(step: JobStep) -> LineView {
    let (icon, color) = spec_conclusion_style(opt_str(step.conclusion));
    lv(
        seq![
            sv("  "@ + icon, sty(Some(color), None, false)),
            sv(" "@, sty(None, None, false)),
            sv(step.name@, sty(Some(Color::White), None, false)),
        ],
        sty(None, None, false),
    )
}

/// The lines of a job in the full-screen viewer.
pub open spec fn viewer_job_lines(job: JobInfo) -> Seq<LineView> {
    let (icon, color) = spec_conclusion_style(opt_str(job.conclusion));
    seq![job_heading(icon, color, job)] + Seq::new(job.steps@.len(), |i: int| viewer_step_line(job.steps@[i]))
        + seq![blank()]
}

/// The lines of all the jobs, in the panel (`full` false) or full screen.
pub open spec fn jobs_lines(jobs: Seq<JobInfo>, full: bool) -> Seq<LineView>
    decreases jobs.len(),
{
    if jobs.len() == 0 {
        Seq::empty()
    } else {
        jobs_lines(jobs.drop_last(), full) + if full {
            viewer_job_lines(jobs.last())
        } else {
            panel_job_lines(jobs.last())
        }
    }
}

/// Lines from the `k`-th on.
pub open spec fn skipped(lines: Seq<LineView>, k: usize) -> Seq<LineView> {
    if k < lines.len() {
        lines.skip(k as int)
    } else {
        Seq::empty()
    }
}

fn job_heading_line(icon: &str, color: Color, job: &JobInfo) -> (r: Line)
    ensures
        r@ == job_heading(icon@, color, *job),
{
    let mut spans: Vec<Span> = Vec::new();
    let mut t = owned(icon);
    append(&mut t, " ");
    push_span(&mut spans, span_of(t, Style::fg_only(color)));
    push_span(&mut spans, span(job.name.as_str(), Style::fg_bold(Color::Cyan)));
    let mut st = owned(" (");
    match &job.conclusion {
        Some(c) => append(&mut st, c.as_str()),
        None => append(&mut st, job.status.as_str()),
    }
    append(&mut st, ")");
    push_span(&mut spans, span_of(st, Style::fg_only(color)));
    let r = line_of(spans, Style::plain());
    assert(r@.spans =~= job_heading(icon@, color, *job).spans);
    r
}

fn push_job_lines(lines: &mut Vec<Line>, job: &JobInfo, full: bool)
    ensures
        lines_view(final(lines)@) == lines_view(old(lines)@) + if full {
            viewer_job_lines(*job)
        } else {
            panel_job_lines(*job)
        },
{
    let ghost start = lines_view(lines@);
    let (icon, color) = if full {
        conclusion_style(&job.conclusion)
    } else {
        job_status_style(job.status.as_str(), &job.conclusion)
    };
    push_line(lines, job_heading_line(icon, color, job));
    let ghost step_line = |s: JobStep| if full { viewer_step_line(s) } else { panel_step_line(s) };
    let mut i: usize = 0;
    while i < job.steps.len()
        invariant
            i <= job.steps@.len(),
            step_line == (|s: JobStep| if full { viewer_step_line(s) } else { panel_step_line(s) }),
            lines_view(lines@) == start + seq![job_heading(icon@, color, *job)] + Seq::new(
                i as nat,
                |k: int| step_line(job.steps@[k]),
            ),
        decreases job.steps@.len() - i,
    {
        let step = &job.steps[i];
        let mut spans: Vec<Span> = Vec::new();
        if full {
            let (si, sc) = conclusion_style(&step.conclusion);
            let mut t = owned("  ");
            append(&mut t, si);
            push_span(&mut spans, span_of(t, Style::fg_only(sc)));
            push_span(&mut spans, span(" ", Style::plain()));
        } else {
            let (si, sc) = step_status_style(step.status.as_str(), &step.conclusion);
            let mut t = owned("  ");
            append(&mut t, si);
            append(&mut t, " ");
            push_span(&mut spans, span_of(t, Style::fg_only(sc)));
        }
        push_span(&mut spans, span(step.name.as_str(), Style::fg_only(Color::White)));
        let l = line_of(spans, Style::plain());
        assert(l@.spans =~= step_line(*step).spans);
        push_line(lines, l);
        assert(Seq::new((i + 1) as nat, |k: int| step_line(job.steps@[k])) =~= Seq::new(
            i as nat,
            |k: int| step_line(job.steps@[k]),
        ).push(step_line(job.steps@[i as int])));
        i = i + 1;
    }
    push_line(lines, blank_line());
    proof {
        if full {
            assert(Seq::new(job.steps@.len(), |k: int| step_line(job.steps@[k])) =~= Seq::new(
                job.steps@.len(),
                |k: int| viewer_step_line(job.steps@[k]),
            ));
        } else {
            assert(Seq::new(job.steps@.len(), |k: int| step_line(job.steps@[k])) =~= Seq::new(
                job.steps@.len(),
                |k: int| panel_step_line(job.steps@[k]),
            ));
        }
    }
    assert(lines_view(lines@) =~= start + if full {
        viewer_job_lines(*job)
    } else {
        panel_job_lines(*job)
    });
}

fn push_jobs_lines(lines: &mut Vec<Line>, jobs: &Vec<JobInfo>, full: bool)
    ensures
        lines_view(final(lines)@) == lines_view(old(lines)@) + jobs_lines(jobs@, full),
{
    let ghost start = lines_view(lines@);
    let mut i: usize = 0;
    while i < jobs.len()
        invariant
            i <= jobs@.len(),
            lines_view(lines@) == start + jobs_lines(jobs@.take(i as int), full),
        decreases jobs@.len() - i,
    {
        push_job_lines(lines, &jobs[i], full);
        assert(jobs@.take(i + 1).drop_last() =~= jobs@.take(i as int));
        assert(jobs@.take(i + 1).last() == jobs@[i as int]);
        i = i + 1;
    }
    assert(jobs@.take(jobs@.len() as int) =~= jobs@);
}

/// The logs panel with no run opened.
pub open spec fn spec_logs_placeholder() -> Seq<LineView> {
    seq![
        blank(),
        one("Select a run to view logs"@, sty(Some(Color::DarkGray), None, false)),
        blank(),
        one("Press Enter on a run in the Runs panel"@, sty(Some(Color::DarkGray), None, false)),
    ]
}

/// The lines of the logs panel for an opened run, before scrolling.
pub open spec fn spec_logs_panel_content(state: LogViewerState) -> Seq<LineView> {
    seq![
        lv(
            seq![
                sv("Workflow: "@, sty(Some(Color::DarkGray), None, false)),
                sv(state.workflow_name@, sty(Some(Color::Cyan), None, true)),
            ],
            sty(None, None, false),
        ),
        lv(
            seq![sv("Run ID: "@, sty(Some(Color::DarkGray), None, false)), sv(state.run_id@, sty(None, None, false))],
            sty(None, None, false),
        ),
        blank(),
    ] + if state.loading && state.jobs@.len() == 0 {
        seq![one("Loading jobs..."@, sty(Some(Color::Yellow), None, false))]
    } else if state.jobs@.len() == 0 {
        seq![one("No jobs found"@, sty(Some(Color::DarkGray), None, false))]
    } else {
        jobs_lines(state.jobs@, false)
    }
}

/// The lines of the logs panel: a placeholder with no run opened, else the
/// run's workflow and identifier and its jobs, from the scroll offset on.
pub open spec fn spec_logs_panel_lines(state: Option<LogViewerState>) -> Seq<LineView> {
    match state {
        None => spec_logs_placeholder(),
        Some(s) => skipped(spec_logs_panel_content(s), s.scroll_offset),
    }
}

/// The lines of the logs panel.
pub fn logs_panel_lines(state: Option<&LogViewerState>) -> (r: Vec<Line>)
    ensures
        lines_view(r@) == spec_logs_panel_lines(
            match state {
                Some(s) => Some(*s),
                None => None,
            },
        ),
{
    let mut lines: Vec<Line> = Vec::new();
    match state {
        None => {
            push_line(&mut lines, blank_line());
            push_line(&mut lines, one_line("Select a run to view logs", Style::fg_only(Color::DarkGray)));
            push_line(&mut lines, blank_line());
            push_line(&mut lines, one_line("Press Enter on a run in the Runs panel", Style::fg_only(Color::DarkGray)));
            assert(lines_view(lines@) =~= spec_logs_placeholder());
            lines
        },
        Some(s) => {
            let mut first: Vec<Span> = Vec::new();
            push_span(&mut first, span("Workflow: ", Style::fg_only(Color::DarkGray)));
            push_span(&mut first, span(s.workflow_name.as_str(), Style::fg_bold(Color::Cyan)));
            let l1 = line_of(first, Style::plain());
            let mut second: Vec<Span> = Vec::new();
            push_span(&mut second, span("Run ID: ", Style::fg_only(Color::DarkGray)));
            push_span(&mut second, span(s.run_id.as_str(), Style::plain()));
            let l2 = line_of(second, Style::plain());
            assert(l1@.spans =~= seq![
                sv("Workflow: "@, sty(Some(Color::DarkGray), None, false)),
                sv(s.workflow_name@, sty(Some(Color::Cyan), None, true)),
            ]);
            assert(l2@.spans =~= seq![
                sv("Run ID: "@, sty(Some(Color::DarkGray), None, false)),
                sv(s.run_id@, sty(None, None, false)),
            ]);
            push_line(&mut lines, l1);
            push_line(&mut lines, l2);
            push_line(&mut lines, blank_line());
            let ghost head = lines_view(lines@);
            if s.loading && s.jobs.len() == 0 {
                push_line(&mut lines, one_line("Loading jobs...", Style::fg_only(Color::Yellow)));
            } else if s.jobs.len() == 0 {
                push_line(&mut lines, one_line("No jobs found", Style::fg_only(Color::DarkGray)));
            } else {
                push_jobs_lines(&mut lines, &s.jobs, false);
            }
            assert(lines_view(lines@) =~= spec_logs_panel_content(*s));
            skip_lines(lines, s.scroll_offset)
        },
    }
}

/// The header row of the full-screen viewer.
pub open spec fn spec_log_viewer_header(state: LogViewerState) -> LineView {
    lv(
        seq![
            sv("Run Details: "@, sty(Some(Color::Cyan), None, false)),
            sv(state.workflow_name@, sty(Some(Color::Yellow), None, true)),
            sv(" ("@ + state.run_id@ + ")"@, sty(None, None, false)),
            sv(" │ "@, sty(None, None, false)),
            if state.loading {
                sv("● Loading..."@, sty(Some(Color::Yellow), None, false))
            } else {
                sv("✓ Loaded"@, sty(Some(Color::Green), None, false))
            },
        ],
        sty(None, Some(Color::DarkGray), false),
    )
}

/// The header row of the full-screen viewer: the workflow, the run and
/// whether its jobs are loaded.
pub fn log_viewer_header(state: &LogViewerState) -> (r: Line)
    ensures
        r@ == spec_log_viewer_header(*state),
{
    let mut spans: Vec<Span> = Vec::new();
    push_span(&mut spans, span("Run Details: ", Style::fg_only(Color::Cyan)));
    push_span(&mut spans, span(state.workflow_name.as_str(), Style::fg_bold(Color::Yellow)));
    let mut id = owned(" (");
    append(&mut id, state.run_id.as_str());
    append(&mut id, ")");
    push_span(&mut spans, span_of(id, Style::plain()));
    push_span(&mut spans, span(" │ ", Style::plain()));
    if state.loading {
        push_span(&mut spans, span("● Loading...", Style::fg_only(Color::Yellow)));
    } else {
        push_span(&mut spans, span("✓ Loaded", Style::fg_only(Color::Green)));
    }
    let r = line_of(spans, Style::bg_only(Color::DarkGray));
    assert(r@.spans =~= spec_log_viewer_header(*state).spans);
    r
}

/// The lines of the full-screen viewer, before scrolling.
pub open spec fn spec_log_viewer_content(state: LogViewerState) -> Seq<LineView> {
    if state.loading && state.jobs@.len() == 0 {
        seq![one("Loading..."@, sty(Some(Color::DarkGray), None, false))]
    } else if state.jobs@.len() == 0 {
        seq![one("No jobs found"@, sty(Some(Color::DarkGray), None, false))]
    } else {
        jobs_lines(state.jobs@, true)
    }
}

/// The lines of the full-screen viewer: the jobs and their steps, from the
/// scroll offset on.
pub fn log_viewer_lines(state: &LogViewerState) -> (r: Vec<Line>)
    ensures
        lines_view(r@) == skipped(spec_log_viewer_content(*state), state.scroll_offset),
{
    let mut lines: Vec<Line> = Vec::new();
    if state.loading && state.jobs.len() == 0 {
        push_line(&mut lines, one_line("Loading...", Style::fg_only(Color::DarkGray)));
    } else if state.jobs.len() == 0 {
        push_line(&mut lines, one_line("No jobs found", Style::fg_only(Color::DarkGray)));
    } else {
        push_jobs_lines(&mut lines, &state.jobs, true);
    }
    assert(lines_view(lines@) =~= spec_log_viewer_content(*state));
    skip_lines(lines, state.scroll_offset)
}

} // verus!
