//! The header and footer rows: which view is shown, the selected
//! repository, counts of what is loaded, notifications and shortcuts.

use vstd::prelude::*;

use crate::api::{opt_str, ActionRun};
use crate::app_state::{AppModel, AppState};
use crate::format::{repo_shortenable, shorten_repo, shortened_repo};
use crate::panel::{sty, Color, Style};
use crate::screen::{line_of, lv, push_span, span, span_of, spans_view, sv, Line, LineView, Span, SpanView};
use crate::text::{append, contains_str, decimal, decimal_string, has_substring, lowercase, owned, str_eq, to_lowercase, to_uppercase, uppercase};

verus! {

/// The main views, one per number key.
#[derive(Debug, Clone, Copy, PartialEq, Eq, Structural)]
pub enum MainView {
    Repos,
    Workflows,
    Runs,
    Envs,
    Tags,
}

/// The panel that has focus in the single-list layout.
#[derive(Clone, Copy, PartialEq, Eq, Structural)]
pub enum FocusedPanel {
    Repos,
    Actions,
    Tags,
}

impl MainView {
    pub open spec fn spec_name(self) -> Seq<char> {
        match self {
            MainView::Repos => "Repos"@,
            MainView::Workflows => "Workflows"@,
            MainView::Runs => "Runs"@,
            MainView::Envs => "Environments"@,
            MainView::Tags => "Tags"@,
        }
    }

    pub open spec fn spec_from_key(c: char) -> Option<MainView> {
        if c == '1' {
            Some(MainView::Repos)
        } else if c == '2' {
            Some(MainView::Workflows)
        } else if c == '3' {
            Some(MainView::Runs)
        } else if c == '4' {
            Some(MainView::Envs)
        } else if c == '5' {
            Some(MainView::Tags)
        } else {
            None
        }
    }

    /// The name of the view.
    pub fn name(&self) -> (r: &'static str)
        ensures
            r@ == self.spec_name(),
    {
        match self {
            MainView::Repos => "Repos",
            MainView::Workflows => "Workflows",
            MainView::Runs => "Runs",
            MainView::Envs => "Environments",
            MainView::Tags => "Tags",
        }
    }

    /// The view selected by a number key.
    pub fn from_key(c: char) -> (r: Option<MainView>)
        ensures
            r == MainView::spec_from_key(c),
    {
        match c {
            '1' => Some(MainView::Repos),
            '2' => Some(MainView::Workflows),
            '3' => Some(MainView::Runs),
            '4' => Some(MainView::Envs),
            '5' => Some(MainView::Tags),
            _ => None,
        }
    }
}

/// Counts shown in the header.
#[derive(Debug, Clone, Copy, PartialEq, Eq, Structural)]
pub struct HeaderStats {
    pub repo_count: usize,
    pub workflow_count: usize,
    pub runs_success: usize,
    pub runs_failed: usize,
    pub runs_pending: usize,
    pub deployments_count: usize,
}

impl Default for HeaderStats {
    fn default() -> (r: HeaderStats)
        ensures
            r == (HeaderStats {
                repo_count: 0,
                workflow_count: 0,
                runs_success: 0,
                runs_failed: 0,
                runs_pending: 0,
                deployments_count: 0,
            }),
    {
        HeaderStats {
            repo_count: 0,
            workflow_count: 0,
            runs_success: 0,
            runs_failed: 0,
            runs_pending: 0,
            deployments_count: 0,
        }
    }
}

/// A run that succeeded: completed, or concluded with success.
pub open spec fn run_succeeded(r: ActionRun) -> bool {
    r.status@ == "completed"@ || opt_str(r.conclusion) == Some("success"@)
}

/// A run that failed: its status or its conclusion says so.
pub open spec fn run_failed(r: ActionRun) -> bool {
    r.status@ == "failure"@ || opt_str(r.conclusion) == Some("failure"@)
}

/// A run that is still to finish.
pub open spec fn run_pending(r: ActionRun) -> bool {
    r.status@ == "in_progress"@ || r.status@ == "queued"@ || r.status@ == "pending"@ || r.status@ == "waiting"@
}

/// The header counts of a state.
pub open spec fn spec_header_stats(s: AppModel) -> HeaderStats {
    HeaderStats {
        repo_count: s.filtered_repos.len() as usize,
        workflow_count: s.actions.len() as usize,
        runs_success: s.runs.filter(|r: ActionRun| run_succeeded(r)).len() as usize,
        runs_failed: s.runs.filter(|r: ActionRun| run_failed(r)).len() as usize,
        runs_pending: s.runs.filter(|r: ActionRun| run_pending(r)).len() as usize,
        deployments_count: s.deployments.len() as usize,
    }
}

/// Whether anything is loading.
pub open spec fn spec_is_loading(s: AppModel) -> bool {
    s.tags_loading || s.actions_loading || s.branches_loading || s.runs_loading || s.deployments_loading
}

fn is_text(o: &Option<String>, t: &str) -> (r: bool)
    ensures
        r == (opt_str(*o) == Some(t@)),
{
    match o {
        Some(s) => str_eq(s.as_str(), t),
        None => false,
    }
}

impl AppState {
    /// Whether anything is loading.
    pub fn is_loading(&self) -> (r: bool)
        ensures
            r == spec_is_loading(self@),
    {
        self.tags_loading || self.actions_loading || self.branches_loading || self.runs_loading
            || self.deployments_loading
    }

    /// The counts the header shows.
    pub fn header_stats(&self) -> (r: HeaderStats)
        ensures
            r == spec_header_stats(self@),
    {
        let ghost runs = self.runs@;
        let ghost ok = |r: ActionRun| run_succeeded(r);
        let ghost bad = |r: ActionRun| run_failed(r);
        let ghost wait = |r: ActionRun| run_pending(r);
        let mut success: usize = 0;
        let mut failed: usize = 0;
        let mut pending: usize = 0;
        let mut i: usize = 0;
        while i < self.runs.len()
            invariant
                runs == self.runs@,
                i <= runs.len(),
                success == runs.take(i as int).filter(ok).len(),
                failed == runs.take(i as int).filter(bad).len(),
                pending == runs.take(i as int).filter(wait).len(),
                ok == (|r: ActionRun| run_succeeded(r)),
                bad == (|r: ActionRun| run_failed(r)),
                wait == (|r: ActionRun| run_pending(r)),
            decreases runs.len() - i,
        {
            let r = &self.runs[i];
            assert(runs.take(i + 1) == runs.take(i as int).push(runs[i as int]));
            proof {
                runs.take(i as int).lemma_filter_push(runs[i as int], ok);
                runs.take(i as int).lemma_filter_push(runs[i as int], bad);
                runs.take(i as int).lemma_filter_push(runs[i as int], wait);
            }
            if str_eq(r.status.as_str(), "completed") || is_text(&r.conclusion, "success") {
                success = success + 1;
            }
            if str_eq(r.status.as_str(), "failure") || is_text(&r.conclusion, "failure") {
                failed = failed + 1;
            }
            let st = r.status.as_str();
            if str_eq(st, "in_progress") || str_eq(st, "queued") || str_eq(st, "pending") || str_eq(st, "waiting") {
                pending = pending + 1;
            }
            i = i + 1;
        }
        assert(runs.take(runs.len() as int) == runs);
        HeaderStats {
            repo_count: self.filtered_repos.len(),
            workflow_count: self.actions.len(),
            runs_success: success,
            runs_failed: failed,
            runs_pending: pending,
            deployments_count: self.deployments.len(),
        }
    }
}

/// The spinner frame shown while loading, turning every tenth of a second.
pub open spec fn loading_glyph(now_ms: u64) -> Seq<char> {
    let t = (now_ms / 100) % 4;
    if t == 0 {
        "◐"@
    } else if t == 1 {
        "◓"@
    } else if t == 2 {
        "◑"@
    } else {
        "◒"@
    }
}

fn glyph(now_ms: u64) -> (r: &'static str)
    ensures
        r@ == loading_glyph(now_ms),
{
    let t = (now_ms / 100) % 4;
    if t == 0 {
        "◐"
    } else if t == 1 {
        "◓"
    } else if t == 2 {
        "◑"
    } else {
        "◒"
    }
}

/// A symbol followed by a count.
pub open spec fn counted(symbol: Seq<char>, n: usize) -> Seq<char> {
    symbol + decimal(n as nat)
}

fn counted_text(symbol: &str, n: usize) -> (r: String)
    ensures
        r@ == counted(symbol@, n),
{
    let mut r = owned(symbol);
    let d = decimal_string(n as u64);
    append(&mut r, d.as_str());
    r
}

/// The counts the header shows for a view.
pub open spec fn view_stat_spans(view: MainView, stats: HeaderStats) -> Seq<SpanView> {
    match view {
        MainView::Repos => seq![sv(counted("📦"@, stats.repo_count), sty(Some(Color::White), None, false))],
        MainView::Workflows => seq![sv(counted("⚙️ "@, stats.workflow_count), sty(Some(Color::White), None, false))],
        MainView::Runs => seq![
            sv(counted("✓"@, stats.runs_success), sty(Some(Color::Green), None, false)),
            sv(" "@, sty(None, None, false)),
            sv(counted("●"@, stats.runs_pending), sty(Some(Color::Yellow), None, false)),
            sv(" "@, sty(None, None, false)),
            sv(counted("✗"@, stats.runs_failed), sty(Some(Color::Red), None, false)),
        ],
        MainView::Envs => seq![sv(counted("🌍"@, stats.deployments_count), sty(Some(Color::White), None, false))],
        MainView::Tags => seq![sv("🏷️ Tags"@, sty(Some(Color::White), None, false))],
    }
}

/// The spans of the header row.
pub open spec fn spec_header_spans(
    repo: Option<Seq<char>>,
    view: MainView,
    is_loading: bool,
    now_ms: u64,
    stats: HeaderStats,
) -> Seq<SpanView> {
    let shown = match repo {
        Some(r) => r,
        None => "-"@,
    };
    let bar = sv(" │ "@, sty(Some(Color::DarkGray), None, false));
    seq![
        sv("⚡HOUSTON"@, sty(Some(Color::Cyan), None, true)),
        bar,
        sv(shortened_repo(shown), sty(Some(Color::Yellow), None, true)),
        bar,
    ] + view_stat_spans(view, stats) + seq![bar, sv(uppercase(view.spec_name()), sty(Some(Color::Magenta), None, true))]
        + if is_loading {
        seq![sv(" "@, sty(None, None, false)), sv(loading_glyph(now_ms), sty(Some(Color::Yellow), None, false))]
    } else {
        Seq::empty()
    }
}

/// Whether the header can show the repository name.
pub open spec fn header_repo_fits(repo: Option<Seq<char>>) -> bool {
    repo matches Some(r) ==> repo_shortenable(r)
}

/// The header background.
pub open spec fn header_style() -> Style {
    sty(None, Some(Color::Rgb(30, 30, 40)), false)
}

/// The header row: the selected repository, the counts of the view, the
/// view's name and, while loading, a spinner frame for the time `now_ms`.
pub fn header_line(repo: Option<&str>, view: MainView, is_loading: bool, now_ms: u64, stats: &HeaderStats) -> (r: Line)
    requires
        header_repo_fits(match repo {
            Some(s) => Some(s@),
            None => None,
        }),
    ensures
        r@ == lv(
            spec_header_spans(
                match repo {
                    Some(s) => Some(s@),
                    None => None,
                },
                view,
                is_loading,
                now_ms,
                *stats,
            ),
            header_style(),
        ),
{
    let ghost rv = match repo {
        Some(s) => Some(s@),
        None => None,
    };
    let mut spans: Vec<Span> = Vec::new();
    push_span(&mut spans, span("⚡HOUSTON", Style::fg_bold(Color::Cyan)));
    push_span(&mut spans, span(" │ ", Style::fg_only(Color::DarkGray)));
    let shown = match repo {
        Some(r) => r,
        None => "-",
    };
    proof {
        reveal_strlit("-");
        crate::text::lemma_byte_len_bound("-"@);
    }
    push_span(&mut spans, span_of(shorten_repo(shown), Style::fg_bold(Color::Yellow)));
    push_span(&mut spans, span(" │ ", Style::fg_only(Color::DarkGray)));
    let ghost head = spans_view(spans@);
    match view {
        MainView::Repos => {
            push_span(&mut spans, span_of(counted_text("📦", stats.repo_count), Style::fg_only(Color::White)));
        },
        MainView::Workflows => {
            push_span(
                &mut spans,
                span_of(counted_text("⚙️ ", stats.workflow_count), Style::fg_only(Color::White)),
            );
        },
        MainView::Runs => {
            push_span(&mut spans, span_of(counted_text("✓", stats.runs_success), Style::fg_only(Color::Green)));
            push_span(&mut spans, span(" ", Style::plain()));
            push_span(&mut spans, span_of(counted_text("●", stats.runs_pending), Style::fg_only(Color::Yellow)));
            push_span(&mut spans, span(" ", Style::plain()));
            push_span(&mut spans, span_of(counted_text("✗", stats.runs_failed), Style::fg_only(Color::Red)));
        },
        MainView::Envs => {
            push_span(
                &mut spans,
                span_of(counted_text("🌍", stats.deployments_count), Style::fg_only(Color::White)),
            );
        },
        MainView::Tags => {
            push_span(&mut spans, span("🏷️ Tags", Style::fg_only(Color::White)));
        },
    }
    assert(spans_view(spans@) =~= head + view_stat_spans(view, *stats));
    push_span(&mut spans, span(" │ ", Style::fg_only(Color::DarkGray)));
    push_span(&mut spans, span_of(to_uppercase(view.name()), Style::fg_bold(Color::Magenta)));
    let ghost mid = spans_view(spans@);
    if is_loading {
        push_span(&mut spans, span(" ", Style::plain()));
        push_span(&mut spans, span(glyph(now_ms), Style::fg_only(Color::Yellow)));
    }
    assert(spans_view(spans@) =~= spec_header_spans(rv, view, is_loading, now_ms, *stats));
    line_of(spans, Style::bg_only(Color::Rgb(30, 30, 40)))
}

/// Whether a notification reports a failure: its lowercase text mentions
/// `fail` or `error`.
pub open spec fn is_error_message(msg: Seq<char>) -> bool {
    has_substring(lowercase(msg), "fail"@) || has_substring(lowercase(msg), "error"@)
}

/// The tab of a view in the footer, highlighted when it is the current one.
pub open spec fn tab_spans(v: MainView, key: Seq<char>, name: Seq<char>, current: MainView) -> Seq<SpanView> {
    if v == current {
        seq![
            sv(" "@ + key, sty(Some(Color::Black), Some(Color::Cyan), false)),
            sv(":"@ + name + " "@, sty(Some(Color::Black), Some(Color::Cyan), true)),
        ]
    } else {
        seq![sv(" "@ + key + ":"@ + name + " "@, sty(Some(Color::DarkGray), None, false))]
    }
}

/// A shortcut: its key in cyan, then what it does.
pub open spec fn shortcut(key: Seq<char>, action: Seq<char>) -> Seq<SpanView> {
    seq![sv(" "@ + key, sty(Some(Color::Cyan), None, false)), sv(":"@ + action, sty(Some(Color::DarkGray), None, false))]
}

/// The shortcuts the footer offers in a view.
pub open spec fn view_shortcuts(view: MainView) -> Seq<SpanView> {
    match view {
        MainView::Repos => shortcut("↵"@, "select"@) + shortcut("/"@, "filter"@) + shortcut("?"@, "help"@),
        MainView::Workflows => shortcut("␣"@, "run"@) + shortcut("↵"@, "details"@) + shortcut("/"@, "filter"@),
        MainView::Runs => shortcut("↵"@, "jobs"@) + shortcut("r"@, "refresh"@) + shortcut("/"@, "filter"@),
        MainView::Envs => shortcut("↵"@, "details"@) + shortcut("r"@, "refresh"@),
        MainView::Tags => shortcut("␣"@, "deploy"@) + shortcut("↵"@, "details"@),
    }
}

/// The footer background when it shows the tabs.
pub open spec fn footer_style() -> Style {
    sty(None, Some(Color::Rgb(20, 20, 30)), false)
}

/// The footer row: a notification alone when there is one (red when it
/// reports a failure, green otherwise); else the view tabs, the shortcuts
/// of the view, and the help and quit hints.
pub open spec fn spec_footer_line(view: MainView, notification: Option<Seq<char>>, help_open: bool) -> LineView {
    match notification {
        Some(msg) => {
            let style = if is_error_message(msg) {
                sty(Some(Color::White), Some(Color::Red), true)
            } else {
                sty(Some(Color::Black), Some(Color::Green), true)
            };
            lv(seq![sv(" "@ + msg + " "@, style)], sty(None, None, false))
        },
        None => lv(
            tab_spans(MainView::Repos, "1"@, "Repos"@, view) + tab_spans(MainView::Workflows, "2"@, "Workflows"@, view)
                + tab_spans(MainView::Runs, "3"@, "Runs"@, view) + tab_spans(MainView::Envs, "4"@, "Envs"@, view)
                + tab_spans(MainView::Tags, "5"@, "Tags"@, view) + seq![sv("│"@, sty(Some(Color::DarkGray), None, false))]
                + view_shortcuts(view) + seq![
                sv(" │ "@, sty(Some(Color::DarkGray), None, false)),
                sv(if help_open { "?:close"@ } else { "?:help"@ }, sty(Some(Color::DarkGray), None, false)),
                sv(" ^C"@, sty(Some(Color::Cyan), None, false)),
                sv(":quit"@, sty(Some(Color::DarkGray), None, false)),
            ],
            footer_style(),
        ),
    }
}

fn join2(a: &str, b: &str) -> (r: String)
    ensures
        r@ == a@ + b@,
{
    let mut r = owned(a);
    append(&mut r, b);
    r
}

fn join3(a: &str, b: &str, c: &str) -> (r: String)
    ensures
        r@ == a@ + b@ + c@,
{
    let mut r = owned(a);
    append(&mut r, b);
    append(&mut r, c);
    r
}

fn push_tab(spans: &mut Vec<Span>, v: MainView, key: &str, name: &str, current: MainView)
    ensures
        spans_view(final(spans)@) == spans_view(old(spans)@) + tab_spans(v, key@, name@, current),
{
    let ghost before = spans_view(spans@);
    if v == current {
        push_span(spans, span_of(join2(" ", key), Style::fg_bg(Color::Black, Color::Cyan)));
        push_span(spans, span_of(join3(":", name, " "), Style::fg_bg_bold(Color::Black, Color::Cyan)));
    } else {
        let mut t = join3(" ", key, ":");
        append(&mut t, name);
        append(&mut t, " ");
        push_span(spans, span_of(t, Style::fg_only(Color::DarkGray)));
    }
    assert(spans_view(spans@) =~= before + tab_spans(v, key@, name@, current));
}

fn push_shortcut(spans: &mut Vec<Span>, key: &str, action: &str)
    ensures
        spans_view(final(spans)@) == spans_view(old(spans)@) + shortcut(key@, action@),
{
    let ghost before = spans_view(spans@);
    push_span(spans, span_of(join2(" ", key), Style::fg_only(Color::Cyan)));
    push_span(spans, span_of(join2(":", action), Style::fg_only(Color::DarkGray)));
    assert(spans_view(spans@) =~= before + shortcut(key@, action@));
}

/// The footer row.
pub fn footer_line(view: MainView, notification: Option<&str>, help_open: bool) -> (r: Line)
    ensures
        r@ == spec_footer_line(
            view,
            match notification {
                Some(s) => Some(s@),
                None => None,
            },
            help_open,
        ),
{
    if let Some(msg) = notification {
        let lower = to_lowercase(msg);
        let is_error = contains_str(lower.as_str(), "fail") || contains_str(lower.as_str(), "error");
        let style = if is_error {
            Style::fg_bg_bold(Color::White, Color::Red)
        } else {
            Style::fg_bg_bold(Color::Black, Color::Green)
        };
        let mut spans: Vec<Span> = Vec::new();
        push_span(&mut spans, span_of(join3(" ", msg, " "), style));
        let r = line_of(spans, Style::plain());
        assert(r@.spans =~= seq![sv(" "@ + msg@ + " "@, style)]);
        return r;
    }
    let mut spans: Vec<Span> = Vec::new();
    push_tab(&mut spans, MainView::Repos, "1", "Repos", view);
    push_tab(&mut spans, MainView::Workflows, "2", "Workflows", view);
    push_tab(&mut spans, MainView::Runs, "3", "Runs", view);
    push_tab(&mut spans, MainView::Envs, "4", "Envs", view);
    push_tab(&mut spans, MainView::Tags, "5", "Tags", view);
    push_span(&mut spans, span("│", Style::fg_only(Color::DarkGray)));
    let ghost before = spans_view(spans@);
    match view {
        MainView::Repos => {
            push_shortcut(&mut spans, "↵", "select");
            push_shortcut(&mut spans, "/", "filter");
            push_shortcut(&mut spans, "?", "help");
        },
        MainView::Workflows => {
            push_shortcut(&mut spans, "␣", "run");
            push_shortcut(&mut spans, "↵", "details");
            push_shortcut(&mut spans, "/", "filter");
        },
        MainView::Runs => {
            push_shortcut(&mut spans, "↵", "jobs");
            push_shortcut(&mut spans, "r", "refresh");
            push_shortcut(&mut spans, "/", "filter");
        },
        MainView::Envs => {
            push_shortcut(&mut spans, "↵", "details");
            push_shortcut(&mut spans, "r", "refresh");
        },
        MainView::Tags => {
            push_shortcut(&mut spans, "␣", "deploy");
            push_shortcut(&mut spans, "↵", "details");
        },
    }
    assert(spans_view(spans@) =~= before + view_shortcuts(view));
    push_span(&mut spans, span(" │ ", Style::fg_only(Color::DarkGray)));
    push_span(&mut spans, span(if help_open { "?:close" } else { "?:help" }, Style::fg_only(Color::DarkGray)));
    push_span(&mut spans, span(" ^C", Style::fg_only(Color::Cyan)));
    push_span(&mut spans, span(":quit", Style::fg_only(Color::DarkGray)));
    let r = line_of(spans, Style::bg_only(Color::Rgb(20, 20, 30)));
    assert(r@.spans =~= spec_footer_line(view, None, help_open).spans);
    r
}

} // verus!
