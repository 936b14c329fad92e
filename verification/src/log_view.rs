//! The log viewer: the jobs and steps of one run, scrolled line by line.

use vstd::prelude::*;

use crate::api::JobInfo;

verus! {

/// The jobs of the opened run and how far the view is scrolled.
#[derive(Debug)]
pub struct LogViewerState {
    pub run_id: String,
    pub workflow_name: String,
    pub jobs: Vec<JobInfo>,
    pub loading: bool,
    pub scroll_offset: usize,
}

/// The log viewer as mathematical values.
#[verifier::ext_equal]
pub struct LogModel {
    pub run_id: Seq<char>,
    pub workflow_name: Seq<char>,
    pub jobs: Seq<JobInfo>,
    pub loading: bool,
    pub scroll_offset: usize,
}

impl View for LogViewerState {
    type V = LogModel;

    open spec fn view(&self) -> LogModel {
        LogModel {
            run_id: self.run_id@,
            workflow_name: self.workflow_name@,
            jobs: self.jobs@,
            loading: self.loading,
            scroll_offset: self.scroll_offset,
        }
    }
}

/// Lines the jobs take: a header and a blank line per job, and a line per
/// step.
pub open spec fn lines_of(jobs: Seq<JobInfo>) -> nat
    decreases jobs.len(),
{
    if jobs.len() == 0 {
        0
    } else {
        lines_of(jobs.drop_last()) + 2 + jobs.last().steps@.len()
    }
}

impl LogModel {
    pub open spec fn total_lines(self) -> nat {
        lines_of(self.jobs)
    }

    /// One line down, stopping at the last line.
    pub open spec fn scroll_down(self) -> LogModel {
        let max_scroll: int = if self.total_lines() >= 1 { self.total_lines() - 1 } else { 0 };
        let next: int = if self.scroll_offset + 1 < max_scroll { self.scroll_offset + 1 } else { max_scroll };
        LogModel { scroll_offset: next as usize, ..self }
    }

    /// One line up, stopping at the first line.
    pub open spec fn scroll_up(self) -> LogModel {
        LogModel { scroll_offset: if self.scroll_offset > 0 { (self.scroll_offset - 1) as usize } else { 0 }, ..self }
    }

    pub open spec fn scroll_top(self) -> LogModel {
        LogModel { scroll_offset: 0, ..self }
    }

    /// The last screenful: twenty lines before the end.
    pub open spec fn scroll_bottom(self) -> LogModel {
        LogModel {
            scroll_offset: if self.total_lines() >= 20 { (self.total_lines() - 20) as usize } else { 0 },
            ..self
        }
    }
}

impl LogViewerState {
    /// A viewer for a run whose jobs are loading.
    pub fn new(run_id: String, workflow_name: String) -> (r: LogViewerState)
        ensures
            r@ == (LogModel {
                run_id: run_id@,
                workflow_name: workflow_name@,
                jobs: Seq::empty(),
                loading: true,
                scroll_offset: 0,
            }),
    {
        LogViewerState { run_id, workflow_name, jobs: Vec::new(), loading: true, scroll_offset: 0 }
    }

    /// Whether the line count fits in a machine word.
    pub fn lines_fit(&self) -> (r: bool)
        ensures
            r == (self@.total_lines() <= usize::MAX),
    {
        let mut count: u128 = 0;
        let mut i: usize = 0;
        while i < self.jobs.len()
            invariant
                i <= self.jobs@.len(),
                count == lines_of(self.jobs@.take(i as int)),
                count <= usize::MAX,
            decreases self.jobs@.len() - i,
        {
            assert(self.jobs@.take(i + 1).drop_last() == self.jobs@.take(i as int));
            let add = 2u128 + self.jobs[i].steps.len() as u128;
            if count + add > usize::MAX as u128 {
                proof {
                    lemma_lines_monotone(self.jobs@, (i + 1) as int);
                }
                return false;
            }
            count = count + add;
            i = i + 1;
        }
        assert(self.jobs@.take(self.jobs@.len() as int) == self.jobs@);
        true
    }

    /// Number of lines the jobs take.
    pub fn total_lines(&self) -> (r: usize)
        requires
            self@.total_lines() <= usize::MAX,
        ensures
            r == self@.total_lines(),
    {
        let mut count: usize = 0;
        let mut i: usize = 0;
        while i < self.jobs.len()
            invariant
                i <= self.jobs@.len(),
                count == lines_of(self.jobs@.take(i as int)),
                lines_of(self.jobs@) <= usize::MAX,
            decreases self.jobs@.len() - i,
        {
            assert(self.jobs@.take(i + 1).drop_last() == self.jobs@.take(i as int));
            proof {
                lemma_lines_monotone(self.jobs@, (i + 1) as int);
            }
            count = count + 2 + self.jobs[i].steps.len();
            i = i + 1;
        }
        assert(self.jobs@.take(self.jobs@.len() as int) == self.jobs@);
        count
    }
}

/// A prefix of the jobs takes no more lines than all of them.
pub proof fn lemma_lines_monotone(jobs: Seq<JobInfo>, k: int)
    requires
        0 <= k <= jobs.len(),
    ensures
        lines_of(jobs.take(k)) <= lines_of(jobs),
    decreases jobs.len(),
{
    if k < jobs.len() {
        assert(jobs.drop_last().take(k) == jobs.take(k));
        lemma_lines_monotone(jobs.drop_last(), k);
    } else {
        assert(jobs.take(k) == jobs);
    }
}

/// The furthest the viewer scrolls: to its last line.
pub open spec fn max_scroll(v: LogModel) -> int {
    if v.total_lines() >= 1 {
        v.total_lines() - 1
    } else {
        0
    }
}

/// Scrolling never moves past the last line: from an offset within the
/// lines, one line down or up, to the top or to the bottom, the offset
/// stays within them. At the last line, down stays put; at the first, up.
pub proof fn law_scroll_within_lines(v: LogModel)
    requires
        v.scroll_offset <= max_scroll(v),
        v.total_lines() <= usize::MAX,
    ensures
        v.scroll_down().scroll_offset <= max_scroll(v),
        v.scroll_up().scroll_offset <= max_scroll(v),
        v.scroll_top().scroll_offset == 0,
        v.scroll_bottom().scroll_offset <= max_scroll(v),
        v.scroll_offset == max_scroll(v) ==> v.scroll_down().scroll_offset == v.scroll_offset,
        v.scroll_offset == 0 ==> v.scroll_up().scroll_offset == 0,
        v.scroll_offset + 1 < max_scroll(v) ==> v.scroll_down().scroll_up() == v,
{
    if v.scroll_offset + 1 < max_scroll(v) {
        assert(v.scroll_down().scroll_offset == v.scroll_offset + 1);
        assert(v.scroll_down().scroll_up() =~= v);
    }
}

} // verus!
