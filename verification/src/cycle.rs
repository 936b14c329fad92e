//! The decisions of the main loop: when the selected repository changes
//! all its lists are loaded, the runs are refreshed on their interval, and
//! an opened run has its jobs fetched. The front end performs the fetches
//! and hands the results back as messages.

use vstd::prelude::*;

use crate::api::opt_str;
use crate::app_state::{AppModel, AppState};
use crate::text::str_eq;

verus! {

/// What the front end fetches after a step.
#[derive(Debug)]
pub struct Fetches {
    /// Every list of this repository.
    pub all_lists: Option<String>,
    /// The runs of this repository.
    pub runs: Option<String>,
}

/// The jobs of a run to fetch.
#[derive(Debug)]
pub struct JobsRequest {
    pub repo: String,
    pub run_id: String,
}

impl AppModel {
    /// The repository at the selected row, if there is one.
    pub open spec fn current_repo(self) -> Option<Seq<char>> {
        if self.selected_repo < self.filtered_repos.len() {
            Some(self.filtered_repos[self.selected_repo as int])
        } else {
            None
        }
    }

    /// One step of the main loop, given the repository whose lists were
    /// last loaded: the new state, the repository now loaded, and the
    /// repositories whose lists, and whose runs, to fetch.
    pub open spec fn spec_step(self, last: Option<Seq<char>>, now: u64) -> (
        AppModel,
        Option<Seq<char>>,
        Option<Seq<char>>,
        Option<Seq<char>>,
    ) {
        let current = self.current_repo();
        let changed = current != last;
        let s1 = if changed && current is Some {
            self.start_all_loading()
        } else {
            self
        };
        let refresh = s1.should_refresh_runs(now) && current is Some;
        let s2 = if refresh {
            AppModel { last_runs_refresh: Some(now), ..s1.start_loading_runs() }
        } else {
            s1
        };
        (
            s2,
            current,
            if changed {
                current
            } else {
                None
            },
            if refresh {
                current
            } else {
                None
            },
        )
    }

    /// The jobs to fetch for the opened run.
    pub open spec fn spec_jobs_request(self) -> Option<(Seq<char>, Seq<char>)> {
        match (self.log_viewer, self.current_repo()) {
            (Some(v), Some(repo)) => Some((repo, v.run_id)),
            _ => None,
        }
    }
}

fn same_opt(a: &Option<String>, b: &Option<String>) -> (r: bool)
    ensures
        r == (opt_str(*a) == opt_str(*b)),
{
    match (a, b) {
        (Some(x), Some(y)) => str_eq(x.as_str(), y.as_str()),
        (None, None) => true,
        _ => false,
    }
}

impl AppState {
    /// The repository at the selected row, if there is one.
    pub fn current_repo(&self) -> (r: Option<String>)
        ensures
            opt_str(r) == self@.current_repo(),
    {
        if self.selected_repo < self.filtered_repos.len() {
            assert(self.filtered_repos.deep_view()[self.selected_repo as int] == self.filtered_repos@[self.selected_repo as int]@);
            Some(self.filtered_repos[self.selected_repo].clone())
        } else {
            None
        }
    }

    /// One step of the main loop. `last_repo` is the repository whose lists
    /// were last loaded, and is updated.
    pub fn step(&mut self, last_repo: &mut Option<String>, now: u64) -> (r: Fetches)
        ensures
            (final(self)@, opt_str(*final(last_repo)), opt_str(r.all_lists), opt_str(r.runs)) == old(self)@.spec_step(
                opt_str(*old(last_repo)),
                now,
            ),
    {
        let current = self.current_repo();
        let changed = !same_opt(&current, last_repo);
        let mut all_lists: Option<String> = None;
        if changed {
            if current.is_some() {
                self.start_all_loading();
            }
            all_lists = match &current {
                Some(c) => Some(c.clone()),
                None => None,
            };
        }
        let mut runs: Option<String> = None;
        if self.should_refresh_runs(now) && current.is_some() {
            self.start_loading_runs();
            self.mark_runs_refreshed(now);
            runs = match &current {
                Some(c) => Some(c.clone()),
                None => None,
            };
        }
        *last_repo = current;
        Fetches { all_lists, runs }
    }

    /// The jobs to fetch for the opened run, if a run is opened and a
    /// repository is shown.
    pub fn jobs_request(&self) -> (r: Option<JobsRequest>)
        ensures
            match r {
                Some(q) => self@.spec_jobs_request() == Some((q.repo@, q.run_id@)),
                None => self@.spec_jobs_request() is None,
            },
    {
        match (&self.log_viewer, self.current_repo()) {
            (Some(v), Some(repo)) => Some(JobsRequest { repo, run_id: v.run_id.clone() }),
            _ => None,
        }
    }
}

/// The lists of a repository are fetched once: a second step right after
/// the first fetches no lists, and a step fetches them exactly when the
/// shown repository differs from the last loaded one.
pub proof fn law_lists_fetched_once(s: AppModel, last: Option<Seq<char>>, now: u64)
    ensures
        ({
            let (s2, loaded, all, _runs) = s.spec_step(last, now);
            let (_s3, _loaded2, all2, _runs2) = s2.spec_step(loaded, now);
            &&& loaded == s.current_repo()
            &&& (all is Some <==> (s.current_repo() != last && s.current_repo() is Some))
            &&& all2 is None
        }),
{
}

} // verus!
