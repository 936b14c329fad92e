//! The application state: the lists shown in the panels, what is selected
//! in each, what is loading, the dialog, the log viewer and the window
//! manager; and every change that a key press or a finished request makes
//! to it.

use vstd::prelude::*;

use crate::api::{Action, ActionRun, Branch, DeploymentInfo, JobInfo, Tag};
use crate::dialog::DialogView;
use crate::dialog::DialogState;
use crate::log_view::{LogModel, LogViewerState};
use crate::text::owned;
use crate::window_manager::{WindowManager, WindowState};

verus! {

/// A finished request, handed to the state.
#[derive(Debug)]
pub enum AppMsg {
    TagsLoaded(Vec<Tag>),
    TagsFailed(String),
    ActionsLoaded(Vec<Action>),
    ActionsFailed(String),
    BranchesLoaded(Vec<Branch>),
    BranchesFailed(String),
    RunsLoaded(Vec<ActionRun>),
    RunsFailed(String),
    JobsLoaded(Vec<JobInfo>),
    JobsFailed(String),
    DeploymentsLoaded(Vec<DeploymentInfo>),
    DeploymentsFailed(String),
}

/// Milliseconds a notification stays before it may be cleared.
pub const NOTIFICATION_MS: u64 = 3000;

/// The application state. Times are milliseconds on a monotonic clock that
/// the caller reads.
#[derive(Debug)]
pub struct AppState {
    pub repos: Vec<String>,
    pub filtered_repos: Vec<String>,
    /// Repositories listed first, whatever the filter.
    pub pinned_repos: Vec<String>,
    pub search_query: String,
    pub selected_repo: usize,
    /// The highlighted row of the repository list.
    pub repo_list_selected: Option<usize>,
    pub actions: Vec<Action>,
    pub selected_action: usize,
    pub actions_list_selected: Option<usize>,
    pub needs_action_reload: bool,
    pub last_action_load: Option<u64>,
    pub action_load_debounce: u64,
    pub notification: Option<String>,
    pub notification_time: Option<u64>,
    pub tags: Vec<Tag>,
    pub selected_tag: usize,
    pub tags_list_selected: Option<usize>,
    pub tags_loading: bool,
    pub actions_loading: bool,
    pub branches: Vec<Branch>,
    pub branches_loading: bool,
    pub default_branch: String,
    pub dialog: Option<DialogState>,
    pub previous_dialog: Option<DialogState>,
    pub runs: Vec<ActionRun>,
    pub selected_run: usize,
    pub runs_loading: bool,
    pub log_viewer: Option<LogViewerState>,
    pub last_runs_refresh: Option<u64>,
    pub refresh_interval: u64,
    pub deployments: Vec<DeploymentInfo>,
    pub selected_deployment: usize,
    pub deployments_loading: bool,
    pub window_manager: WindowManager,
}

/// The application state as mathematical values.
#[verifier::ext_equal]
pub struct AppModel {
    pub repos: Seq<Seq<char>>,
    pub filtered_repos: Seq<Seq<char>>,
    pub pinned_repos: Seq<Seq<char>>,
    pub search_query: Seq<char>,
    pub selected_repo: usize,
    pub repo_list_selected: Option<usize>,
    pub actions: Seq<Action>,
    pub selected_action: usize,
    pub actions_list_selected: Option<usize>,
    pub needs_action_reload: bool,
    pub last_action_load: Option<u64>,
    pub action_load_debounce: u64,
    pub notification: Option<Seq<char>>,
    pub notification_time: Option<u64>,
    pub tags: Seq<Tag>,
    pub selected_tag: usize,
    pub tags_list_selected: Option<usize>,
    pub tags_loading: bool,
    pub actions_loading: bool,
    pub branches: Seq<Branch>,
    pub branches_loading: bool,
    pub default_branch: Seq<char>,
    pub dialog: Option<DialogView>,
    pub previous_dialog: Option<DialogView>,
    pub runs: Seq<ActionRun>,
    pub selected_run: usize,
    pub runs_loading: bool,
    pub log_viewer: Option<LogModel>,
    pub last_runs_refresh: Option<u64>,
    pub refresh_interval: u64,
    pub deployments: Seq<DeploymentInfo>,
    pub selected_deployment: usize,
    pub deployments_loading: bool,
    pub window: WindowState,
}

pub open spec fn opt_view<T: View>(o: Option<T>) -> Option<T::V> {
    match o {
        Some(x) => Some(x@),
        None => None,
    }
}

impl View for AppState {
    type V = AppModel;

    open spec fn view(&self) -> AppModel {
        AppModel {
            repos: self.repos.deep_view(),
            filtered_repos: self.filtered_repos.deep_view(),
            pinned_repos: self.pinned_repos.deep_view(),
            search_query: self.search_query@,
            selected_repo: self.selected_repo,
            repo_list_selected: self.repo_list_selected,
            actions: self.actions@,
            selected_action: self.selected_action,
            actions_list_selected: self.actions_list_selected,
            needs_action_reload: self.needs_action_reload,
            last_action_load: self.last_action_load,
            action_load_debounce: self.action_load_debounce,
            notification: opt_view(self.notification),
            notification_time: self.notification_time,
            tags: self.tags@,
            selected_tag: self.selected_tag,
            tags_list_selected: self.tags_list_selected,
            tags_loading: self.tags_loading,
            actions_loading: self.actions_loading,
            branches: self.branches@,
            branches_loading: self.branches_loading,
            default_branch: self.default_branch@,
            dialog: opt_view(self.dialog),
            previous_dialog: opt_view(self.previous_dialog),
            runs: self.runs@,
            selected_run: self.selected_run,
            runs_loading: self.runs_loading,
            log_viewer: opt_view(self.log_viewer),
            last_runs_refresh: self.last_runs_refresh,
            refresh_interval: self.refresh_interval,
            deployments: self.deployments@,
            selected_deployment: self.selected_deployment,
            deployments_loading: self.deployments_loading,
            window: self.window_manager@,
        }
    }
}

/// Time from `then` to `now`, zero when `now` is earlier.
pub open spec fn elapsed(now: u64, then: u64) -> int {
    if now >= then {
        now - then
    } else {
        0
    }
}

/// The next index in a list of `n`, wrapping to the first.
pub open spec fn wrap_next(i: usize, n: nat) -> usize {
    ((i + 1) % (n as int)) as usize
}

/// The previous index in a list of `n`, wrapping to the last.
pub open spec fn wrap_prev(i: usize, n: nat) -> usize {
    if i == 0 {
        (n - 1) as usize
    } else {
        (i - 1) as usize
    }
}

/// The default branch among the loaded branches: the one marked default,
/// else the first one, else the current default.
pub open spec fn default_branch_of(branches: Seq<Branch>, current: Seq<char>) -> Seq<char> {
    if exists|i: int| 0 <= i < branches.len() && branches[i].is_default {
        branches[choose_first_default(branches)].name@
    } else if branches.len() > 0 {
        branches[0].name@
    } else {
        current
    }
}

/// The index of the first branch marked default.
pub open spec fn choose_first_default(branches: Seq<Branch>) -> int {
    choose|i: int|
        0 <= i < branches.len() && branches[i].is_default && forall|j: int|
            0 <= j < i ==> !branches[j].is_default
}

impl AppModel {
    /// The state of a fresh application on the given repositories.
    pub open spec fn initial(repos: Seq<Seq<char>>, window: WindowState) -> AppModel {
        AppModel {
            repos,
            filtered_repos: repos,
            pinned_repos: Seq::empty(),
            search_query: Seq::empty(),
            selected_repo: 0,
            repo_list_selected: if repos.len() > 0 { Some(0) } else { None },
            actions: Seq::empty(),
            selected_action: 0,
            actions_list_selected: None,
            needs_action_reload: true,
            last_action_load: None,
            action_load_debounce: 500,
            notification: None,
            notification_time: None,
            tags: Seq::empty(),
            selected_tag: 0,
            tags_list_selected: None,
            tags_loading: false,
            actions_loading: false,
            branches: Seq::empty(),
            branches_loading: false,
            default_branch: "main"@,
            dialog: None,
            previous_dialog: None,
            runs: Seq::empty(),
            selected_run: 0,
            runs_loading: false,
            log_viewer: None,
            last_runs_refresh: None,
            refresh_interval: 5000,
            deployments: Seq::empty(),
            selected_deployment: 0,
            deployments_loading: false,
            window,
        }
    }

    pub open spec fn set_notification(self, msg: Seq<char>, now: u64) -> AppModel {
        AppModel { notification: Some(msg), notification_time: Some(now), ..self }
    }

    pub open spec fn maybe_clear_notification(self, now: u64) -> AppModel {
        match self.notification_time {
            Some(t) => if elapsed(now, t) > NOTIFICATION_MS {
                AppModel { notification: None, notification_time: None, ..self }
            } else {
                self
            },
            None => self,
        }
    }

    pub open spec fn should_load_actions(self, now: u64) -> bool {
        self.needs_action_reload && !(self.last_action_load matches Some(l) && elapsed(now, l)
            < self.action_load_debounce)
    }

    pub open spec fn should_refresh_runs(self, now: u64) -> bool {
        if !self.window.visible.contains(crate::panel::PanelId::Runs) || self.runs_loading {
            false
        } else {
            match self.last_runs_refresh {
                None => true,
                Some(last) => elapsed(now, last) >= self.refresh_interval,
            }
        }
    }

    pub open spec fn start_loading_runs(self) -> AppModel {
        AppModel { runs_loading: true, ..self }
    }

    pub open spec fn finish_loading_runs(self, runs: Seq<ActionRun>) -> AppModel {
        AppModel { runs_loading: false, runs, selected_run: 0, ..self }
    }

    pub open spec fn fail_loading_runs(self, msg: Seq<char>, now: u64) -> AppModel {
        AppModel { runs_loading: false, ..self }.set_notification(msg, now)
    }

    pub open spec fn next_run(self) -> AppModel {
        if self.runs.len() > 0 {
            AppModel { selected_run: wrap_next(self.selected_run, self.runs.len()), ..self }
        } else {
            self
        }
    }

    pub open spec fn previous_run(self) -> AppModel {
        if self.runs.len() > 0 {
            AppModel { selected_run: wrap_prev(self.selected_run, self.runs.len()), ..self }
        } else {
            self
        }
    }

    pub open spec fn start_loading_deployments(self) -> AppModel {
        AppModel { deployments_loading: true, deployments: Seq::empty(), ..self }
    }

    pub open spec fn finish_loading_deployments(self, deployments: Seq<DeploymentInfo>) -> AppModel {
        AppModel { deployments_loading: false, deployments, selected_deployment: 0, ..self }
    }

    pub open spec fn fail_loading_deployments(self, msg: Seq<char>, now: u64) -> AppModel {
        AppModel { deployments_loading: false, ..self }.set_notification(msg, now)
    }

    pub open spec fn next_deployment(self) -> AppModel {
        if self.deployments.len() > 0 {
            AppModel {
                selected_deployment: wrap_next(self.selected_deployment, self.deployments.len()),
                ..self
            }
        } else {
            self
        }
    }

    pub open spec fn previous_deployment(self) -> AppModel {
        if self.deployments.len() > 0 {
            AppModel {
                selected_deployment: wrap_prev(self.selected_deployment, self.deployments.len()),
                ..self
            }
        } else {
            self
        }
    }

    pub open spec fn start_loading_tags(self) -> AppModel {
        AppModel { tags_loading: true, tags: Seq::empty(), tags_list_selected: None, ..self }
    }

    pub open spec fn finish_loading_tags(self, tags: Seq<Tag>) -> AppModel {
        AppModel {
            tags_loading: false,
            tags,
            selected_tag: 0,
            tags_list_selected: if tags.len() > 0 { Some(0) } else { self.tags_list_selected },
            ..self
        }
    }

    pub open spec fn fail_loading_tags(self, msg: Seq<char>, now: u64) -> AppModel {
        AppModel {
            tags_loading: false,
            tags: Seq::empty(),
            tags_list_selected: None,
            ..self
        }.set_notification(msg, now)
    }

    pub open spec fn start_loading_actions(self) -> AppModel {
        AppModel { actions_loading: true, actions: Seq::empty(), actions_list_selected: None, ..self }
    }

    pub open spec fn finish_loading_actions(self, actions: Seq<Action>) -> AppModel {
        AppModel {
            actions_loading: false,
            actions,
            selected_action: 0,
            actions_list_selected: if actions.len() > 0 { Some(0) } else { self.actions_list_selected },
            ..self
        }
    }

    pub open spec fn fail_loading_actions(self, msg: Seq<char>, now: u64) -> AppModel {
        AppModel {
            actions_loading: false,
            actions: Seq::empty(),
            actions_list_selected: None,
            ..self
        }.set_notification(msg, now)
    }

    pub open spec fn start_loading_branches(self) -> AppModel {
        AppModel { branches_loading: true, branches: Seq::empty(), ..self }
    }

    pub open spec fn finish_loading_branches(self, branches: Seq<Branch>) -> AppModel {
        AppModel {
            branches_loading: false,
            default_branch: default_branch_of(branches, self.default_branch),
            branches,
            ..self
        }
    }

    pub open spec fn fail_loading_branches(self, msg: Seq<char>, now: u64) -> AppModel {
        AppModel { branches_loading: false, branches: Seq::empty(), ..self }.set_notification(msg, now)
    }

    pub open spec fn start_all_loading(self) -> AppModel {
        self.start_loading_tags().start_loading_actions().start_loading_branches().start_loading_runs().start_loading_deployments()
    }

    pub open spec fn open_log_viewer(self) -> AppModel {
        if self.selected_run < self.runs.len() {
            let run = self.runs[self.selected_run as int];
            AppModel {
                log_viewer: Some(
                    LogModel {
                        run_id: run.id@,
                        workflow_name: run.workflow_name@,
                        jobs: Seq::empty(),
                        loading: true,
                        scroll_offset: 0,
                    },
                ),
                ..self
            }
        } else {
            self
        }
    }

    pub open spec fn close_log_viewer(self) -> AppModel {
        AppModel { log_viewer: None, ..self }
    }

    pub open spec fn finish_loading_jobs(self, jobs: Seq<JobInfo>) -> AppModel {
        match self.log_viewer {
            Some(v) => AppModel { log_viewer: Some(LogModel { jobs, loading: false, ..v }), ..self },
            None => self,
        }
    }

    pub open spec fn fail_loading_jobs(self, msg: Seq<char>, now: u64) -> AppModel {
        match self.log_viewer {
            Some(v) => AppModel {
                log_viewer: Some(LogModel { loading: false, ..v }),
                ..self
            }.set_notification(msg, now),
            None => self,
        }
    }

    pub open spec fn with_log(self, f: spec_fn(LogModel) -> LogModel) -> AppModel {
        match self.log_viewer {
            Some(v) => AppModel { log_viewer: Some(f(v)), ..self },
            None => self,
        }
    }
}

} // verus!

verus! {

impl AppState {
    /// A fresh state on the given repositories, all shown, the first one
    /// selected.
    pub fn new(repos: Vec<String>) -> (r: AppState)
        ensures
            r@ == AppModel::initial(repos.deep_view(), WindowState::initial(crate::layout::PresetLayout::Repos)),
    {
        let filtered_repos = crate::api::copy_strings(&repos);
        let repo_list_selected = if filtered_repos.len() > 0 { Some(0) } else { None };
        AppState {
            repos,
            filtered_repos,
            pinned_repos: Vec::new(),
            search_query: String::new(),
            selected_repo: 0,
            repo_list_selected,
            actions: Vec::new(),
            selected_action: 0,
            actions_list_selected: None,
            needs_action_reload: true,
            last_action_load: None,
            action_load_debounce: 500,
            notification: None,
            notification_time: None,
            tags: Vec::new(),
            selected_tag: 0,
            tags_list_selected: None,
            tags_loading: false,
            actions_loading: false,
            branches: Vec::new(),
            branches_loading: false,
            default_branch: owned("main"),
            dialog: None,
            previous_dialog: None,
            runs: Vec::new(),
            selected_run: 0,
            runs_loading: false,
            log_viewer: None,
            last_runs_refresh: None,
            refresh_interval: 5000,
            deployments: Vec::new(),
            selected_deployment: 0,
            deployments_loading: false,
            window_manager: WindowManager::new(),
        }
    }

    /// Applies a finished request.
    pub fn handle_message(&mut self, msg: AppMsg, now: u64)
        ensures
            final(self)@ == match msg {
                AppMsg::TagsLoaded(d) => old(self)@.finish_loading_tags(d@),
                AppMsg::TagsFailed(e) => old(self)@.fail_loading_tags(e@, now),
                AppMsg::ActionsLoaded(d) => old(self)@.finish_loading_actions(d@),
                AppMsg::ActionsFailed(e) => old(self)@.fail_loading_actions(e@, now),
                AppMsg::BranchesLoaded(d) => old(self)@.finish_loading_branches(d@),
                AppMsg::BranchesFailed(e) => old(self)@.fail_loading_branches(e@, now),
                AppMsg::RunsLoaded(d) => old(self)@.finish_loading_runs(d@),
                AppMsg::RunsFailed(e) => old(self)@.fail_loading_runs(e@, now),
                AppMsg::JobsLoaded(d) => old(self)@.finish_loading_jobs(d@),
                AppMsg::JobsFailed(e) => old(self)@.fail_loading_jobs(e@, now),
                AppMsg::DeploymentsLoaded(d) => old(self)@.finish_loading_deployments(d@),
                AppMsg::DeploymentsFailed(e) => old(self)@.fail_loading_deployments(e@, now),
            },
    {
        match msg {
            AppMsg::TagsLoaded(data) => self.finish_loading_tags(data),
            AppMsg::TagsFailed(e) => self.fail_loading_tags(e, now),
            AppMsg::ActionsLoaded(data) => self.finish_loading_actions(data),
            AppMsg::ActionsFailed(e) => self.fail_loading_actions(e, now),
            AppMsg::BranchesLoaded(data) => self.finish_loading_branches(data),
            AppMsg::BranchesFailed(e) => self.fail_loading_branches(e, now),
            AppMsg::RunsLoaded(data) => self.finish_loading_runs(data),
            AppMsg::RunsFailed(e) => self.fail_loading_runs(e, now),
            AppMsg::JobsLoaded(data) => self.finish_loading_jobs(data),
            AppMsg::JobsFailed(e) => self.fail_loading_jobs(e, now),
            AppMsg::DeploymentsLoaded(data) => self.finish_loading_deployments(data),
            AppMsg::DeploymentsFailed(e) => self.fail_loading_deployments(e, now),
        }
    }

    /// Marks every list of the selected repository as loading.
    pub fn start_all_loading(&mut self)
        ensures
            final(self)@ == old(self)@.start_all_loading(),
    {
        self.start_loading_tags();
        self.start_loading_actions();
        self.start_loading_branches();
        self.start_loading_runs();
        self.start_loading_deployments();
    }

    pub fn start_loading_runs(&mut self)
        ensures
            final(self)@ == old(self)@.start_loading_runs(),
    {
        self.runs_loading = true;
    }

    pub fn finish_loading_runs(&mut self, runs: Vec<ActionRun>)
        ensures
            final(self)@ == old(self)@.finish_loading_runs(runs@),
    {
        self.runs_loading = false;
        self.runs = runs;
        self.selected_run = 0;
    }

    pub fn fail_loading_runs(&mut self, msg: String, now: u64)
        ensures
            final(self)@ == old(self)@.fail_loading_runs(msg@, now),
    {
        self.runs_loading = false;
        self.set_notification(msg, now);
    }

    /// Whether the runs should be reloaded: the Runs panel is visible, no
    /// load is under way, and the refresh interval has passed.
    pub fn should_refresh_runs(&self, now: u64) -> (r: bool)
        ensures
            r == self@.should_refresh_runs(now),
    {
        if !self.window_manager.is_visible(crate::panel::PanelId::Runs) || self.runs_loading {
            return false;
        }
        match self.last_runs_refresh {
            None => true,
            Some(last) => {
                let e = if now >= last { now - last } else { 0 };
                e >= self.refresh_interval
            },
        }
    }

    pub fn mark_runs_refreshed(&mut self, now: u64)
        ensures
            final(self)@ == (AppModel { last_runs_refresh: Some(now), ..old(self)@ }),
    {
        self.last_runs_refresh = Some(now);
    }

    pub fn next_run(&mut self)
        ensures
            final(self)@ == old(self)@.next_run(),
    {
        if self.runs.len() > 0 {
            self.selected_run = next_index(self.selected_run, self.runs.len());
        }
    }

    pub fn previous_run(&mut self)
        ensures
            final(self)@ == old(self)@.previous_run(),
    {
        if self.runs.len() > 0 {
            self.selected_run = prev_index(self.selected_run, self.runs.len());
        }
    }

    /// Opens the log viewer on the selected run.
    pub fn open_log_viewer(&mut self)
        ensures
            final(self)@ == old(self)@.open_log_viewer(),
    {
        if self.selected_run < self.runs.len() {
            let run = &self.runs[self.selected_run];
            self.log_viewer = Some(LogViewerState::new(run.id.clone(), run.workflow_name.clone()));
        }
    }

    pub fn close_log_viewer(&mut self)
        ensures
            final(self)@ == old(self)@.close_log_viewer(),
    {
        self.log_viewer = None;
    }

    pub fn finish_loading_jobs(&mut self, jobs: Vec<JobInfo>)
        ensures
            final(self)@ == old(self)@.finish_loading_jobs(jobs@),
    {
        match self.log_viewer.take() {
            Some(mut viewer) => {
                viewer.jobs = jobs;
                viewer.loading = false;
                self.log_viewer = Some(viewer);
            },
            None => {},
        }
    }

    pub fn fail_loading_jobs(&mut self, msg: String, now: u64)
        ensures
            final(self)@ == old(self)@.fail_loading_jobs(msg@, now),
    {
        match self.log_viewer.take() {
            Some(mut viewer) => {
                viewer.loading = false;
                self.log_viewer = Some(viewer);
                self.set_notification(msg, now);
            },
            None => {},
        }
    }

    /// Scrolls the log viewer one line down, stopping at the last line.
    pub fn log_scroll_down(&mut self)
        requires
            old(self)@.log_viewer matches Some(v) ==> v.total_lines() <= usize::MAX,
        ensures
            final(self)@ == old(self)@.with_log(|v: LogModel| v.scroll_down()),
    {
        match self.log_viewer.take() {
            Some(mut viewer) => {
                let total = viewer.total_lines();
                let max_scroll = if total >= 1 { total - 1 } else { 0 };
                let next = if viewer.scroll_offset < max_scroll { viewer.scroll_offset + 1 } else { max_scroll };
                viewer.scroll_offset = next;
                self.log_viewer = Some(viewer);
            },
            None => {},
        }
    }

    /// Scrolls the log viewer one line up.
    pub fn log_scroll_up(&mut self)
        ensures
            final(self)@ == old(self)@.with_log(|v: LogModel| v.scroll_up()),
    {
        match self.log_viewer.take() {
            Some(mut viewer) => {
                viewer.scroll_offset = if viewer.scroll_offset > 0 { viewer.scroll_offset - 1 } else { 0 };
                self.log_viewer = Some(viewer);
            },
            None => {},
        }
    }

    /// Scrolls the log viewer to the first line.
    pub fn log_scroll_top(&mut self)
        ensures
            final(self)@ == old(self)@.with_log(|v: LogModel| v.scroll_top()),
    {
        match self.log_viewer.take() {
            Some(mut viewer) => {
                viewer.scroll_offset = 0;
                self.log_viewer = Some(viewer);
            },
            None => {},
        }
    }

    /// Scrolls the log viewer to its last screenful.
    pub fn log_scroll_bottom(&mut self)
        requires
            old(self)@.log_viewer matches Some(v) ==> v.total_lines() <= usize::MAX,
        ensures
            final(self)@ == old(self)@.with_log(|v: LogModel| v.scroll_bottom()),
    {
        match self.log_viewer.take() {
            Some(mut viewer) => {
                let total = viewer.total_lines();
                viewer.scroll_offset = if total >= 20 { total - 20 } else { 0 };
                self.log_viewer = Some(viewer);
            },
            None => {},
        }
    }

    pub fn start_loading_deployments(&mut self)
        ensures
            final(self)@ == old(self)@.start_loading_deployments(),
    {
        self.deployments_loading = true;
        self.deployments.clear();
    }

    pub fn finish_loading_deployments(&mut self, deployments: Vec<DeploymentInfo>)
        ensures
            final(self)@ == old(self)@.finish_loading_deployments(deployments@),
    {
        self.deployments_loading = false;
        self.deployments = deployments;
        self.selected_deployment = 0;
    }

    pub fn fail_loading_deployments(&mut self, msg: String, now: u64)
        ensures
            final(self)@ == old(self)@.fail_loading_deployments(msg@, now),
    {
        self.deployments_loading = false;
        self.set_notification(msg, now);
    }

    pub fn next_deployment(&mut self)
        ensures
            final(self)@ == old(self)@.next_deployment(),
    {
        if self.deployments.len() > 0 {
            self.selected_deployment = next_index(self.selected_deployment, self.deployments.len());
        }
    }

    pub fn previous_deployment(&mut self)
        ensures
            final(self)@ == old(self)@.previous_deployment(),
    {
        if self.deployments.len() > 0 {
            self.selected_deployment = prev_index(self.selected_deployment, self.deployments.len());
        }
    }

    /// Shows a notification, stamped with the time.
    pub fn set_notification(&mut self, msg: String, now: u64)
        ensures
            final(self)@ == old(self)@.set_notification(msg@, now),
    {
        self.notification = Some(msg);
        self.notification_time = Some(now);
    }

    /// Clears the notification once it is more than three seconds old.
    pub fn maybe_clear_notification(&mut self, now: u64)
        ensures
            final(self)@ == old(self)@.maybe_clear_notification(now),
    {
        if let Some(time) = self.notification_time {
            let e = if now >= time { now - time } else { 0 };
            if e > NOTIFICATION_MS {
                self.notification = None;
                self.notification_time = None;
            }
        }
    }

    /// Whether the workflows should be reloaded: a reload was requested and
    /// the last load is older than the debounce delay.
    pub fn should_load_actions(&self, now: u64) -> (r: bool)
        ensures
            r == self@.should_load_actions(now),
    {
        if !self.needs_action_reload {
            return false;
        }
        if let Some(last_load) = self.last_action_load {
            let e = if now >= last_load { now - last_load } else { 0 };
            if e < self.action_load_debounce {
                return false;
            }
        }
        true
    }

    pub fn start_loading_tags(&mut self)
        ensures
            final(self)@ == old(self)@.start_loading_tags(),
    {
        self.tags_loading = true;
        self.tags.clear();
        self.tags_list_selected = None;
    }

    pub fn finish_loading_tags(&mut self, tags: Vec<Tag>)
        ensures
            final(self)@ == old(self)@.finish_loading_tags(tags@),
    {
        self.tags_loading = false;
        self.tags = tags;
        self.selected_tag = 0;
        if self.tags.len() > 0 {
            self.tags_list_selected = Some(0);
        }
    }

    pub fn fail_loading_tags(&mut self, msg: String, now: u64)
        ensures
            final(self)@ == old(self)@.fail_loading_tags(msg@, now),
    {
        self.tags_loading = false;
        self.tags.clear();
        self.tags_list_selected = None;
        self.set_notification(msg, now);
    }

    pub fn start_loading_actions(&mut self)
        ensures
            final(self)@ == old(self)@.start_loading_actions(),
    {
        self.actions_loading = true;
        self.actions.clear();
        self.actions_list_selected = None;
    }

    pub fn finish_loading_actions(&mut self, actions: Vec<Action>)
        ensures
            final(self)@ == old(self)@.finish_loading_actions(actions@),
    {
        self.actions_loading = false;
        self.actions = actions;
        self.selected_action = 0;
        if self.actions.len() > 0 {
            self.actions_list_selected = Some(0);
        }
    }

    pub fn fail_loading_actions(&mut self, msg: String, now: u64)
        ensures
            final(self)@ == old(self)@.fail_loading_actions(msg@, now),
    {
        self.actions_loading = false;
        self.actions.clear();
        self.actions_list_selected = None;
        self.set_notification(msg, now);
    }

    pub fn start_loading_branches(&mut self)
        ensures
            final(self)@ == old(self)@.start_loading_branches(),
    {
        self.branches_loading = true;
        self.branches.clear();
    }

    /// Stores the branches and picks the default branch among them.
    pub fn finish_loading_branches(&mut self, branches: Vec<Branch>)
        ensures
            final(self)@ == old(self)@.finish_loading_branches(branches@),
    {
        self.branches_loading = false;
        let mut i: usize = 0;
        let mut found = false;
        while i < branches.len()
            invariant_except_break
                !found,
            invariant
                i <= branches@.len(),
                forall|j: int| 0 <= j < i ==> !branches@[j].is_default,
            ensures
                i <= branches@.len(),
                forall|j: int| 0 <= j < i ==> !branches@[j].is_default,
                found ==> i < branches@.len() && branches@[i as int].is_default,
                !found ==> i == branches@.len(),
            decreases branches@.len() - i,
        {
            if branches[i].is_default {
                found = true;
                break;
            }
            i = i + 1;
        }
        proof {
            if found {
                assert(branches@[i as int].is_default);
                let k = choose_first_default(branches@);
                assert(0 <= k < branches@.len() && branches@[k].is_default && forall|j: int|
                    0 <= j < k ==> !branches@[j].is_default);
                if k < i {
                } else if k > i {
                    assert(!branches@[i as int].is_default);
                }
            } else {
                assert(i == branches@.len());
            }
        }
        if found {
            self.default_branch = branches[i].name.clone();
        } else if branches.len() > 0 {
            self.default_branch = branches[0].name.clone();
        }
        self.branches = branches;
    }

    pub fn fail_loading_branches(&mut self, msg: String, now: u64)
        ensures
            final(self)@ == old(self)@.fail_loading_branches(msg@, now),
    {
        self.branches_loading = false;
        self.branches.clear();
        self.set_notification(msg, now);
    }
}

/// The next index in a list of `n`, wrapping to the first.
pub fn next_index(i: usize, n: usize) -> (r: usize)
    requires
        n > 0,
    ensures
        r == wrap_next(i, n as nat),
        r < n,
{
    if i < usize::MAX {
        (i + 1) % n
    } else {
        let r = ((i % n) + 1) % n;
        assert(((i % n) + 1) % (n as int) == (i + 1) % (n as int)) by (nonlinear_arith)
            requires
                n > 0,
        ;
        r
    }
}

/// The previous index in a list of `n`, wrapping to the last.
pub fn prev_index(i: usize, n: usize) -> (r: usize)
    requires
        n > 0,
    ensures
        r == wrap_prev(i, n as nat),
{
    if i == 0 {
        n - 1
    } else {
        i - 1
    }
}

} // verus!
