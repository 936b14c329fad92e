//! Reading the GitHub API's responses, and the decisions around the
//! requests: which owner a repository name refers to, what a dispatch
//! sends, what an error answer means. The requests are made by the caller.

use vstd::prelude::*;

use crate::api::{
    opt_str, Action, ActionRun, ActionView, Branch, BranchView, DeploymentInfo, DeploymentView, JobInfo,
    JobStep, JobView, PullRequest, PullRequestView, RunView, StepView,
};
use crate::doc::DocValue;
use crate::text::{append, contains_str, decimal, has_substring, owned, push_char, push_decimal, str_eq};
use vstd::string::StrSliceExecFns;
use base64::Engine;
use crate::api::{InputView, ProviderError, Repo, WorkflowInputField};
use crate::text::{chars_of, string_from_chars};

verus! {

/// The results of `f` on the values, keeping the defined ones.
pub open spec fn filter_map<A>(s: Seq<DocValue>, f: spec_fn(DocValue) -> Option<A>) -> Seq<A>
    decreases s.len(),
{
    if s.len() == 0 {
        Seq::empty()
    } else {
        let p = filter_map(s.drop_last(), f);
        match f(s.last()) {
            Some(a) => p.push(a),
            None => p,
        }
    }
}

/// The text, or `default` when there is none.
pub open spec fn or_default(o: Option<Seq<char>>, default: Seq<char>) -> Seq<char> {
    match o {
        Some(s) => s,
        None => default,
    }
}

/// The text under `k1`, then `k2`.
pub open spec fn nested_str(v: DocValue, k1: Seq<char>, k2: Seq<char>) -> Option<Seq<char>> {
    match v.spec_get(k1) {
        Some(u) => u.field_str(k2),
        None => None,
    }
}

fn text_or(o: Option<&str>, default: &str) -> (r: String)
    ensures
        r@ == or_default(
            match o {
                Some(s) => Some(s@),
                None => None,
            },
            default@,
        ),
{
    match o {
        Some(s) => owned(s),
        None => owned(default),
    }
}

fn opt_text(o: Option<&str>) -> (r: Option<String>)
    ensures
        opt_str(r) == match o {
            Some(s) => Some(s@),
            None => None,
        },
{
    match o {
        Some(s) => Some(owned(s)),
        None => None,
    }
}

fn nested_get_str<'a>(v: &'a DocValue, k1: &str, k2: &str) -> (r: Option<&'a str>)
    ensures
        match r {
            Some(s) => nested_str(*v, k1@, k2@) == Some(s@),
            None => nested_str(*v, k1@, k2@) is None,
        },
{
    match v.get(k1) {
        Some(u) => u.get_str(k2),
        None => None,
    }
}

// ---------------------------------------------------------------------
// Workflows
// ---------------------------------------------------------------------

/// A workflow of the workflows listing: it needs a name, a path entry and
/// an integer id.
pub open spec fn action_of(w: DocValue) -> Option<ActionView> {
    if w.field_str("name"@) is Some && w.spec_get("path"@) is Some && w.field_u64("id"@) is Some {
        Some(
            ActionView {
                name: w.field_str("name"@)->0,
                description: match w.spec_get("path"@)->0.spec_str() {
                    Some(p) => Some("Workflow: "@ + p),
                    None => None,
                },
                workflow_id: decimal(w.field_u64("id"@)->0 as nat),
            },
        )
    } else {
        None
    }
}

fn action_from(w: &DocValue) -> (r: Option<Action>)
    ensures
        match r {
            Some(a) => action_of(*w) == Some(a@),
            None => action_of(*w) is None,
        },
{
    let name = match w.get_str("name") {
        Some(n) => n,
        None => return None,
    };
    let path_entry = match w.get("path") {
        Some(p) => p,
        None => return None,
    };
    let id = match w.get_u64("id") {
        Some(i) => i,
        None => return None,
    };
    let description = match path_entry.as_str() {
        Some(p) => {
            let mut d = owned("Workflow: ");
            append(&mut d, p);
            Some(d)
        },
        None => None,
    };
    Some(Action { name: owned(name), description, workflow_id: crate::text::decimal_string(id) })
}

/// The workflows of a workflows listing.
pub fn actions_from_json(json: &DocValue) -> (r: Vec<Action>)
    ensures
        r@.map_values(|a: Action| a@) == match json.field_list("workflows"@) {
            Some(ws) => filter_map(ws, |w: DocValue| action_of(w)),
            None => Seq::empty(),
        },
{
    let list = match json.get_list("workflows") {
        Some(l) => l,
        None => {
            let r: Vec<Action> = Vec::new();
            assert(r@.map_values(|a: Action| a@) =~= Seq::<ActionView>::empty());
            return r;
        },
    };
    let ghost f = |w: DocValue| action_of(w);
    let mut r: Vec<Action> = Vec::new();
    let mut i: usize = 0;
    while i < list.len()
        invariant
            i <= list@.len(),
            f == (|w: DocValue| action_of(w)),
            r@.map_values(|a: Action| a@) == filter_map(list@.take(i as int), f),
        decreases list@.len() - i,
    {
        assert(list@.take(i + 1).drop_last() == list@.take(i as int));
        let ghost before = r@;
        match action_from(&list[i]) {
            Some(a) => {
                r.push(a);
                assert(r@.map_values(|a: Action| a@) =~= before.map_values(|a: Action| a@).push(a@));
            },
            None => {},
        }
        i = i + 1;
    }
    assert(list@.take(list@.len() as int) == list@);
    r
}

/// What a failed workflows request yields: no workflows when the
/// repository has none ("Not Found"), an API error otherwise.
pub fn actions_from_error(message: &str) -> (r: Result<Vec<Action>, crate::api::ProviderError>)
    ensures
        has_substring(message@, "Not Found"@) ==> (r matches Ok(v) && v@.len() == 0),
        !has_substring(message@, "Not Found"@) ==> (r matches Err(crate::api::ProviderError::Api(m))
            && m@ == message@),
{
    if contains_str(message, "Not Found") {
        Ok(Vec::new())
    } else {
        Err(crate::api::ProviderError::Api(owned(message)))
    }
}

// ---------------------------------------------------------------------
// Runs
// ---------------------------------------------------------------------

/// A run of the runs listing: it needs an integer id and a status.
pub open spec fn run_of(v: DocValue) -> Option<RunView> {
    if v.field_u64("id"@) is Some && v.field_str("status"@) is Some {
        Some(
            RunView {
                id: decimal(v.field_u64("id"@)->0 as nat),
                workflow_name: or_default(v.field_str("name"@), "Unknown"@),
                status: v.field_str("status"@)->0,
                conclusion: v.field_str("conclusion"@),
                started_at: v.field_str("created_at"@),
                finished_at: v.field_str("updated_at"@),
                branch: v.field_str("head_branch"@),
            },
        )
    } else {
        None
    }
}

/// A run of the listing started when it was created and finished when it
/// was last updated: its start is the object's `created_at` text and its
/// finish its `updated_at` text, each whatever the other holds; its status
/// and conclusion are the object's, and it is read exactly when the object
/// has an integer id and a status text.
pub proof fn law_run_times(v: DocValue)
    ensures
        run_of(v) is Some <==> (v.field_u64("id"@) is Some && v.field_str("status"@) is Some),
        run_of(v) matches Some(r) ==> {
            &&& r.started_at == v.field_str("created_at"@)
            &&& r.finished_at == v.field_str("updated_at"@)
            &&& r.status == v.field_str("status"@)->0
            &&& r.conclusion == v.field_str("conclusion"@)
            &&& r.branch == v.field_str("head_branch"@)
        },
{
}

fn run_from(v: &DocValue) -> (r: Option<ActionRun>)
    ensures
        match r {
            Some(a) => run_of(*v) == Some(a@),
            None => run_of(*v) is None,
        },
{
    let id = match v.get_u64("id") {
        Some(i) => i,
        None => return None,
    };
    let status = match v.get_str("status") {
        Some(s) => s,
        None => return None,
    };
    Some(
        ActionRun {
            id: crate::text::decimal_string(id),
            workflow_name: text_or(v.get_str("name"), "Unknown"),
            status: owned(status),
            conclusion: opt_text(v.get_str("conclusion")),
            started_at: opt_text(v.get_str("created_at")),
            finished_at: opt_text(v.get_str("updated_at")),
            branch: opt_text(v.get_str("head_branch")),
        },
    )
}

/// The runs of a runs listing.
pub fn runs_from_json(json: &DocValue) -> (r: Vec<ActionRun>)
    ensures
        r@.map_values(|a: ActionRun| a@) == match json.field_list("workflow_runs"@) {
            Some(ws) => filter_map(ws, |w: DocValue| run_of(w)),
            None => Seq::empty(),
        },
{
    let list = match json.get_list("workflow_runs") {
        Some(l) => l,
        None => {
            let r: Vec<ActionRun> = Vec::new();
            assert(r@.map_values(|a: ActionRun| a@) =~= Seq::<RunView>::empty());
            return r;
        },
    };
    let ghost f = |w: DocValue| run_of(w);
    let mut r: Vec<ActionRun> = Vec::new();
    let mut i: usize = 0;
    while i < list.len()
        invariant
            i <= list@.len(),
            f == (|w: DocValue| run_of(w)),
            r@.map_values(|a: ActionRun| a@) == filter_map(list@.take(i as int), f),
        decreases list@.len() - i,
    {
        assert(list@.take(i + 1).drop_last() == list@.take(i as int));
        let ghost before = r@;
        match run_from(&list[i]) {
            Some(a) => {
                r.push(a);
                assert(r@.map_values(|a: ActionRun| a@) =~= before.map_values(|a: ActionRun| a@).push(a@));
            },
            None => {},
        }
        i = i + 1;
    }
    assert(list@.take(list@.len() as int) == list@);
    r
}

// ---------------------------------------------------------------------
// Jobs
// ---------------------------------------------------------------------

/// A step of a job: it needs a name, a status and an integer number.
pub open spec fn step_of(v: DocValue) -> Option<StepView> {
    if v.field_str("name"@) is Some && v.field_str("status"@) is Some && v.field_u64("number"@) is Some {
        Some(
            StepView {
                name: v.field_str("name"@)->0,
                status: v.field_str("status"@)->0,
                conclusion: v.field_str("conclusion"@),
                number: v.field_u64("number"@)->0,
            },
        )
    } else {
        None
    }
}

/// A job of the jobs listing: it needs an integer id, a name and a status.
pub open spec fn job_of(v: DocValue) -> Option<JobView> {
    if v.field_u64("id"@) is Some && v.field_str("name"@) is Some && v.field_str("status"@) is Some {
        Some(
            JobView {
                id: v.field_u64("id"@)->0,
                name: v.field_str("name"@)->0,
                status: v.field_str("status"@)->0,
                conclusion: v.field_str("conclusion"@),
                steps: match v.field_list("steps"@) {
                    Some(s) => filter_map(s, |x: DocValue| step_of(x)),
                    None => Seq::empty(),
                },
            },
        )
    } else {
        None
    }
}

fn step_from(v: &DocValue) -> (r: Option<JobStep>)
    ensures
        match r {
            Some(a) => step_of(*v) == Some(a@),
            None => step_of(*v) is None,
        },
{
    let name = match v.get_str("name") {
        Some(s) => s,
        None => return None,
    };
    let status = match v.get_str("status") {
        Some(s) => s,
        None => return None,
    };
    let conclusion = opt_text(v.get_str("conclusion"));
    let number = match v.get_u64("number") {
        Some(n) => n,
        None => return None,
    };
    Some(JobStep { name: owned(name), status: owned(status), conclusion, number })
}

fn steps_from(list: &Vec<DocValue>) -> (r: Vec<JobStep>)
    ensures
        r@.map_values(|s: JobStep| s@) == filter_map(list@, |x: DocValue| step_of(x)),
{
    let ghost f = |x: DocValue| step_of(x);
    let mut r: Vec<JobStep> = Vec::new();
    let mut i: usize = 0;
    while i < list.len()
        invariant
            i <= list@.len(),
            f == (|x: DocValue| step_of(x)),
            r@.map_values(|s: JobStep| s@) == filter_map(list@.take(i as int), f),
        decreases list@.len() - i,
    {
        assert(list@.take(i + 1).drop_last() == list@.take(i as int));
        let ghost before = r@;
        match step_from(&list[i]) {
            Some(a) => {
                r.push(a);
                assert(r@.map_values(|s: JobStep| s@) =~= before.map_values(|s: JobStep| s@).push(a@));
            },
            None => {},
        }
        i = i + 1;
    }
    assert(list@.take(list@.len() as int) == list@);
    r
}

fn job_from(v: &DocValue) -> (r: Option<JobInfo>)
    ensures
        match r {
            Some(a) => job_of(*v) == Some(a@),
            None => job_of(*v) is None,
        },
{
    let id = match v.get_u64("id") {
        Some(i) => i,
        None => return None,
    };
    let name = match v.get_str("name") {
        Some(s) => s,
        None => return None,
    };
    let status = match v.get_str("status") {
        Some(s) => s,
        None => return None,
    };
    let steps = match v.get_list("steps") {
        Some(l) => steps_from(l),
        None => {
            let r: Vec<JobStep> = Vec::new();
            assert(r@.map_values(|s: JobStep| s@) =~= Seq::<StepView>::empty());
            r
        },
    };
    Some(JobInfo { id, name: owned(name), status: owned(status), conclusion: opt_text(v.get_str("conclusion")), steps })
}

/// The jobs of a jobs listing, with their steps.
pub fn jobs_from_json(json: &DocValue) -> (r: Vec<JobInfo>)
    ensures
        r@.map_values(|a: JobInfo| a@) == match json.field_list("jobs"@) {
            Some(ws) => filter_map(ws, |w: DocValue| job_of(w)),
            None => Seq::empty(),
        },
{
    let list = match json.get_list("jobs") {
        Some(l) => l,
        None => {
            let r: Vec<JobInfo> = Vec::new();
            assert(r@.map_values(|a: JobInfo| a@) =~= Seq::<JobView>::empty());
            return r;
        },
    };
    let ghost f = |w: DocValue| job_of(w);
    let mut r: Vec<JobInfo> = Vec::new();
    let mut i: usize = 0;
    while i < list.len()
        invariant
            i <= list@.len(),
            f == (|w: DocValue| job_of(w)),
            r@.map_values(|a: JobInfo| a@) == filter_map(list@.take(i as int), f),
        decreases list@.len() - i,
    {
        assert(list@.take(i + 1).drop_last() == list@.take(i as int));
        let ghost before = r@;
        match job_from(&list[i]) {
            Some(a) => {
                r.push(a);
                assert(r@.map_values(|a: JobInfo| a@) =~= before.map_values(|a: JobInfo| a@).push(a@));
            },
            None => {},
        }
        i = i + 1;
    }
    assert(list@.take(list@.len() as int) == list@);
    r
}

// ---------------------------------------------------------------------
// Deployments
// ---------------------------------------------------------------------

/// The deployments of a deployments listing (an empty listing when the
/// answer is not a list).
pub fn deployment_entries(json: &DocValue) -> (r: Option<&Vec<DocValue>>)
    ensures
        match r {
            Some(v) => json.spec_list() == Some(v@),
            None => json.spec_list() is None,
        },
{
    json.as_list()
}

/// The id of a deployment; a deployment without one is skipped.
pub fn deployment_id(v: &DocValue) -> (r: Option<u64>)
    ensures
        r == v.field_u64("id"@),
{
    v.get_u64("id")
}

/// The state of the latest status of a deployment, "unknown" when the
/// statuses request failed (`None`) or holds none.
pub open spec fn status_of(statuses: Option<DocValue>) -> Seq<char> {
    match statuses {
        Some(s) => match s.spec_list() {
            Some(l) => if l.len() > 0 {
                or_default(l[0].field_str("state"@), "unknown"@)
            } else {
                "unknown"@
            },
            None => "unknown"@,
        },
        None => "unknown"@,
    }
}

/// The state of the latest status of a deployment.
pub fn deployment_status(statuses: Option<&DocValue>) -> (r: String)
    ensures
        r@ == status_of(
            match statuses {
                Some(s) => Some(*s),
                None => None,
            },
        ),
{
    match statuses {
        Some(s) => match s.as_list() {
            Some(l) => if l.len() > 0 {
                text_or(l[0].get_str("state"), "unknown")
            } else {
                owned("unknown")
            },
            None => owned("unknown"),
        },
        None => owned("unknown"),
    }
}

/// The first seven characters of a text.
pub open spec fn first_seven(s: Seq<char>) -> Seq<char> {
    if s.len() <= 7 {
        s
    } else {
        s.take(7)
    }
}

/// A deployment with the given id and status.
pub open spec fn deployment_of(v: DocValue, id: u64, status: Seq<char>) -> DeploymentView {
    DeploymentView {
        id,
        environment: or_default(v.field_str("environment"@), "unknown"@),
        sha: first_seven(or_default(v.field_str("sha"@), ""@)),
        ref_name: or_default(v.field_str("ref"@), ""@),
        status,
        created_at: or_default(v.field_str("created_at"@), ""@),
        creator: or_default(nested_str(v, "creator"@, "login"@), "unknown"@),
    }
}

/// The deployment read from a listing entry, its id and its status.
pub fn deployment_from(v: &DocValue, id: u64, status: String) -> (r: DeploymentInfo)
    ensures
        r@ == deployment_of(*v, id, status@),
{
    let sha_full = text_or(v.get_str("sha"), "");
    let n = sha_full.as_str().unicode_len();
    let sha = if n <= 7 {
        sha_full
    } else {
        let mut s = String::new();
        let mut i: usize = 0;
        while i < 7
            invariant
                i <= 7,
                n == sha_full@.len(),
                n > 7,
                s@ == sha_full@.take(i as int),
            decreases 7 - i,
        {
            push_char(&mut s, sha_full.as_str().get_char(i));
            assert(s@ =~= sha_full@.take(i + 1));
            i = i + 1;
        }
        s
    };
    DeploymentInfo {
        id,
        environment: text_or(v.get_str("environment"), "unknown"),
        sha,
        ref_name: text_or(v.get_str("ref"), ""),
        status,
        created_at: text_or(v.get_str("created_at"), ""),
        creator: text_or(nested_get_str(v, "creator", "login"), "unknown"),
    }
}

/// The entries of a deployments listing that have an id, in order; a
/// listing that is not a list has none.
pub open spec fn listed_deployments(listing: DocValue) -> Seq<DocValue> {
    match listing.spec_list() {
        Some(l) => l.filter(|e: DocValue| e.field_u64("id"@) is Some),
        None => Seq::empty(),
    }
}

/// The deployments of a listing, given the statuses answer fetched for each
/// listed deployment (`None` where that request failed).
pub open spec fn deployments_of(listing: DocValue, statuses: Seq<Option<DocValue>>) -> Seq<DeploymentView> {
    let listed = listed_deployments(listing);
    Seq::new(
        listed.len(),
        |k: int| deployment_of(listed[k], listed[k].field_u64("id"@)->0, status_of(statuses[k])),
    )
}

/// The entries of a deployments listing that have an id, in order.
fn listed_entries(listing: &DocValue) -> (r: Vec<&DocValue>)
    ensures
        r@.len() == listed_deployments(*listing).len(),
        forall|k: int| 0 <= k < r@.len() ==> *(#[trigger] r@[k]) == listed_deployments(*listing)[k],
{
    let mut r: Vec<&DocValue> = Vec::new();
    let entries = match deployment_entries(listing) {
        Some(e) => e,
        None => {
            return r;
        },
    };
    let ghost has_id = |e: DocValue| e.field_u64("id"@) is Some;
    let mut i: usize = 0;
    while i < entries.len()
        invariant
            i <= entries@.len(),
            listing.spec_list() == Some(entries@),
            has_id == (|e: DocValue| e.field_u64("id"@) is Some),
            r@.len() == entries@.take(i as int).filter(has_id).len(),
            forall|k: int| 0 <= k < r@.len() ==> *(#[trigger] r@[k]) == entries@.take(i as int).filter(has_id)[k],
        decreases entries@.len() - i,
    {
        proof {
            entries@.take(i as int).lemma_filter_push(entries@[i as int], has_id);
            assert(entries@.take(i + 1) == entries@.take(i as int).push(entries@[i as int]));
        }
        if deployment_id(&entries[i]).is_some() {
            r.push(&entries[i]);
        }
        i = i + 1;
    }
    assert(entries@.take(entries@.len() as int) == entries@);
    r
}

/// The ids of the deployments of a listing whose statuses are to be
/// fetched: one per entry with an id, in order.
pub fn deployment_ids(listing: &DocValue) -> (r: Vec<u64>)
    ensures
        r@ == listed_deployments(*listing).map_values(|e: DocValue| e.field_u64("id"@)->0),
{
    let listed = listed_entries(listing);
    let ghost want = listed_deployments(*listing).map_values(|e: DocValue| e.field_u64("id"@)->0);
    let mut r: Vec<u64> = Vec::new();
    let mut i: usize = 0;
    while i < listed.len()
        invariant
            i <= listed@.len(),
            listed@.len() == listed_deployments(*listing).len(),
            forall|k: int| 0 <= k < listed@.len() ==> *(#[trigger] listed@[k]) == listed_deployments(*listing)[k],
            want == listed_deployments(*listing).map_values(|e: DocValue| e.field_u64("id"@)->0),
            r@ == want.take(i as int),
        decreases listed@.len() - i,
    {
        let id = match deployment_id(listed[i]) {
            Some(id) => id,
            None => 0,
        };
        proof {
            assert(*listed@[i as int] == listed_deployments(*listing)[i as int]);
            if let Some(l) = listing.spec_list() {
                l.lemma_filter_pred(|e: DocValue| e.field_u64("id"@) is Some, i as int);
            }
        }
        r.push(id);
        assert(want.take(i + 1) =~= want.take(i as int).push(want[i as int]));
        i = i + 1;
    }
    assert(want.take(listed@.len() as int) =~= want);
    r
}

/// The deployments of a listing: each entry with an id, read with the
/// statuses answer fetched for it (`None` where that request failed), in
/// order; entries without an id are skipped.
pub fn deployments_from_listing(listing: &DocValue, statuses: &Vec<Option<DocValue>>) -> (r: Vec<DeploymentInfo>)
    requires
        statuses@.len() == listed_deployments(*listing).len(),
    ensures
        r@.map_values(|d: DeploymentInfo| d@) == deployments_of(*listing, statuses@),
{
    let listed = listed_entries(listing);
    let ghost want = deployments_of(*listing, statuses@);
    let mut r: Vec<DeploymentInfo> = Vec::new();
    let mut i: usize = 0;
    while i < listed.len()
        invariant
            i <= listed@.len(),
            listed@.len() == listed_deployments(*listing).len(),
            forall|k: int| 0 <= k < listed@.len() ==> *(#[trigger] listed@[k]) == listed_deployments(*listing)[k],
            statuses@.len() == listed@.len(),
            want == deployments_of(*listing, statuses@),
            r@.map_values(|d: DeploymentInfo| d@) == want.take(i as int),
        decreases listed@.len() - i,
    {
        let e = listed[i];
        let id = match deployment_id(e) {
            Some(id) => id,
            None => 0,
        };
        proof {
            assert(*listed@[i as int] == listed_deployments(*listing)[i as int]);
            if let Some(l) = listing.spec_list() {
                l.lemma_filter_pred(|e: DocValue| e.field_u64("id"@) is Some, i as int);
            }
        }
        let status = deployment_status(statuses[i].as_ref());
        let d = deployment_from(e, id, status);
        let ghost before = r@.map_values(|d: DeploymentInfo| d@);
        r.push(d);
        assert(r@.map_values(|d: DeploymentInfo| d@) =~= before.push(d@));
        assert(want.take(i + 1) =~= want.take(i as int).push(want[i as int]));
        i = i + 1;
    }
    assert(want.take(listed@.len() as int) =~= want);
    r
}

// ---------------------------------------------------------------------
// Pull requests
// ---------------------------------------------------------------------

/// A pull request of the listing: it needs an integer number, a title and
/// a state.
pub open spec fn pull_request_of(v: DocValue) -> Option<PullRequestView> {
    if v.field_u64("number"@) is Some && v.field_str("title"@) is Some && v.field_str("state"@) is Some {
        Some(
            PullRequestView {
                number: v.field_u64("number"@)->0,
                title: v.field_str("title"@)->0,
                state: v.field_str("state"@)->0,
                author: or_default(nested_str(v, "user"@, "login"@), "unknown"@),
                branch: or_default(nested_str(v, "head"@, "ref"@), ""@),
                updated_at: or_default(v.field_str("updated_at"@), ""@),
                draft: match v.field_bool("draft"@) {
                    Some(b) => b,
                    None => false,
                },
                reviews_approved: 0,
                checks_status: "none"@,
            },
        )
    } else {
        None
    }
}

fn pull_request_from(v: &DocValue) -> (r: Option<PullRequest>)
    ensures
        match r {
            Some(a) => pull_request_of(*v) == Some(a@),
            None => pull_request_of(*v) is None,
        },
{
    let number = match v.get_u64("number") {
        Some(n) => n,
        None => return None,
    };
    let title = match v.get_str("title") {
        Some(s) => s,
        None => return None,
    };
    let state = match v.get_str("state") {
        Some(s) => s,
        None => return None,
    };
    let draft = match v.get_bool("draft") {
        Some(b) => b,
        None => false,
    };
    Some(
        PullRequest {
            number,
            title: owned(title),
            state: owned(state),
            author: text_or(nested_get_str(v, "user", "login"), "unknown"),
            branch: text_or(nested_get_str(v, "head", "ref"), ""),
            updated_at: text_or(v.get_str("updated_at"), ""),
            draft,
            reviews_approved: 0,
            checks_status: owned("none"),
        },
    )
}

/// The open pull requests of a listing (none when the answer is not a
/// list).
pub fn pull_requests_from_json(json: &DocValue) -> (r: Vec<PullRequest>)
    ensures
        r@.map_values(|a: PullRequest| a@) == match json.spec_list() {
            Some(ws) => filter_map(ws, |w: DocValue| pull_request_of(w)),
            None => Seq::empty(),
        },
{
    let list = match json.as_list() {
        Some(l) => l,
        None => {
            let r: Vec<PullRequest> = Vec::new();
            assert(r@.map_values(|a: PullRequest| a@) =~= Seq::<PullRequestView>::empty());
            return r;
        },
    };
    let ghost f = |w: DocValue| pull_request_of(w);
    let mut r: Vec<PullRequest> = Vec::new();
    let mut i: usize = 0;
    while i < list.len()
        invariant
            i <= list@.len(),
            f == (|w: DocValue| pull_request_of(w)),
            r@.map_values(|a: PullRequest| a@) == filter_map(list@.take(i as int), f),
        decreases list@.len() - i,
    {
        assert(list@.take(i + 1).drop_last() == list@.take(i as int));
        let ghost before = r@;
        match pull_request_from(&list[i]) {
            Some(a) => {
                r.push(a);
                assert(r@.map_values(|a: PullRequest| a@) =~= before.map_values(|a: PullRequest| a@).push(a@));
            },
            None => {},
        }
        i = i + 1;
    }
    assert(list@.take(list@.len() as int) == list@);
    r
}

// ---------------------------------------------------------------------
// Branches
// ---------------------------------------------------------------------

/// The default branch a repository description names, "main" when it
/// names none.
pub open spec fn default_branch_name(repo_info: DocValue) -> Seq<char> {
    or_default(repo_info.field_str("default_branch"@), "main"@)
}

/// A branch of the listing: it needs a name.
pub open spec fn branch_of(v: DocValue, default: Seq<char>) -> Option<BranchView> {
    match v.field_str("name"@) {
        Some(n) => Some(BranchView { name: n, is_default: n == default }),
        None => None,
    }
}

/// The branches of a listing, the repository's default one marked.
pub fn branches_from_json(repo_info: &DocValue, branches: &Vec<DocValue>) -> (r: Vec<Branch>)
    ensures
        r@.map_values(|b: Branch| b@) == filter_map(
            branches@,
            |v: DocValue| branch_of(v, default_branch_name(*repo_info)),
        ),
{
    let default = text_or(repo_info.get_str("default_branch"), "main");
    let ghost f = |v: DocValue| branch_of(v, default_branch_name(*repo_info));
    let mut r: Vec<Branch> = Vec::new();
    let mut i: usize = 0;
    while i < branches.len()
        invariant
            i <= branches@.len(),
            default@ == default_branch_name(*repo_info),
            f == (|v: DocValue| branch_of(v, default_branch_name(*repo_info))),
            r@.map_values(|b: Branch| b@) == filter_map(branches@.take(i as int), f),
        decreases branches@.len() - i,
    {
        assert(branches@.take(i + 1).drop_last() == branches@.take(i as int));
        let ghost before = r@;
        match branches[i].get_str("name") {
            Some(n) => {
                let b = Branch { name: owned(n), is_default: str_eq(n, default.as_str()) };
                r.push(b);
                assert(r@.map_values(|b: Branch| b@) =~= before.map_values(|b: Branch| b@).push(b@));
            },
            None => {},
        }
        i = i + 1;
    }
    assert(branches@.take(branches@.len() as int) == branches@);
    r
}

// ---------------------------------------------------------------------
// Workflow inputs
// ---------------------------------------------------------------------

/// The bytes that standard base64 (with padding) decodes a text to, when it
/// is valid base64.
pub uninterp spec fn base64_decoded(input: Seq<char>) -> Option<Seq<u8>>;

/// The text of the error that decoding a text as standard base64 gives, as
/// the error's `Display` writes it (it names the offending symbol and its
/// offset, or the length).
pub uninterp spec fn base64_error(input: Seq<char>) -> Seq<char>;

/// Decodes standard base64 with `base64::engine::general_purpose::STANDARD`
/// (`Engine::decode`). It fails exactly when the text is not valid base64,
/// with the error's `Display` text; which bytes it yields, and the error's
/// wording, are left to the names `base64_decoded` and `base64_error`.
#[verifier::external_body]
fn base64_decode(input: &str) -> (r: Result<Vec<u8>, String>)
    ensures
        r is Ok <==> base64_decoded(input@) is Some,
        r matches Ok(v) ==> base64_decoded(input@) == Some(v@),
        r matches Err(m) ==> m@ == base64_error(input@),
{
    match base64::engine::general_purpose::STANDARD.decode(input) {
        Ok(v) => Ok(v),
        Err(e) => Err(e.to_string()),
    }
}

/// The text of the error that reading bytes as UTF-8 gives, as the error's
/// `Display` writes it (it names the invalid sequence and its index).
pub uninterp spec fn utf8_error(bytes: Seq<u8>) -> Seq<char>;

/// Reads bytes as UTF-8 with `String::from_utf8`, which fails exactly on
/// byte sequences that are not valid UTF-8, with the error's `Display`
/// text, and otherwise decodes them. The error's wording is left to the
/// name `utf8_error`.
#[verifier::external_body]
fn utf8_string(bytes: Vec<u8>) -> (r: Result<String, String>)
    ensures
        r is Ok <==> vstd::utf8::valid_utf8(bytes@),
        r matches Ok(s) ==> s@ == vstd::utf8::decode_utf8(bytes@),
        r matches Err(m) ==> m@ == utf8_error(bytes@),
{
    match String::from_utf8(bytes) {
        Ok(t) => Ok(t),
        Err(e) => Err(e.to_string()),
    }
}

/// The path of a workflow, from its description.
pub fn workflow_path(workflow: &DocValue) -> (r: Result<String, ProviderError>)
    ensures
        match workflow.field_str("path"@) {
            Some(p) => r matches Ok(s) && s@ == p,
            None => r matches Err(ProviderError::Api(m)) && m@ == "No workflow path found"@,
        },
{
    match workflow.get_str("path") {
        Some(p) => Ok(owned(p)),
        None => Err(ProviderError::Api(owned("No workflow path found"))),
    }
}

/// The text without its line breaks.
pub open spec fn without_newlines(s: Seq<char>) -> Seq<char> {
    s.filter(|c: char| c != '\n')
}

/// What a workflow file's content yields: the base64 text without line
/// breaks, decoded, read as UTF-8.
pub open spec fn workflow_text(content: Option<Seq<char>>) -> Option<Seq<char>> {
    match content {
        Some(c) => match base64_decoded(without_newlines(c)) {
            Some(bytes) => if vstd::utf8::valid_utf8(bytes) {
                Some(vstd::utf8::decode_utf8(bytes))
            } else {
                None
            },
            None => None,
        },
        None => None,
    }
}

/// Why a contents response yields no text: no content, content that is
/// not base64, or bytes that are not UTF-8.
pub open spec fn content_error(file: DocValue) -> Seq<char> {
    match file.field_str("content"@) {
        None => "No workflow content found"@,
        Some(c) => match base64_decoded(without_newlines(c)) {
            None => "Base64 decode error: "@ + base64_error(without_newlines(c)),
            Some(bytes) => "UTF-8 decode error: "@ + utf8_error(bytes),
        },
    }
}

/// The text of a workflow file, from the contents response.
pub fn workflow_content(file: &DocValue) -> (r: Result<String, ProviderError>)
    ensures
        match workflow_text(file.field_str("content"@)) {
            Some(t) => r matches Ok(s) && s@ == t,
            None => r matches Err(ProviderError::Api(m)) && m@ == content_error(*file),
        },
{
    let content = match file.get_str("content") {
        Some(c) => c,
        None => return Err(ProviderError::Api(owned("No workflow content found"))),
    };
    let chars = chars_of(content);
    let ghost keep = |c: char| c != '\n';
    let mut kept: Vec<char> = Vec::new();
    let mut i: usize = 0;
    while i < chars.len()
        invariant
            i <= chars@.len(),
            keep == (|c: char| c != '\n'),
            kept@ == chars@.take(i as int).filter(keep),
        decreases chars@.len() - i,
    {
        proof {
            chars@.take(i as int).lemma_filter_push(chars@[i as int], keep);
            assert(chars@.take(i + 1) == chars@.take(i as int).push(chars@[i as int]));
        }
        if chars[i] != '\n' {
            kept.push(chars[i]);
        }
        i = i + 1;
    }
    assert(chars@.take(chars@.len() as int) == chars@);
    let stripped = string_from_chars(&kept);
    match base64_decode(stripped.as_str()) {
        Ok(bytes) => match utf8_string(bytes) {
            Ok(text) => Ok(text),
            Err(t) => {
                let mut m = owned("UTF-8 decode error: ");
                append(&mut m, t.as_str());
                Err(ProviderError::Api(m))
            },
        },
        Err(t) => {
            let mut m = owned("Base64 decode error: ");
            append(&mut m, t.as_str());
            Err(ProviderError::Api(m))
        },
    }
}

/// A workflow input declared under `key` with the settings `v`.
pub open spec fn input_of(key: DocValue, v: DocValue) -> InputView {
    InputView {
        name: or_default(key.spec_str(), ""@),
        required: match v.field_bool("required"@) {
            Some(b) => b,
            None => false,
        },
        description: v.field_str("description"@),
        default: v.field_str("default"@),
        input_type: v.field_str("type"@),
        options: match v.spec_get("options"@) {
            Some(o) => match o.spec_list() {
                Some(l) => Some(l.map_values(|x: DocValue| or_default(x.spec_str(), ""@))),
                None => None,
            },
            None => None,
        },
    }
}

/// The entries under on / workflow_dispatch / inputs, when they form a
/// mapping.
pub open spec fn dispatch_entries(yaml: DocValue) -> Option<Seq<(DocValue, DocValue)>> {
    match yaml.spec_get("on"@) {
        Some(on) => match on.spec_get("workflow_dispatch"@) {
            Some(wd) => match wd.spec_get("inputs"@) {
                Some(DocValue::Object(entries)) => Some(entries@),
                _ => None,
            },
            None => None,
        },
        None => None,
    }
}

fn input_from(key: &DocValue, v: &DocValue) -> (r: WorkflowInputField)
    ensures
        r@ == input_of(*key, *v),
{
    let options = match v.get("options") {
        Some(o) => match o.as_list() {
            Some(l) => {
                let ghost f = |x: DocValue| or_default(x.spec_str(), ""@);
                let mut out: Vec<String> = Vec::new();
                let mut i: usize = 0;
                while i < l.len()
                    invariant
                        i <= l@.len(),
                        f == (|x: DocValue| or_default(x.spec_str(), ""@)),
                        out.deep_view() == l@.take(i as int).map_values(f),
                    decreases l@.len() - i,
                {
                    let ghost before = out.deep_view();
                    let t = text_or(l[i].as_str(), "");
                    out.push(t);
                    assert(out.deep_view() =~= before.push(t@));
                    assert(l@.take(i + 1).map_values(f) =~= l@.take(i as int).map_values(f).push(f(l@[i as int])));
                    i = i + 1;
                }
                assert(l@.take(l@.len() as int) == l@);
                Some(out)
            },
            None => None,
        },
        None => None,
    };
    WorkflowInputField {
        name: text_or(key.as_str(), ""),
        required: match v.get_bool("required") {
            Some(b) => b,
            None => false,
        },
        description: opt_text(v.get_str("description")),
        default: opt_text(v.get_str("default")),
        input_type: opt_text(v.get_str("type")),
        options,
    }
}

/// The inputs a workflow document declares for manual dispatch, in file
/// order.
pub open spec fn declared_inputs(yaml: DocValue) -> Seq<InputView> {
    match dispatch_entries(yaml) {
        Some(entries) => entries.map_values(|e: (DocValue, DocValue)| input_of(e.0, e.1)),
        None => Seq::empty(),
    }
}

/// The inputs a workflow file declares for manual dispatch, in file order.
pub fn inputs_from_yaml(yaml: &DocValue) -> (r: Vec<WorkflowInputField>)
    ensures
        r@.map_values(|f: WorkflowInputField| f@) == declared_inputs(*yaml),
{
    let mut r: Vec<WorkflowInputField> = Vec::new();
    let on = match yaml.get("on") {
        Some(x) => x,
        None => {
            assert(r@.map_values(|f: WorkflowInputField| f@) =~= Seq::<InputView>::empty());
            return r;
        },
    };
    let wd = match on.get("workflow_dispatch") {
        Some(x) => x,
        None => {
            assert(r@.map_values(|f: WorkflowInputField| f@) =~= Seq::<InputView>::empty());
            return r;
        },
    };
    let entries = match wd.get("inputs") {
        Some(DocValue::Object(entries)) => entries,
        _ => {
            assert(r@.map_values(|f: WorkflowInputField| f@) =~= Seq::<InputView>::empty());
            return r;
        },
    };
    let ghost f = |e: (DocValue, DocValue)| input_of(e.0, e.1);
    let mut i: usize = 0;
    while i < entries.len()
        invariant
            i <= entries@.len(),
            f == (|e: (DocValue, DocValue)| input_of(e.0, e.1)),
            r@.map_values(|x: WorkflowInputField| x@) == entries@.take(i as int).map_values(f),
        decreases entries@.len() - i,
    {
        let ghost before = r@;
        let x = input_from(&entries[i].0, &entries[i].1);
        r.push(x);
        assert(r@.map_values(|x: WorkflowInputField| x@) =~= before.map_values(|x: WorkflowInputField| x@).push(x@));
        assert(entries@.take(i + 1).map_values(f) =~= entries@.take(i as int).map_values(f).push(f(entries@[i as int])));
        i = i + 1;
    }
    assert(entries@.take(entries@.len() as int) == entries@);
    r
}

#[verifier::external_type_specification]
#[verifier::external_body]
pub struct ExYamlValue(serde_yaml::Value);

/// The document a YAML text parses to, node for node (a tagged node stands
/// for its value), when serde_yaml accepts it.
pub uninterp spec fn yaml_parsed(text: Seq<char>) -> Option<DocValue>;

/// The document of a parsed YAML node, node for node: null, booleans,
/// numbers (kept when they are integers that fit in 64 bits), strings,
/// sequences and mappings in document order; a tagged node stands for its
/// value. It is the conversion `parse_yaml` applies to what it parses, and
/// has no contract of its own.
#[verifier::external_body]
fn yaml_node(v: &serde_yaml::Value) -> DocValue {
    match v {
        serde_yaml::Value::Null => DocValue::Null,
        serde_yaml::Value::Bool(b) => DocValue::Bool(*b),
        serde_yaml::Value::Number(n) => DocValue::Number(n.as_u64()),
        serde_yaml::Value::String(t) => DocValue::Text(t.clone()),
        serde_yaml::Value::Sequence(a) => DocValue::List(a.iter().map(yaml_node).collect()),
        serde_yaml::Value::Mapping(m) => DocValue::Object(m.iter().map(|(k, x)| (yaml_node(k), yaml_node(x))).collect()),
        serde_yaml::Value::Tagged(t) => yaml_node(&t.value),
    }
}

/// The text of the error that serde_yaml gives for a text it rejects, as
/// the error's `Display` writes it (with the line and column it names).
pub uninterp spec fn yaml_error(text: Seq<char>) -> Seq<char>;

/// Parses a YAML text with `serde_yaml::from_str` into a `serde_yaml::Value`
/// and converts it node for node. It fails exactly when serde_yaml rejects
/// the text (not YAML, more than one document, a duplicate key, nesting too
/// deep), with the error's `Display` text. Which document it yields, and the
/// error's wording, are left to the names `yaml_parsed` and `yaml_error`.
#[verifier::external_body]
fn parse_yaml(text: &str) -> (r: Result<DocValue, String>)
    ensures
        r is Ok <==> yaml_parsed(text@) is Some,
        r matches Ok(d) ==> yaml_parsed(text@) == Some(d),
        r matches Err(m) ==> m@ == yaml_error(text@),
{
    match serde_yaml::from_str::<serde_yaml::Value>(text) {
        Ok(v) => Ok(yaml_node(&v)),
        Err(e) => Err(e.to_string()),
    }
}

/// The inputs a workflow declares for manual dispatch, from the contents
/// response of its file: the file's text is decoded, parsed as YAML, and
/// its inputs read in file order.
pub fn workflow_inputs(file: &DocValue) -> (r: Result<Vec<WorkflowInputField>, ProviderError>)
    ensures
        match workflow_text(file.field_str("content"@)) {
            None => r matches Err(ProviderError::Api(m)) && m@ == content_error(*file),
            Some(t) => match yaml_parsed(t) {
                None => r matches Err(ProviderError::Api(m)) && m@ == "YAML parse error: "@ + yaml_error(t),
                Some(doc) => r matches Ok(v) && v@.map_values(|f: WorkflowInputField| f@) == declared_inputs(doc),
            },
        },
{
    let text = workflow_content(file)?;
    match parse_yaml(text.as_str()) {
        Ok(doc) => Ok(inputs_from_yaml(&doc)),
        Err(e) => {
            let mut m = owned("YAML parse error: ");
            append(&mut m, e.as_str());
            Err(ProviderError::Api(m))
        },
    }
}

// ---------------------------------------------------------------------
// Requests
// ---------------------------------------------------------------------

/// The owner and name a repository string refers to: "owner/name" splits
/// at its first slash; a bare name belongs to the organization, else to the
/// user; `None` when neither is set, and the current user must be asked.
pub open spec fn resolve_repo_spec(repo: Seq<char>, org: Option<Seq<char>>, user: Option<Seq<char>>) -> Option<
    (Seq<char>, Seq<char>),
> {
    match repo.index_of_first('/') {
        Some(i) => Some((repo.take(i), repo.skip(i + 1))),
        None => match org {
            Some(o) => Some((o, repo)),
            None => match user {
                Some(u) => Some((u, repo)),
                None => None,
            },
        },
    }
}

/// The owner and name a repository string refers to.
pub fn resolve_repo(repo: &str, org: Option<&str>, user: Option<&str>) -> (r: Option<(String, String)>)
    ensures
        match r {
            Some((o, n)) => resolve_repo_spec(
                repo@,
                match org {
                    Some(s) => Some(s@),
                    None => None,
                },
                match user {
                    Some(s) => Some(s@),
                    None => None,
                },
            ) == Some((o@, n@)),
            None => resolve_repo_spec(
                repo@,
                match org {
                    Some(s) => Some(s@),
                    None => None,
                },
                match user {
                    Some(s) => Some(s@),
                    None => None,
                },
            ) is None,
        },
{
    let cs = chars_of(repo);
    proof {
        repo@.index_of_first_ensures('/');
    }
    let mut i: usize = 0;
    while i < cs.len()
        invariant
            i <= cs@.len(),
            cs@ == repo@,
            forall|j: int| 0 <= j < i ==> cs@[j] != '/',
        decreases cs@.len() - i,
    {
        if cs[i] == '/' {
            proof {
                repo@.index_of_first_ensures('/');
                let k = repo@.index_of_first('/').unwrap();
                if k < i {
                } else if k > i {
                }
            }
            let mut owner: Vec<char> = Vec::new();
            let mut j: usize = 0;
            while j < i
                invariant
                    j <= i,
                    i < cs@.len(),
                    owner@ == cs@.take(j as int),
                decreases i - j,
            {
                owner.push(cs[j]);
                assert(owner@ =~= cs@.take(j + 1));
                j = j + 1;
            }
            let mut name: Vec<char> = Vec::new();
            let mut k: usize = i + 1;
            while k < cs.len()
                invariant
                    i < k <= cs@.len(),
                    name@ == cs@.subrange(i + 1, k as int),
                decreases cs@.len() - k,
            {
                name.push(cs[k]);
                assert(name@ =~= cs@.subrange(i + 1, k + 1));
                k = k + 1;
            }
            assert(name@ =~= cs@.skip(i + 1));
            return Some((string_from_chars(&owner), string_from_chars(&name)));
        }
        i = i + 1;
    }
    proof {
        repo@.index_of_first_ensures('/');
        assert(!repo@.contains('/'));
    }
    match org {
        Some(o) => Some((owned(o), owned(repo))),
        None => match user {
            Some(u) => Some((owned(u), owned(repo))),
            None => None,
        },
    }
}

/// Whether the value is the text `t`.
pub open spec fn text_is(v: DocValue, t: Seq<char>) -> bool {
    v matches DocValue::Text(s) && s@ == t
}

/// Whether the entry has the key `k` and the text value `v`.
pub open spec fn entry_is(e: (DocValue, DocValue), k: Seq<char>, v: Seq<char>) -> bool {
    text_is(e.0, k) && text_is(e.1, v)
}

/// Whether the entries are the (name, value) pairs, in order.
pub open spec fn entries_are(entries: Seq<(DocValue, DocValue)>, pairs: Seq<(String, String)>) -> bool {
    &&& entries.len() == pairs.len()
    &&& forall|i: int| 0 <= i < entries.len() ==> entry_is(#[trigger] entries[i], pairs[i].0@, pairs[i].1@)
}

/// Whether the entries make the body of a dispatch on `git_ref` with
/// `inputs`: "ref", then "inputs" as an object when there are inputs.
pub open spec fn payload_is(entries: Seq<(DocValue, DocValue)>, git_ref: Seq<char>, inputs: Seq<(String, String)>) -> bool {
    &&& entries.len() == (if inputs.len() > 0 { 2int } else { 1int })
    &&& entry_is(entries[0], "ref"@, git_ref)
    &&& inputs.len() > 0 ==> text_is(entries[1].0, "inputs"@) && (entries[1].1 matches DocValue::Object(p)
        && entries_are(p@, inputs))
}

/// The body of a workflow dispatch: the ref, and the inputs when there are
/// any.
pub fn dispatch_payload(git_ref: &str, inputs: &Vec<(String, String)>) -> (r: DocValue)
    ensures
        r matches DocValue::Object(entries) && payload_is(entries@, git_ref@, inputs@),
{
    let mut entries: Vec<(DocValue, DocValue)> = Vec::new();
    entries.push((DocValue::Text(owned("ref")), DocValue::Text(owned(git_ref))));
    if inputs.len() > 0 {
        let mut pairs: Vec<(DocValue, DocValue)> = Vec::new();
        let mut i: usize = 0;
        while i < inputs.len()
            invariant
                i <= inputs@.len(),
                entries_are(pairs@, inputs@.take(i as int)),
            decreases inputs@.len() - i,
        {
            pairs.push((DocValue::Text(inputs[i].0.clone()), DocValue::Text(inputs[i].1.clone())));
            assert(inputs@.take(i + 1)[i as int] == inputs@[i as int]);
            i = i + 1;
        }
        assert(inputs@.take(inputs@.len() as int) == inputs@);
        entries.push((DocValue::Text(owned("inputs")), DocValue::Object(pairs)));
    }
    DocValue::Object(entries)
}

/// The decimal notation of a signed number.
pub open spec fn signed_decimal(n: int) -> Seq<char> {
    if n < 0 {
        seq!['-'] + decimal((-n) as nat)
    } else {
        decimal(n as nat)
    }
}

/// The run reported for a dispatch just accepted: queued, on the ref, with
/// an id made from the time it was sent.
pub fn dispatched_run(action: &str, git_ref: &str, timestamp: i64, started_at: String) -> (r: ActionRun)
    ensures
        r@ == (RunView {
            id: "run_"@ + signed_decimal(timestamp as int),
            workflow_name: action@,
            status: "queued"@,
            conclusion: None,
            started_at: Some(started_at@),
            finished_at: None,
            branch: Some(git_ref@),
        }),
{
    let mut id = owned("run_");
    if timestamp < 0 {
        push_char(&mut id, '-');
        let magnitude: u64 = if timestamp == i64::MIN {
            9223372036854775808u64
        } else {
            (-timestamp) as u64
        };
        push_decimal(&mut id, magnitude);
    } else {
        push_decimal(&mut id, timestamp as u64);
    }
    assert(id@ =~= "run_"@ + signed_decimal(timestamp as int));
    ActionRun {
        id,
        workflow_name: owned(action),
        status: owned("queued"),
        conclusion: None,
        started_at: Some(started_at),
        finished_at: None,
        branch: Some(owned(git_ref)),
    }
}

/// A repository of a listing: known by its full name "owner/name" when the
/// listing gives it, else by its name.
pub fn repo_from(full_name: Option<String>, name: String, description: Option<String>) -> (r: Repo)
    ensures
        r.name@ == match full_name {
            Some(f) => f@,
            None => name@,
        },
        r.description == description,
{
    let n = match full_name {
        Some(f) => f,
        None => name,
    };
    Repo { name: n, description }
}

} // verus!
