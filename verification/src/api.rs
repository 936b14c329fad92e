//! The records the GitHub API yields, as the rest of the library sees them.

use vstd::prelude::*;

use crate::text::{append, owned};

verus! {

/// A repository.
#[derive(Debug, Clone)]
pub struct Repo {
    pub name: String,
    pub description: Option<String>,
}

/// A release tag.
#[derive(Debug, Clone)]
pub struct Tag {
    pub name: String,
}

/// A branch of a repository.
#[derive(Debug, Clone)]
pub struct Branch {
    pub name: String,
    pub is_default: bool,
}

/// A workflow that can be dispatched.
#[derive(Debug, Clone)]
pub struct Action {
    pub name: String,
    pub description: Option<String>,
    pub workflow_id: String,
}

/// A run of a workflow.
#[derive(Debug, Clone)]
pub struct ActionRun {
    pub id: String,
    pub workflow_name: String,
    pub status: String,
    pub conclusion: Option<String>,
    pub started_at: Option<String>,
    pub finished_at: Option<String>,
    pub branch: Option<String>,
}

/// A step of a job.
#[derive(Debug, Clone)]
pub struct JobStep {
    pub name: String,
    pub status: String,
    pub conclusion: Option<String>,
    pub number: u64,
}

/// A job of a run, with its steps.
#[derive(Debug, Clone)]
pub struct JobInfo {
    pub id: u64,
    pub name: String,
    pub status: String,
    pub conclusion: Option<String>,
    pub steps: Vec<JobStep>,
}

/// A deployment to an environment.
#[derive(Debug, Clone)]
pub struct DeploymentInfo {
    pub id: u64,
    pub environment: String,
    pub sha: String,
    pub ref_name: String,
    pub status: String,
    pub created_at: String,
    pub creator: String,
}

/// An open pull request.
#[derive(Debug, Clone)]
pub struct PullRequest {
    pub number: u64,
    pub title: String,
    pub state: String,
    pub author: String,
    pub branch: String,
    pub updated_at: String,
    pub draft: bool,
    pub reviews_approved: u32,
    pub checks_status: String,
}

/// An input that a workflow accepts when it is dispatched by hand.
#[derive(Debug, Clone)]
pub struct WorkflowInputField {
    pub name: String,
    pub required: bool,
    pub description: Option<String>,
    pub default: Option<String>,
    /// "string", "number", "boolean", "choice" or "environment".
    pub input_type: Option<String>,
    /// The options of a choice input.
    pub options: Option<Vec<String>>,
}

/// Why a provider request failed.
#[derive(Debug, Clone)]
pub enum ProviderError {
    Network(String),
    Api(String),
    NotFound(String),
    Unknown(String),
}

impl ProviderError {
    pub open spec fn spec_message(&self) -> Seq<char> {
        match self {
            ProviderError::Network(m) => "Network error: "@ + m@,
            ProviderError::Api(m) => "API error: "@ + m@,
            ProviderError::NotFound(m) => "Not found: "@ + m@,
            ProviderError::Unknown(m) => "Unknown error: "@ + m@,
        }
    }

    /// The text shown for the error.
    pub fn message(&self) -> (r: String)
        ensures
            r@ == self.spec_message(),
    {
        let (prefix, m) = match self {
            ProviderError::Network(m) => ("Network error: ", m),
            ProviderError::Api(m) => ("API error: ", m),
            ProviderError::NotFound(m) => ("Not found: ", m),
            ProviderError::Unknown(m) => ("Unknown error: ", m),
        };
        let mut r = owned(prefix);
        append(&mut r, m.as_str());
        r
    }
}

/// A copy of a list of strings.
pub fn copy_strings(v: &[String]) -> (r: Vec<String>)
    ensures
        r@ == v@,
        r.deep_view() == v.deep_view(),
{
    let mut r: Vec<String> = Vec::new();
    let mut i: usize = 0;
    while i < v.len()
        invariant
            i <= v@.len(),
            r@ == v@.take(i as int),
        decreases v@.len() - i,
    {
        r.push(v[i].clone());
        assert(r@ =~= v@.take(i + 1));
        i = i + 1;
    }
    assert(r@ =~= v@);
    assert(r.deep_view() =~= v.deep_view());
    r
}

/// A copy of an optional string.
pub fn copy_opt(v: &Option<String>) -> (r: Option<String>)
    ensures
        r == *v,
{
    match v {
        Some(s) => Some(s.clone()),
        None => None,
    }
}

} // verus!

verus! {

pub open spec fn opt_str(o: Option<String>) -> Option<Seq<char>> {
    match o {
        Some(s) => Some(s@),
        None => None,
    }
}

/// A workflow as mathematical values.
pub struct ActionView {
    pub name: Seq<char>,
    pub description: Option<Seq<char>>,
    pub workflow_id: Seq<char>,
}

impl View for Action {
    type V = ActionView;

    open spec fn view(&self) -> ActionView {
        ActionView { name: self.name@, description: opt_str(self.description), workflow_id: self.workflow_id@ }
    }
}

/// A run as mathematical values.
pub struct RunView {
    pub id: Seq<char>,
    pub workflow_name: Seq<char>,
    pub status: Seq<char>,
    pub conclusion: Option<Seq<char>>,
    pub started_at: Option<Seq<char>>,
    pub finished_at: Option<Seq<char>>,
    pub branch: Option<Seq<char>>,
}

impl View for ActionRun {
    type V = RunView;

    open spec fn view(&self) -> RunView {
        RunView {
            id: self.id@,
            workflow_name: self.workflow_name@,
            status: self.status@,
            conclusion: opt_str(self.conclusion),
            started_at: opt_str(self.started_at),
            finished_at: opt_str(self.finished_at),
            branch: opt_str(self.branch),
        }
    }
}

/// A step as mathematical values.
pub struct StepView {
    pub name: Seq<char>,
    pub status: Seq<char>,
    pub conclusion: Option<Seq<char>>,
    pub number: u64,
}

impl View for JobStep {
    type V = StepView;

    open spec fn view(&self) -> StepView {
        StepView {
            name: self.name@,
            status: self.status@,
            conclusion: opt_str(self.conclusion),
            number: self.number,
        }
    }
}

/// A job as mathematical values.
pub struct JobView {
    pub id: u64,
    pub name: Seq<char>,
    pub status: Seq<char>,
    pub conclusion: Option<Seq<char>>,
    pub steps: Seq<StepView>,
}

impl View for JobInfo {
    type V = JobView;

    open spec fn view(&self) -> JobView {
        JobView {
            id: self.id,
            name: self.name@,
            status: self.status@,
            conclusion: opt_str(self.conclusion),
            steps: self.steps@.map_values(|s: JobStep| s@),
        }
    }
}

/// A deployment as mathematical values.
pub struct DeploymentView {
    pub id: u64,
    pub environment: Seq<char>,
    pub sha: Seq<char>,
    pub ref_name: Seq<char>,
    pub status: Seq<char>,
    pub created_at: Seq<char>,
    pub creator: Seq<char>,
}

impl View for DeploymentInfo {
    type V = DeploymentView;

    open spec fn view(&self) -> DeploymentView {
        DeploymentView {
            id: self.id,
            environment: self.environment@,
            sha: self.sha@,
            ref_name: self.ref_name@,
            status: self.status@,
            created_at: self.created_at@,
            creator: self.creator@,
        }
    }
}

/// A pull request as mathematical values.
pub struct PullRequestView {
    pub number: u64,
    pub title: Seq<char>,
    pub state: Seq<char>,
    pub author: Seq<char>,
    pub branch: Seq<char>,
    pub updated_at: Seq<char>,
    pub draft: bool,
    pub reviews_approved: u32,
    pub checks_status: Seq<char>,
}

impl View for PullRequest {
    type V = PullRequestView;

    open spec fn view(&self) -> PullRequestView {
        PullRequestView {
            number: self.number,
            title: self.title@,
            state: self.state@,
            author: self.author@,
            branch: self.branch@,
            updated_at: self.updated_at@,
            draft: self.draft,
            reviews_approved: self.reviews_approved,
            checks_status: self.checks_status@,
        }
    }
}

/// A branch as mathematical values.
pub struct BranchView {
    pub name: Seq<char>,
    pub is_default: bool,
}

impl View for Branch {
    type V = BranchView;

    open spec fn view(&self) -> BranchView {
        BranchView { name: self.name@, is_default: self.is_default }
    }
}

/// A workflow input as mathematical values.
pub struct InputView {
    pub name: Seq<char>,
    pub required: bool,
    pub description: Option<Seq<char>>,
    pub default: Option<Seq<char>>,
    pub input_type: Option<Seq<char>>,
    pub options: Option<Seq<Seq<char>>>,
}

impl View for WorkflowInputField {
    type V = InputView;

    open spec fn view(&self) -> InputView {
        InputView {
            name: self.name@,
            required: self.required,
            description: opt_str(self.description),
            default: opt_str(self.default),
            input_type: opt_str(self.input_type),
            options: match self.options {
                Some(o) => Some(o.deep_view()),
                None => None,
            },
        }
    }
}

} // verus!
