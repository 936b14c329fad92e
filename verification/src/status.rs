//! Icons and colors for the states of runs, jobs, steps, deployments and
//! pull requests, and the order in which environments are listed.

use vstd::prelude::*;

use crate::api::{opt_str, ActionRun, PullRequest};
use crate::panel::Color;
use crate::text::{contains_str, has_substring, lowercase, str_eq, to_lowercase};

verus! {

/// Whether an optional text is the given one.
pub open spec fn is_some_text(o: Option<Seq<char>>, t: Seq<char>) -> bool {
    o == Some(t)
}

fn opt_eq(o: &Option<String>, t: &str) -> (r: bool)
    ensures
        r == is_some_text(opt_str(*o), t@),
{
    match o {
        Some(s) => str_eq(s.as_str(), t),
        None => false,
    }
}

/// Icon and color of a run: by its status, and by its conclusion when the
/// status is none of the known ones.
pub open spec fn spec_run_status_style(status: Seq<char>, conclusion: Option<Seq<char>>) -> (Seq<char>, Color) {
    if status == "completed"@ || status == "success"@ {
        ("✓"@, Color::Green)
    } else if status == "failure"@ || status == "failed"@ {
        ("✗"@, Color::Red)
    } else if status == "in_progress"@ || status == "queued"@ || status == "pending"@ || status == "waiting"@ {
        ("●"@, Color::Yellow)
    } else if status == "cancelled"@ {
        ("○"@, Color::DarkGray)
    } else if is_some_text(conclusion, "success"@) {
        ("✓"@, Color::Green)
    } else if is_some_text(conclusion, "failure"@) {
        ("✗"@, Color::Red)
    } else if is_some_text(conclusion, "cancelled"@) {
        ("○"@, Color::DarkGray)
    } else {
        ("?"@, Color::Gray)
    }
}

/// The icon and color of a run.
pub fn status_style(run: &ActionRun) -> (r: (&'static str, Color))
    ensures
        (r.0@, r.1) == spec_run_status_style(run.status@, opt_str(run.conclusion)),
{
    let s = run.status.as_str();
    if str_eq(s, "completed") || str_eq(s, "success") {
        ("✓", Color::Green)
    } else if str_eq(s, "failure") || str_eq(s, "failed") {
        ("✗", Color::Red)
    } else if str_eq(s, "in_progress") || str_eq(s, "queued") || str_eq(s, "pending") || str_eq(s, "waiting") {
        ("●", Color::Yellow)
    } else if str_eq(s, "cancelled") {
        ("○", Color::DarkGray)
    } else if opt_eq(&run.conclusion, "success") {
        ("✓", Color::Green)
    } else if opt_eq(&run.conclusion, "failure") {
        ("✗", Color::Red)
    } else if opt_eq(&run.conclusion, "cancelled") {
        ("○", Color::DarkGray)
    } else {
        ("?", Color::Gray)
    }
}

/// Icon and color of a job or a step: by its conclusion, and by its status
/// while it has none of the known conclusions. `unknown` is what an unknown
/// status gets.
pub open spec fn spec_progress_style(
    status: Seq<char>,
    conclusion: Option<Seq<char>>,
    unknown: (Seq<char>, Color),
) -> (Seq<char>, Color) {
    if is_some_text(conclusion, "success"@) {
        ("✓"@, Color::Green)
    } else if is_some_text(conclusion, "failure"@) {
        ("✗"@, Color::Red)
    } else if is_some_text(conclusion, "cancelled"@) {
        ("○"@, Color::DarkGray)
    } else if is_some_text(conclusion, "skipped"@) {
        ("⊘"@, Color::DarkGray)
    } else if status == "completed"@ {
        ("✓"@, Color::Green)
    } else if status == "in_progress"@ || status == "queued"@ {
        ("●"@, Color::Yellow)
    } else {
        unknown
    }
}

/// A job's icon and color; an unknown status gets `?` in gray.
pub open spec fn spec_job_status_style(status: Seq<char>, conclusion: Option<Seq<char>>) -> (Seq<char>, Color) {
    spec_progress_style(status, conclusion, ("?"@, Color::Gray))
}

/// A step's icon and color; an unknown status gets `○` in dark gray.
pub open spec fn spec_step_status_style(status: Seq<char>, conclusion: Option<Seq<char>>) -> (Seq<char>, Color) {
    spec_progress_style(status, conclusion, ("○"@, Color::DarkGray))
}

fn progress_style(status: &str, conclusion: &Option<String>, unknown: (&'static str, Color)) -> (r: (
    &'static str,
    Color,
))
    ensures
        (r.0@, r.1) == spec_progress_style(status@, opt_str(*conclusion), (unknown.0@, unknown.1)),
{
    if opt_eq(conclusion, "success") {
        ("✓", Color::Green)
    } else if opt_eq(conclusion, "failure") {
        ("✗", Color::Red)
    } else if opt_eq(conclusion, "cancelled") {
        ("○", Color::DarkGray)
    } else if opt_eq(conclusion, "skipped") {
        ("⊘", Color::DarkGray)
    } else if str_eq(status, "completed") {
        ("✓", Color::Green)
    } else if str_eq(status, "in_progress") || str_eq(status, "queued") {
        ("●", Color::Yellow)
    } else {
        unknown
    }
}

/// The icon and color of a job.
pub fn job_status_style(status: &str, conclusion: &Option<String>) -> (r: (&'static str, Color))
    ensures
        (r.0@, r.1) == spec_job_status_style(status@, opt_str(*conclusion)),
{
    progress_style(status, conclusion, ("?", Color::Gray))
}

/// The icon and color of a step.
pub fn step_status_style(status: &str, conclusion: &Option<String>) -> (r: (&'static str, Color))
    ensures
        (r.0@, r.1) == spec_step_status_style(status@, opt_str(*conclusion)),
{
    progress_style(status, conclusion, ("○", Color::DarkGray))
}

/// Icon and color by conclusion alone, as the full-screen log viewer shows
/// jobs and steps: a missing or unknown conclusion is still running.
pub open spec fn spec_conclusion_style(conclusion: Option<Seq<char>>) -> (Seq<char>, Color) {
    if is_some_text(conclusion, "success"@) {
        ("✓"@, Color::Green)
    } else if is_some_text(conclusion, "failure"@) {
        ("✗"@, Color::Red)
    } else if is_some_text(conclusion, "cancelled"@) {
        ("○"@, Color::DarkGray)
    } else if is_some_text(conclusion, "skipped"@) {
        ("⊘"@, Color::DarkGray)
    } else {
        ("●"@, Color::Yellow)
    }
}

/// The icon and color of a conclusion.
pub fn conclusion_style(conclusion: &Option<String>) -> (r: (&'static str, Color))
    ensures
        (r.0@, r.1) == spec_conclusion_style(opt_str(*conclusion)),
{
    if opt_eq(conclusion, "success") {
        ("✓", Color::Green)
    } else if opt_eq(conclusion, "failure") {
        ("✗", Color::Red)
    } else if opt_eq(conclusion, "cancelled") {
        ("○", Color::DarkGray)
    } else if opt_eq(conclusion, "skipped") {
        ("⊘", Color::DarkGray)
    } else {
        ("●", Color::Yellow)
    }
}

/// Icon and color of a deployment status, whatever its case.
pub open spec fn spec_deployment_status_style(status: Seq<char>) -> (Seq<char>, Color) {
    let s = lowercase(status);
    if s == "success"@ || s == "active"@ {
        ("✓"@, Color::Green)
    } else if s == "failure"@ || s == "failed"@ || s == "error"@ {
        ("✗"@, Color::Red)
    } else if s == "pending"@ || s == "in_progress"@ || s == "queued"@ || s == "waiting"@ {
        ("●"@, Color::Yellow)
    } else if s == "inactive"@ {
        ("○"@, Color::DarkGray)
    } else {
        ("?"@, Color::Gray)
    }
}

/// The icon and color of a deployment status.
pub fn deployment_status_style(status: &str) -> (r: (&'static str, Color))
    ensures
        (r.0@, r.1) == spec_deployment_status_style(status@),
{
    let lower = to_lowercase(status);
    let s = lower.as_str();
    if str_eq(s, "success") || str_eq(s, "active") {
        ("✓", Color::Green)
    } else if str_eq(s, "failure") || str_eq(s, "failed") || str_eq(s, "error") {
        ("✗", Color::Red)
    } else if str_eq(s, "pending") || str_eq(s, "in_progress") || str_eq(s, "queued") || str_eq(s, "waiting") {
        ("●", Color::Yellow)
    } else if str_eq(s, "inactive") {
        ("○", Color::DarkGray)
    } else {
        ("?", Color::Gray)
    }
}

/// Icon and color of a pull request: drafts are hollow, then by state.
pub open spec fn spec_pr_icon(draft: bool, state: Seq<char>) -> (Seq<char>, Color) {
    if draft {
        ("○"@, Color::DarkGray)
    } else if state == "open"@ {
        ("●"@, Color::Green)
    } else if state == "closed"@ {
        ("✗"@, Color::Red)
    } else {
        ("?"@, Color::Gray)
    }
}

/// The icon and color of a pull request.
pub fn pr_icon(pr: &PullRequest) -> (r: (&'static str, Color))
    ensures
        (r.0@, r.1) == spec_pr_icon(pr.draft, pr.state@),
{
    if pr.draft {
        ("○", Color::DarkGray)
    } else if str_eq(pr.state.as_str(), "open") {
        ("●", Color::Green)
    } else if str_eq(pr.state.as_str(), "closed") {
        ("✗", Color::Red)
    } else {
        ("?", Color::Gray)
    }
}

/// Where an environment is listed: production first, then staging, then
/// development, then the rest, judged by its lowercase name.
pub open spec fn spec_env_priority(env: Seq<char>) -> u8 {
    let e = lowercase(env);
    if has_substring(e, "prod"@) {
        0
    } else if has_substring(e, "stag"@) {
        1
    } else if has_substring(e, "dev"@) {
        2
    } else {
        3
    }
}

/// The listing priority of an environment.
pub fn env_priority(env: &str) -> (r: u8)
    ensures
        r == spec_env_priority(env@),
{
    let lower = to_lowercase(env);
    if contains_str(lower.as_str(), "prod") {
        0
    } else if contains_str(lower.as_str(), "stag") {
        1
    } else if contains_str(lower.as_str(), "dev") {
        2
    } else {
        3
    }
}

/// A job or step whose conclusion is "failure" shows a red ✗, whatever its
/// status, in the logs panel and in the log viewer; and a red mark on a job
/// or step means exactly that it failed.
pub proof fn law_failure_is_a_red_cross(status: Seq<char>, conclusion: Option<Seq<char>>)
    ensures
        spec_job_status_style(status, Some("failure"@)) == ("✗"@, Color::Red),
        spec_step_status_style(status, Some("failure"@)) == ("✗"@, Color::Red),
        spec_conclusion_style(Some("failure"@)) == ("✗"@, Color::Red),
        spec_job_status_style(status, conclusion).1 == Color::Red <==> conclusion == Some("failure"@),
        spec_step_status_style(status, conclusion).1 == Color::Red <==> conclusion == Some("failure"@),
        spec_conclusion_style(conclusion).1 == Color::Red <==> conclusion == Some("failure"@),
{
    reveal_strlit("failure");
    reveal_strlit("success");
    assert("failure"@ != "success"@) by {
        assert("failure"@[0] != "success"@[0]);
    }
}

} // verus!
