use houston::api::{ActionRun, PullRequest};
use houston::panel::Color;
use houston::status::{
    conclusion_style, deployment_status_style, env_priority, job_status_style, pr_icon, status_style,
    step_status_style,
};

fn run(status: &str, conclusion: Option<&str>) -> ActionRun {
    ActionRun {
        id: "1".to_string(),
        workflow_name: "CI".to_string(),
        status: status.to_string(),
        conclusion: conclusion.map(|c| c.to_string()),
        started_at: None,
        finished_at: None,
        branch: None,
    }
}

#[test]
fn run_status_by_status_then_conclusion() {
    assert_eq!(status_style(&run("completed", Some("failure"))), ("\u{2713}", Color::Green));
    assert_eq!(status_style(&run("failed", None)), ("\u{2717}", Color::Red));
    assert_eq!(status_style(&run("waiting", None)), ("\u{25cf}", Color::Yellow));
    assert_eq!(status_style(&run("cancelled", None)), ("\u{25cb}", Color::DarkGray));
    assert_eq!(status_style(&run("other", Some("success"))), ("\u{2713}", Color::Green));
    assert_eq!(status_style(&run("other", Some("failure"))), ("\u{2717}", Color::Red));
    assert_eq!(status_style(&run("other", None)), ("?", Color::Gray));
}

#[test]
fn job_and_step_styles_differ_on_unknown_status() {
    assert_eq!(job_status_style("mystery", &None), ("?", Color::Gray));
    assert_eq!(step_status_style("mystery", &None), ("\u{25cb}", Color::DarkGray));
    assert_eq!(job_status_style("queued", &None), ("\u{25cf}", Color::Yellow));
    assert_eq!(step_status_style("completed", &Some("skipped".to_string())), ("\u{2298}", Color::DarkGray));
    assert_eq!(job_status_style("completed", &None), ("\u{2713}", Color::Green));
}

#[test]
fn conclusion_style_treats_missing_as_running() {
    assert_eq!(conclusion_style(&None), ("\u{25cf}", Color::Yellow));
    assert_eq!(conclusion_style(&Some("cancelled".to_string())), ("\u{25cb}", Color::DarkGray));
}

#[test]
fn deployment_status_ignores_case() {
    assert_eq!(deployment_status_style("SUCCESS"), ("\u{2713}", Color::Green));
    assert_eq!(deployment_status_style("Error"), ("\u{2717}", Color::Red));
    assert_eq!(deployment_status_style("in_progress"), ("\u{25cf}", Color::Yellow));
    assert_eq!(deployment_status_style("inactive"), ("\u{25cb}", Color::DarkGray));
    assert_eq!(deployment_status_style("weird"), ("?", Color::Gray));
}

#[test]
fn environments_are_ranked_production_first() {
    assert_eq!(env_priority("Production"), 0);
    assert_eq!(env_priority("eu-prod"), 0);
    assert_eq!(env_priority("STAGING"), 1);
    assert_eq!(env_priority("dev-1"), 2);
    assert_eq!(env_priority("preview"), 3);
}

#[test]
fn pull_request_icons() {
    let mut pr = PullRequest {
        number: 7,
        title: "Fix".to_string(),
        state: "open".to_string(),
        author: "me".to_string(),
        branch: "fix".to_string(),
        updated_at: "2024-01-01T00:00:00Z".to_string(),
        draft: false,
        reviews_approved: 0,
        checks_status: "none".to_string(),
    };
    assert_eq!(pr_icon(&pr), ("\u{25cf}", Color::Green));
    pr.state = "closed".to_string();
    assert_eq!(pr_icon(&pr), ("\u{2717}", Color::Red));
    pr.draft = true;
    assert_eq!(pr_icon(&pr), ("\u{25cb}", Color::DarkGray));
}
