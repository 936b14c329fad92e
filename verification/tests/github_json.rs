use houston::api::ProviderError;
use houston::doc::DocValue;
use houston::github::{
    actions_from_error, actions_from_json, branches_from_json, deployment_entries, deployment_from, deployment_id,
    deployment_ids, deployment_status, deployments_from_listing, dispatch_payload, dispatched_run, inputs_from_yaml,
    jobs_from_json, pull_requests_from_json, repo_from, resolve_repo, runs_from_json, workflow_content,
    workflow_inputs, workflow_path,
};
use base64::Engine;

fn encoded(text: &str) -> DocValue {
    obj(vec![("content", t(&base64::engine::general_purpose::STANDARD.encode(text)))])
}

fn t(s: &str) -> DocValue {
    DocValue::Text(s.to_string())
}

fn n(v: u64) -> DocValue {
    DocValue::Number(Some(v))
}

fn obj(entries: Vec<(&str, DocValue)>) -> DocValue {
    DocValue::Object(entries.into_iter().map(|(k, v)| (t(k), v)).collect())
}

#[test]
fn workflows_need_name_path_and_id() {
    let json = obj(vec![(
        "workflows",
        DocValue::List(vec![
            obj(vec![("name", t("CI")), ("path", t(".github/workflows/ci.yml")), ("id", n(17))]),
            obj(vec![("name", t("No id")), ("path", t("x.yml"))]),
            obj(vec![("name", t("Odd path")), ("path", DocValue::Null), ("id", n(3))]),
        ]),
    )]);
    let actions = actions_from_json(&json);
    assert_eq!(actions.len(), 2);
    assert_eq!(actions[0].name, "CI");
    assert_eq!(actions[0].description.as_deref(), Some("Workflow: .github/workflows/ci.yml"));
    assert_eq!(actions[0].workflow_id, "17");
    assert_eq!(actions[1].description, None);
    assert!(actions_from_json(&obj(vec![])).is_empty());
}

#[test]
fn a_missing_workflows_listing_is_empty_but_other_errors_are_reported() {
    assert!(actions_from_error("GitHub: Not Found").unwrap().is_empty());
    match actions_from_error("rate limited") {
        Err(ProviderError::Api(m)) => assert_eq!(m, "rate limited"),
        _ => panic!("expected an API error"),
    }
}

#[test]
fn runs_take_their_fields_with_defaults() {
    let json = obj(vec![(
        "workflow_runs",
        DocValue::List(vec![
            obj(vec![
                ("id", n(900)),
                ("status", t("completed")),
                ("conclusion", t("success")),
                ("created_at", t("2024-01-01T00:00:00Z")),
                ("updated_at", t("2024-01-01T00:05:00Z")),
                ("head_branch", t("main")),
            ]),
            obj(vec![("id", n(901))]),
        ]),
    )]);
    let runs = runs_from_json(&json);
    assert_eq!(runs.len(), 1);
    assert_eq!(runs[0].id, "900");
    assert_eq!(runs[0].workflow_name, "Unknown");
    assert_eq!(runs[0].branch.as_deref(), Some("main"));
    assert_eq!(runs[0].finished_at.as_deref(), Some("2024-01-01T00:05:00Z"));
}

#[test]
fn jobs_keep_their_valid_steps() {
    let json = obj(vec![(
        "jobs",
        DocValue::List(vec![obj(vec![
            ("id", n(5)),
            ("name", t("build")),
            ("status", t("completed")),
            ("conclusion", t("success")),
            (
                "steps",
                DocValue::List(vec![
                    obj(vec![("name", t("checkout")), ("status", t("completed")), ("number", n(1))]),
                    obj(vec![("name", t("broken")), ("status", t("completed"))]),
                ]),
            ),
        ])]),
    )]);
    let jobs = jobs_from_json(&json);
    assert_eq!(jobs.len(), 1);
    assert_eq!(jobs[0].steps.len(), 1);
    assert_eq!(jobs[0].steps[0].name, "checkout");
    assert_eq!(jobs[0].steps[0].number, 1);
}

#[test]
fn deployments_are_read_with_defaults_and_short_hashes() {
    let listing = DocValue::List(vec![obj(vec![
        ("id", n(77)),
        ("sha", t("abcdef0123456789")),
        ("ref", t("v1.2.3")),
        ("created_at", t("2024-05-05T05:05:05Z")),
        ("creator", obj(vec![("login", t("bob"))])),
    ])]);
    let entries = deployment_entries(&listing).unwrap();
    let id = deployment_id(&entries[0]).unwrap();
    let statuses = DocValue::List(vec![obj(vec![("state", t("success"))])]);
    let d = deployment_from(&entries[0], id, deployment_status(Some(&statuses)));
    assert_eq!(d.id, 77);
    assert_eq!(d.environment, "unknown");
    assert_eq!(d.sha, "abcdef0");
    assert_eq!(d.creator, "bob");
    assert_eq!(d.status, "success");
    assert_eq!(deployment_status(None), "unknown");
    assert_eq!(deployment_status(Some(&DocValue::List(vec![]))), "unknown");
    assert!(deployment_entries(&obj(vec![])).is_none());
}

#[test]
fn pull_requests_are_read_with_defaults() {
    let json = DocValue::List(vec![obj(vec![
        ("number", n(12)),
        ("title", t("Tidy")),
        ("state", t("open")),
        ("head", obj(vec![("ref", t("tidy"))])),
        ("draft", DocValue::Bool(true)),
    ])]);
    let prs = pull_requests_from_json(&json);
    assert_eq!(prs.len(), 1);
    assert_eq!(prs[0].author, "unknown");
    assert_eq!(prs[0].branch, "tidy");
    assert!(prs[0].draft);
    assert_eq!(prs[0].checks_status, "none");
}

#[test]
fn branches_mark_the_default_one() {
    let info = obj(vec![("default_branch", t("trunk"))]);
    let branches = vec![obj(vec![("name", t("trunk"))]), obj(vec![("name", t("feature"))]), obj(vec![])];
    let bs = branches_from_json(&info, &branches);
    assert_eq!(bs.len(), 2);
    assert!(bs[0].is_default);
    assert!(!bs[1].is_default);
    let no_default = branches_from_json(&obj(vec![]), &vec![obj(vec![("name", t("main"))])]);
    assert!(no_default[0].is_default);
}

#[test]
fn workflow_files_are_decoded_from_base64() {
    // "on: push\n" in standard base64, split over two lines.
    let file = obj(vec![("content", t("b246IHB1\nc2gK\n"))]);
    assert_eq!(workflow_content(&file).unwrap(), "on: push\n");
    match workflow_content(&obj(vec![("content", t("%%%"))])) {
        Err(ProviderError::Api(m)) => assert!(m.starts_with("Base64 decode error: ")),
        _ => panic!("expected a decode error"),
    }
    // 0xff 0xfe is not UTF-8.
    match workflow_content(&obj(vec![("content", t("//4="))])) {
        Err(ProviderError::Api(m)) => assert!(m.starts_with("UTF-8 decode error: ")),
        _ => panic!("expected a UTF-8 error"),
    }
    match workflow_content(&obj(vec![])) {
        Err(ProviderError::Api(m)) => assert_eq!(m, "No workflow content found"),
        _ => panic!("expected a missing content error"),
    }
    assert_eq!(workflow_path(&obj(vec![("path", t("a.yml"))])).unwrap(), "a.yml");
    assert!(workflow_path(&obj(vec![])).is_err());
}

#[test]
fn dispatch_inputs_are_read_in_file_order() {
    let yaml = obj(vec![(
        "on",
        obj(vec![(
            "workflow_dispatch",
            obj(vec![(
                "inputs",
                obj(vec![
                    ("environment", obj(vec![
                        ("type", t("choice")),
                        ("required", DocValue::Bool(true)),
                        ("options", DocValue::List(vec![t("dev"), t("prod"), n(3)])),
                    ])),
                    ("dry_run", obj(vec![("type", t("boolean")), ("default", t("true"))])),
                ]),
            )]),
        )]),
    )]);
    let inputs = inputs_from_yaml(&yaml);
    assert_eq!(inputs.len(), 2);
    assert_eq!(inputs[0].name, "environment");
    assert!(inputs[0].required);
    assert_eq!(inputs[0].options, Some(vec!["dev".to_string(), "prod".to_string(), "".to_string()]));
    assert_eq!(inputs[1].default.as_deref(), Some("true"));
    assert!(!inputs[1].required);
    assert!(inputs_from_yaml(&obj(vec![("on", t("push"))])).is_empty());
}

#[test]
fn repositories_resolve_to_owner_and_name() {
    assert_eq!(resolve_repo("acme/api", None, None), Some(("acme".to_string(), "api".to_string())));
    assert_eq!(resolve_repo("a/b/c", None, None), Some(("a".to_string(), "b/c".to_string())));
    assert_eq!(resolve_repo("api", Some("org"), Some("me")), Some(("org".to_string(), "api".to_string())));
    assert_eq!(resolve_repo("api", None, Some("me")), Some(("me".to_string(), "api".to_string())));
    assert_eq!(resolve_repo("api", None, None), None);
    assert_eq!(repo_from(Some("o/r".to_string()), "r".to_string(), None).name, "o/r");
    assert_eq!(repo_from(None, "r".to_string(), None).name, "r");
}

#[test]
fn dispatch_payloads_and_runs() {
    match dispatch_payload("main", &vec![]) {
        DocValue::Object(entries) => assert_eq!(entries.len(), 1),
        _ => panic!("expected an object"),
    }
    match dispatch_payload("main", &vec![("env".to_string(), "prod".to_string())]) {
        DocValue::Object(entries) => {
            assert_eq!(entries.len(), 2);
            match &entries[1].1 {
                DocValue::Object(inputs) => assert_eq!(inputs.len(), 1),
                _ => panic!("expected the inputs object"),
            }
        }
        _ => panic!("expected an object"),
    }
    let run = dispatched_run("deploy.yml", "main", 1700000000, "2023-11-14T22:13:20Z".to_string());
    assert_eq!(run.id, "run_1700000000");
    assert_eq!(run.status, "queued");
    assert_eq!(run.branch.as_deref(), Some("main"));
    assert_eq!(dispatched_run("x", "y", -5, String::new()).id, "run_-5");
}

#[test]
fn listed_deployments_without_an_id_are_skipped() {
    let listing = DocValue::List(vec![
        obj(vec![("id", n(5)), ("environment", t("production"))]),
        obj(vec![("environment", t("no id"))]),
        obj(vec![("id", n(9)), ("environment", t("staging")), ("sha", t("1234567890"))]),
    ]);
    assert_eq!(deployment_ids(&listing), vec![5, 9]);
    let statuses = vec![Some(DocValue::List(vec![obj(vec![("state", t("failure"))])])), None];
    let ds = deployments_from_listing(&listing, &statuses);
    assert_eq!(ds.len(), 2);
    assert_eq!((ds[0].id, ds[0].environment.as_str(), ds[0].status.as_str()), (5, "production", "failure"));
    assert_eq!((ds[1].id, ds[1].environment.as_str(), ds[1].status.as_str()), (9, "staging", "unknown"));
    assert_eq!(ds[1].sha, "1234567");
    assert!(deployment_ids(&obj(vec![])).is_empty());
    assert!(deployments_from_listing(&obj(vec![]), &vec![]).is_empty());
}

#[test]
fn workflow_inputs_come_from_the_parsed_file() {
    let yaml = "name: Deploy\non:\n  workflow_dispatch:\n    inputs:\n      environment:\n        type: choice\n        required: true\n        options: [dev, prod]\n      note:\n        description: Why\n";
    let inputs = workflow_inputs(&encoded(yaml)).unwrap();
    assert_eq!(inputs.len(), 2);
    assert_eq!(inputs[0].name, "environment");
    assert!(inputs[0].required);
    assert_eq!(inputs[0].input_type.as_deref(), Some("choice"));
    assert_eq!(inputs[0].options, Some(vec!["dev".to_string(), "prod".to_string()]));
    assert_eq!(inputs[1].name, "note");
    assert_eq!(inputs[1].description.as_deref(), Some("Why"));
    assert!(!inputs[1].required);
    assert!(workflow_inputs(&encoded("on: push\n")).unwrap().is_empty());
}

#[test]
fn workflow_input_errors_are_reported() {
    match workflow_inputs(&encoded("on: [unclosed\n")) {
        Err(ProviderError::Api(m)) => assert!(m.starts_with("YAML parse error: ") && m.len() > 18),
        _ => panic!("expected a YAML error"),
    }
    match workflow_inputs(&obj(vec![])) {
        Err(ProviderError::Api(m)) => assert_eq!(m, "No workflow content found"),
        _ => panic!("expected a missing content error"),
    }
    match workflow_inputs(&obj(vec![("content", t("%%%"))])) {
        Err(ProviderError::Api(m)) => assert!(m.starts_with("Base64 decode error: ")),
        _ => panic!("expected a decode error"),
    }
}
