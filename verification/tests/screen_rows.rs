use houston::api::{ActionRun, DeploymentInfo, JobInfo, JobStep, PullRequest, Tag};
use houston::chrome::{footer_line, header_line, HeaderStats, MainView};
use houston::deployments_view::{deployments_panel_lines, group_by_environment};
use houston::lists::{
    list_selection, panel_title, repos_panel_items, repos_panel_title, tags_panel_items, workflows_panel_items,
};
use houston::log_lines::{log_viewer_header, log_viewer_lines, logs_panel_lines};
use houston::log_view::LogViewerState;
use houston::panel::{Color, PanelContext, Rect, Style};
use houston::pull_requests_view::{pull_request_rows, pull_requests_message};
use houston::runs_view::{runs_compact_items, runs_table_rows, runs_view_rows};
use houston::screen::Line;

fn text(line: &Line) -> String {
    line.spans.iter().map(|s| s.text.as_str()).collect::<String>()
}

fn run(id: &str, name: &str, status: &str, conclusion: Option<&str>, branch: Option<&str>) -> ActionRun {
    ActionRun {
        id: id.to_string(),
        workflow_name: name.to_string(),
        status: status.to_string(),
        conclusion: conclusion.map(|c| c.to_string()),
        started_at: Some("2024-03-01T09:15:30Z".to_string()),
        finished_at: None,
        branch: branch.map(|b| b.to_string()),
    }
}

fn deployment(id: u64, env: &str, created_at: &str, status: &str) -> DeploymentInfo {
    DeploymentInfo {
        id,
        environment: env.to_string(),
        sha: "0123456789".to_string(),
        ref_name: "main".to_string(),
        status: status.to_string(),
        created_at: created_at.to_string(),
        creator: "alice".to_string(),
    }
}

#[test]
fn header_shows_repo_counts_and_spinner() {
    let stats = HeaderStats { repo_count: 3, workflow_count: 2, runs_success: 5, runs_failed: 1, runs_pending: 2, deployments_count: 4 };
    let line = header_line(Some("owner/repo"), MainView::Runs, true, 250, &stats);
    assert_eq!(text(&line), "\u{26a1}HOUSTON \u{2502} owner/repo \u{2502} \u{2713}5 \u{25cf}2 \u{2717}1 \u{2502} RUNS \u{25d1}");
    let idle = header_line(None, MainView::Repos, false, 0, &stats);
    assert_eq!(text(&idle), "\u{26a1}HOUSTON \u{2502} - \u{2502} \u{1f4e6}3 \u{2502} REPOS");
    assert_eq!(idle.style.bg, Some(Color::Rgb(30, 30, 40)));
}

#[test]
fn header_spinner_turns_every_tenth_of_a_second() {
    let stats = HeaderStats::default();
    let frames: Vec<String> = [0u64, 100, 200, 300, 400]
        .iter()
        .map(|t| header_line(None, MainView::Tags, true, *t, &stats).spans.last().unwrap().text.clone())
        .collect();
    assert_eq!(frames, vec!["\u{25d0}", "\u{25d3}", "\u{25d1}", "\u{25d2}", "\u{25d0}"]);
}

#[test]
fn footer_shows_notification_colored_by_failure() {
    let bad = footer_line(MainView::Repos, Some("Workflow dispatch FAILED"), false);
    assert_eq!(text(&bad), " Workflow dispatch FAILED ");
    assert_eq!(bad.spans[0].style.bg, Some(Color::Red));
    let good = footer_line(MainView::Repos, Some("Triggered CI"), false);
    assert_eq!(good.spans[0].style.bg, Some(Color::Green));
}

#[test]
fn footer_shows_tabs_and_shortcuts() {
    let line = footer_line(MainView::Runs, None, false);
    assert_eq!(
        text(&line),
        " 1:Repos  2:Workflows  3:Runs  4:Envs  5:Tags \u{2502} \u{21b5}:jobs r:refresh /:filter \u{2502} ?:help ^C:quit"
    );
    assert_eq!(line.style.bg, Some(Color::Rgb(20, 20, 30)));
    assert_eq!(line.spans[2].text, " 3");
    assert_eq!(line.spans[2].style.bg, Some(Color::Cyan));
    let help = footer_line(MainView::Tags, None, true);
    assert!(text(&help).ends_with("?:close ^C:quit"));
}

#[test]
fn list_panels_rows_and_titles() {
    let ctx = PanelContext::new(Rect::new(0, 0, 80, 24), true, false);
    assert_eq!(panel_title("Runs", false), " Runs ");
    assert_eq!(panel_title("Runs", true), " Runs [ZOOMED - z to exit] ");
    assert_eq!(repos_panel_title(&ctx, "ho"), " Repositories [/ho] ");
    assert_eq!(repos_panel_title(&ctx, ""), " Repositories ");
    let repos = vec!["a/one".to_string(), "b/two".to_string()];
    let items = repos_panel_items(&repos, &vec!["b/two".to_string()]);
    assert_eq!(items[0].text, "a/one");
    assert_eq!(items[1].text, "\u{2605} b/two");
    assert_eq!(items[1].style, Style::fg_only(Color::Yellow));
    assert_eq!(repos_panel_items(&[], &vec![])[0].text, "No repositories");
    let tags = vec![Tag { name: "v1".to_string() }];
    assert_eq!(tags_panel_items(&tags, true)[0].text, "v1");
    assert_eq!(tags_panel_items(&[], true)[0].text, "Loading...");
    assert_eq!(tags_panel_items(&[], false)[0].text, "No tags");
    assert_eq!(workflows_panel_items(&ctx, &[], false)[0].text, "No workflows");
    assert_eq!(list_selection(0, 3), None);
    assert_eq!(list_selection(2, 1), Some(1));
}

#[test]
fn workflow_descriptions_hide_in_compact_panels() {
    let actions = vec![houston::api::Action {
        name: "Deploy".to_string(),
        description: Some("Workflow: .github/workflows/deploy.yml".to_string()),
        workflow_id: "42".to_string(),
    }];
    let wide = PanelContext::new(Rect::new(0, 0, 80, 24), false, false);
    let small = PanelContext::new(Rect::new(0, 0, 20, 5), false, false);
    assert_eq!(workflows_panel_items(&wide, &actions, false)[0].text, "Deploy - Workflow: .github/workflows/deploy.yml");
    assert_eq!(workflows_panel_items(&small, &actions, false)[0].text, "Deploy");
}

#[test]
fn runs_table_rows_show_status_names_and_times() {
    let runs = vec![
        run("1", "Continuous Integration Pipeline", "completed", Some("success"), Some("main")),
        run("2", "Deploy", "in_progress", None, None),
    ];
    let rows = runs_table_rows(&runs, 1, false);
    assert_eq!(rows.len(), 2);
    assert_eq!(rows[0].spans[0].text, "\u{2713} success");
    assert_eq!(rows[0].spans[1].text, "Continuous Integration...");
    assert_eq!(rows[0].spans[3].text, "09:15");
    assert_eq!(rows[1].spans[0].text, "\u{25cf} in_progress");
    assert_eq!(rows[1].spans[2].text, "-");
    assert_eq!(rows[1].style.bg, Some(Color::DarkGray));
    assert_eq!(rows[0].style, Style::plain());
    assert_eq!(text(&runs_table_rows(&[], 0, true)[0]), "Loading...");
    assert_eq!(text(&runs_table_rows(&[], 0, false)[0]), "No runs found");
}

#[test]
fn runs_view_keeps_full_names_and_start() {
    let runs = vec![run("1", "Continuous Integration Pipeline", "failure", None, Some("feature/x"))];
    let rows = runs_view_rows(&runs, 0, false);
    assert_eq!(rows[0].spans[0].text, "\u{2717} failure");
    assert_eq!(rows[0].spans[1].text, "Continuous Integration Pipeline");
    assert_eq!(rows[0].spans[3].text, "09:15:30Z");
    assert_eq!(rows[0].spans[4].text, "-");
}

#[test]
fn compact_runs_show_icon_and_short_name() {
    let runs = vec![run("1", "A workflow with a long name", "queued", None, None)];
    let items = runs_compact_items(&runs, false);
    assert_eq!(items[0].text, "\u{25cf} A workflow with a...");
    assert_eq!(items[0].style.fg, Some(Color::Yellow));
    assert_eq!(runs_compact_items(&[], false)[0].text, "No runs");
}

fn viewer() -> LogViewerState {
    let mut v = LogViewerState::new("123".to_string(), "CI".to_string());
    v.loading = false;
    v.jobs = vec![JobInfo {
        id: 1,
        name: "build".to_string(),
        status: "completed".to_string(),
        conclusion: Some("success".to_string()),
        steps: vec![
            JobStep { name: "checkout".to_string(), status: "completed".to_string(), conclusion: Some("success".to_string()), number: 1 },
            JobStep { name: "test".to_string(), status: "in_progress".to_string(), conclusion: None, number: 2 },
        ],
    }];
    v
}

#[test]
fn logs_panel_lists_jobs_and_steps() {
    let v = viewer();
    let lines = logs_panel_lines(Some(&v));
    let texts: Vec<String> = lines.iter().map(text).collect();
    assert_eq!(
        texts,
        vec!["Workflow: CI", "Run ID: 123", "", "\u{2713} build (success)", "  \u{2713} checkout", "  \u{25cf} test", ""]
    );
    let placeholder: Vec<String> = logs_panel_lines(None).iter().map(text).collect();
    assert_eq!(placeholder, vec!["", "Select a run to view logs", "", "Press Enter on a run in the Runs panel"]);
}

#[test]
fn logs_panel_scrolls_by_the_offset() {
    let mut v = viewer();
    v.scroll_offset = 3;
    let texts: Vec<String> = logs_panel_lines(Some(&v)).iter().map(text).collect();
    assert_eq!(texts[0], "\u{2713} build (success)");
    v.scroll_offset = 50;
    assert!(logs_panel_lines(Some(&v)).is_empty());
}

#[test]
fn full_screen_viewer_lines() {
    let v = viewer();
    assert_eq!(text(&log_viewer_header(&v)), "Run Details: CI (123) \u{2502} \u{2713} Loaded");
    let texts: Vec<String> = log_viewer_lines(&v).iter().map(text).collect();
    assert_eq!(texts, vec!["\u{2713} build (success)", "  \u{2713} checkout", "  \u{25cf} test", ""]);
    let loading = LogViewerState::new("9".to_string(), "Deploy".to_string());
    assert_eq!(text(&log_viewer_header(&loading)), "Run Details: Deploy (9) \u{2502} \u{25cf} Loading...");
    assert_eq!(text(&log_viewer_lines(&loading)[0]), "Loading...");
}

#[test]
fn deployments_grouped_by_priority_newest_first() {
    let deps = vec![
        deployment(1, "dev", "2024-01-01", "success"),
        deployment(2, "production", "2024-01-02", "success"),
        deployment(3, "dev", "2024-01-05", "failure"),
        deployment(4, "preview", "2024-01-03", "pending"),
        deployment(5, "production", "2024-01-04", "inactive"),
        deployment(6, "staging", "2024-01-04", "success"),
    ];
    let groups = group_by_environment(&deps);
    let envs: Vec<&str> = groups.iter().map(|g| g.environment.as_str()).collect();
    assert_eq!(envs, vec!["production", "staging", "dev", "preview"]);
    let ids: Vec<Vec<u64>> = groups.iter().map(|g| g.deployments.iter().map(|d| d.id).collect()).collect();
    assert_eq!(ids, vec![vec![5, 2], vec![6], vec![3, 1], vec![4]]);
}

#[test]
fn deployments_of_same_time_keep_their_order() {
    let deps = vec![deployment(1, "qa", "2024-01-01", "success"), deployment(2, "qa", "2024-01-01", "success")];
    let groups = group_by_environment(&deps);
    let ids: Vec<u64> = groups[0].deployments.iter().map(|d| d.id).collect();
    assert_eq!(ids, vec![1, 2]);
}

#[test]
fn deployments_panel_lines_mark_selection_and_latest() {
    let ctx = PanelContext::new(Rect::new(0, 0, 60, 20), true, false);
    let deps = vec![deployment(1, "prod", "2024-01-01", "success"), deployment(2, "prod", "2024-01-02", "failure")];
    let lines = deployments_panel_lines(&ctx, &deps, 1, false);
    let texts: Vec<String> = lines.iter().map(text).collect();
    let rule: String = std::iter::repeat('\u{2501}').take(20).collect();
    assert_eq!(texts[0], format!("\u{2501}\u{2501}\u{2501} PROD (2) {}", rule));
    assert_eq!(texts[1], "  \u{2717} main 0123456 by alice");
    assert_eq!(texts[2], "\u{25b6} \u{2713} main 0123456 by alice");
    assert_eq!(texts[3], "");
    assert_eq!(lines[1].spans[2].style, Style::fg_bold(Color::White));
    assert_eq!(lines[2].spans[2].style, Style::fg_only(Color::Gray));
    assert_eq!(lines[2].style.bg, Some(Color::DarkGray));
    let narrow = PanelContext::new(Rect::new(0, 0, 40, 20), true, false);
    let narrow_lines = deployments_panel_lines(&narrow, &deps, 0, false);
    assert_eq!(text(&narrow_lines[0]), format!("\u{2501}\u{2501}\u{2501} PROD (2) {}", rule));
    let tight = PanelContext::new(Rect::new(0, 0, 25, 20), true, false);
    let tight_lines = deployments_panel_lines(&tight, &deps, 0, false);
    assert_eq!(text(&tight_lines[0]), "\u{2501}\u{2501}\u{2501} PROD (2) \u{2501}\u{2501}\u{2501}\u{2501}\u{2501}\u{2501}");
    assert_eq!(text(&narrow_lines[1]), "\u{25b6} \u{2717} main 0123456");
    assert_eq!(text(&deployments_panel_lines(&ctx, &[], 0, true)[0]), "Loading deployments...");
    assert_eq!(text(&deployments_panel_lines(&ctx, &[], 0, false)[0]), "No deployments found");
}

#[test]
fn pull_request_rows_and_messages() {
    let prs = vec![PullRequest {
        number: 42,
        title: "Add a verified window manager to the dashboard interface".to_string(),
        state: "open".to_string(),
        author: "contributor-with-long-name".to_string(),
        branch: "feature/window-manager".to_string(),
        updated_at: "2024-02-03T04:05:06Z".to_string(),
        draft: false,
        reviews_approved: 0,
        checks_status: "none".to_string(),
    }];
    let rows = pull_request_rows(&prs, 0);
    let cells: Vec<&str> = rows[0].spans.iter().map(|s| s.text.as_str()).collect();
    assert_eq!(
        cells,
        vec![
            "\u{25b6} #42",
            "\u{25cf}",
            "Add a verified window manager to the dashboa\u{2026}",
            "contributor-wi\u{2026}",
            "feature/window-mana\u{2026}",
            "2024-02-03",
        ]
    );
    assert_eq!(rows[0].spans[2].style, Style::fg_bold(Color::White));
    assert_eq!(pull_requests_message(&[], true), Some("Loading pull requests..."));
    assert_eq!(pull_requests_message(&[], false), Some("No open pull requests"));
    assert_eq!(pull_requests_message(&prs, true), None);
}
