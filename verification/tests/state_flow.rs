use houston::api::{Action, ActionRun, Branch, ProviderError, Tag, WorkflowInputField};
use houston::app_state::{AppMsg, AppState};
use houston::chrome::HeaderStats;
use houston::config::Config;
use houston::dialog::{DialogFocus, DialogState, DialogType};
use houston::dialog_view::{dialog_screen, dialog_screen_in};
use houston::inputs::{InputType, UIWorkflowInputField};
use houston::keys::{Key, KeyOutcome, KeyPress};
use houston::layout::PresetLayout;
use houston::panel::{Color, PanelId, Rect};
use houston::screen::{centered_rect, screen_areas, Line};

fn text(line: &Line) -> String {
    line.spans.iter().map(|s| s.text.as_str()).collect::<String>()
}

fn press(c: char) -> KeyPress {
    KeyPress { key: Key::Char(c), control: false }
}

fn key(k: Key) -> KeyPress {
    KeyPress { key: k, control: false }
}

fn app() -> AppState {
    AppState::new(vec!["acme/api".to_string(), "acme/web".to_string(), "other/tool".to_string()])
}

fn action(name: &str, id: &str) -> Action {
    Action { name: name.to_string(), description: None, workflow_id: id.to_string() }
}

#[test]
fn control_keys_quit() {
    let mut a = app();
    let mut search = false;
    assert_eq!(a.handle_key(KeyPress { key: Key::Char('c'), control: true }, &mut search), KeyOutcome::Quit);
    assert_eq!(a.handle_key(KeyPress { key: Key::Char('q'), control: true }, &mut search), KeyOutcome::Quit);
}

#[test]
fn search_filters_and_escape_clears() {
    let mut a = app();
    let mut search = false;
    a.handle_key(press('/'), &mut search);
    assert!(search);
    a.handle_key(press('a'), &mut search);
    a.handle_key(press('c'), &mut search);
    assert_eq!(a.search_query, "ac");
    assert_eq!(a.filtered_repos, vec!["acme/api".to_string(), "acme/web".to_string()]);
    a.handle_key(key(Key::Backspace), &mut search);
    assert_eq!(a.search_query, "a");
    a.handle_key(key(Key::Esc), &mut search);
    assert!(!search);
    assert_eq!(a.search_query, "");
    assert_eq!(a.filtered_repos.len(), 3);
}

#[test]
fn enter_leaves_search_keeping_the_filter() {
    let mut a = app();
    let mut search = false;
    a.handle_key(press('/'), &mut search);
    a.handle_key(press('t'), &mut search);
    a.handle_key(press('o'), &mut search);
    a.handle_key(key(Key::Enter), &mut search);
    assert!(!search);
    assert_eq!(a.filtered_repos, vec!["other/tool".to_string()]);
}

#[test]
fn number_keys_switch_presets_and_letters_toggle_panels() {
    let mut a = app();
    let mut search = false;
    a.handle_key(press('3'), &mut search);
    assert_eq!(a.window_manager.current_preset(), PresetLayout::Runs);
    assert_eq!(a.window_manager.focused(), PanelId::Runs);
    a.handle_key(press('d'), &mut search);
    assert!(a.window_manager.is_visible(PanelId::Deployments));
    a.handle_key(press('l'), &mut search);
    assert!(!a.window_manager.is_visible(PanelId::Logs));
    a.handle_key(press('z'), &mut search);
    assert_eq!(a.window_manager.zoomed(), Some(PanelId::Runs));
    a.handle_key(key(Key::Esc), &mut search);
    assert_eq!(a.window_manager.zoomed(), None);
}

#[test]
fn arrows_move_in_the_focused_panel() {
    let mut a = app();
    let mut search = false;
    a.handle_key(key(Key::Down), &mut search);
    assert_eq!(a.selected_repo, 1);
    a.handle_key(press('j'), &mut search);
    a.handle_key(press('j'), &mut search);
    assert_eq!(a.selected_repo, 0);
    a.handle_key(press('k'), &mut search);
    assert_eq!(a.selected_repo, 2);
    a.handle_key(key(Key::Tab), &mut search);
    assert_eq!(a.window_manager.focused(), PanelId::Workflows);
    a.handle_key(key(Key::BackTab), &mut search);
    assert_eq!(a.window_manager.focused(), PanelId::Repos);
}

#[test]
fn space_on_workflows_asks_to_execute() {
    let mut a = app();
    let mut search = false;
    a.handle_message(AppMsg::ActionsLoaded(vec![action("CI", "7")]), 0);
    a.handle_key(key(Key::Tab), &mut search);
    assert_eq!(a.handle_key(press(' '), &mut search), KeyOutcome::ExecuteSelectedAction);
}

#[test]
fn enter_on_runs_opens_the_log_viewer() {
    let mut a = app();
    let mut search = false;
    a.handle_key(press('3'), &mut search);
    a.handle_message(
        AppMsg::RunsLoaded(vec![ActionRun {
            id: "55".to_string(),
            workflow_name: "CI".to_string(),
            status: "completed".to_string(),
            conclusion: Some("success".to_string()),
            started_at: None,
            finished_at: None,
            branch: None,
        }]),
        0,
    );
    a.handle_key(press('l'), &mut search);
    assert!(!a.window_manager.is_visible(PanelId::Logs));
    assert_eq!(a.handle_key(key(Key::Enter), &mut search), KeyOutcome::LoadLogs);
    assert!(a.window_manager.is_visible(PanelId::Logs));
    let v = a.log_viewer.as_ref().unwrap();
    assert_eq!(v.run_id, "55");
    assert!(v.loading);
    let request = a.jobs_request().unwrap();
    assert_eq!(request.repo, "acme/api");
    assert_eq!(request.run_id, "55");
}

#[test]
fn failed_loads_notify_and_expire() {
    let mut a = app();
    a.handle_message(AppMsg::TagsFailed("Failed to load tags".to_string()), 1000);
    assert_eq!(a.notification.as_deref(), Some("Failed to load tags"));
    a.maybe_clear_notification(3500);
    assert!(a.notification.is_some());
    a.maybe_clear_notification(4001);
    assert!(a.notification.is_none());
}

#[test]
fn loaded_branches_set_the_default_branch() {
    let mut a = app();
    a.handle_message(
        AppMsg::BranchesLoaded(vec![
            Branch { name: "develop".to_string(), is_default: false },
            Branch { name: "trunk".to_string(), is_default: true },
        ]),
        0,
    );
    assert_eq!(a.default_branch, "trunk");
    a.handle_message(AppMsg::TagsLoaded(vec![Tag { name: "v1.0".to_string() }]), 0);
    assert_eq!(a.tags_list_selected, Some(0));
}

#[test]
fn header_counts_follow_the_runs() {
    let mut a = app();
    let mk = |status: &str, conclusion: Option<&str>| ActionRun {
        id: "1".to_string(),
        workflow_name: "CI".to_string(),
        status: status.to_string(),
        conclusion: conclusion.map(|c| c.to_string()),
        started_at: None,
        finished_at: None,
        branch: None,
    };
    a.handle_message(
        AppMsg::RunsLoaded(vec![
            mk("completed", Some("success")),
            mk("completed", Some("failure")),
            mk("queued", None),
            mk("failure", None),
        ]),
        0,
    );
    let stats = a.header_stats();
    assert_eq!(
        stats,
        HeaderStats { repo_count: 3, workflow_count: 0, runs_success: 2, runs_failed: 2, runs_pending: 1, deployments_count: 0 }
    );
    assert!(!a.is_loading());
    a.start_all_loading();
    assert!(a.is_loading());
}

#[test]
fn a_step_loads_a_new_repository_once() {
    let mut a = app();
    let mut last: Option<String> = None;
    let first = a.step(&mut last, 0);
    assert_eq!(first.all_lists, Some("acme/api".to_string()));
    assert_eq!(first.runs, None);
    assert_eq!(last, Some("acme/api".to_string()));
    assert!(a.tags_loading && a.actions_loading && a.runs_loading);
    let second = a.step(&mut last, 10);
    assert_eq!(second.all_lists, None);
    a.next_repo();
    let third = a.step(&mut last, 20);
    assert_eq!(third.all_lists, Some("acme/web".to_string()));
}

#[test]
fn a_step_refreshes_visible_runs_on_their_interval() {
    let mut a = app();
    let mut last: Option<String> = Some("acme/api".to_string());
    a.window_manager.apply_preset(PresetLayout::Runs);
    let f = a.step(&mut last, 10_000);
    assert_eq!(f.runs, Some("acme/api".to_string()));
    assert_eq!(a.last_runs_refresh, Some(10_000));
    a.handle_message(AppMsg::RunsLoaded(vec![]), 10_100);
    assert_eq!(a.step(&mut last, 12_000).runs, None);
    assert_eq!(a.step(&mut last, 15_000).runs, Some("acme/api".to_string()));
}

#[test]
fn pins_are_saved_sorted_and_loaded_once() {
    let pins = vec!["zeta/x".to_string(), "alpha/y".to_string(), "zeta/x".to_string(), "mid/z".to_string()];
    let c = Config::from_pins(&pins);
    assert_eq!(c.pinned, vec!["alpha/y".to_string(), "mid/z".to_string(), "zeta/x".to_string()]);
    let loaded = Config { pinned: vec!["b".to_string(), "a".to_string(), "b".to_string()] }.pins();
    assert_eq!(loaded, vec!["b".to_string(), "a".to_string()]);
    assert!(Config::default().pinned.is_empty());
}

#[test]
fn pinned_repositories_come_first() {
    let mut a = app();
    a.pinned_repos = vec!["other/tool".to_string()];
    a.filter_repos();
    assert_eq!(a.filtered_repos, vec!["other/tool".to_string(), "acme/api".to_string(), "acme/web".to_string()]);
}

#[test]
fn centered_rect_takes_the_middle() {
    let r = centered_rect(70, 50, Rect::new(0, 0, 100, 40));
    assert_eq!(r, Rect::new(15, 10, 70, 20));
    let (header, content, footer) = screen_areas(Rect::new(0, 0, 80, 24));
    assert_eq!(header, Rect::new(0, 0, 80, 1));
    assert_eq!(content, Rect::new(0, 1, 80, 22));
    assert_eq!(footer, Rect::new(0, 23, 80, 1));
}

fn form() -> DialogState {
    DialogState {
        dialog_type: DialogType::Input {
            fields: vec![
                UIWorkflowInputField {
                    name: "environment".to_string(),
                    value: "staging".to_string(),
                    required: true,
                    description: Some("Where".to_string()),
                    input_type: InputType::Dropdown {
                        options: vec!["dev".to_string(), "staging".to_string()],
                        selected: 1,
                    },
                },
                UIWorkflowInputField {
                    name: "debug".to_string(),
                    value: "false".to_string(),
                    required: false,
                    description: None,
                    input_type: InputType::Boolean { value: false },
                },
            ],
            focus: DialogFocus::Field(0),
            repo_name: "acme/api".to_string(),
            action_name: "Deploy".to_string(),
            workflow_id: "deploy.yml".to_string(),
            is_confirmation: false,
        },
        open: true,
    }
}

#[test]
fn input_form_lines() {
    let screen = dialog_screen(&form(), Rect::new(0, 0, 100, 40));
    assert_eq!(screen.title, "Workflow Inputs");
    assert_eq!(screen.border, Color::Yellow);
    assert_eq!(screen.area, centered_rect(70, 50, Rect::new(0, 0, 100, 40)));
    let texts: Vec<String> = screen.lines.iter().map(text).collect();
    assert_eq!(
        texts,
        vec![
            "environment * (Where)",
            "\u{25b6} staging (Space to open selection, 2 options)",
            "",
            "debug",
            "  [ ]",
            "",
            "",
            "  [Confirm]  [Cancel]",
            "",
            "Tab/Shift+Tab: Navigate \u{2022} Enter: Select \u{2022} Escape: Cancel",
        ]
    );
    assert_eq!(screen.lines[1].spans[0].style.bg, Some(Color::Blue));
}

#[test]
fn confirmation_dialog_lines() {
    let mut d = form();
    if let DialogType::Input { is_confirmation, focus, .. } = &mut d.dialog_type {
        *is_confirmation = true;
        *focus = DialogFocus::ConfirmButton;
    }
    let screen = dialog_screen(&d, Rect::new(0, 0, 100, 40));
    assert_eq!(screen.title, "Confirm Action");
    assert_eq!(text(&screen.lines[0]), "Are you sure you want to run 'Deploy' on 'acme/api'?");
    assert_eq!(screen.lines[3].spans[1].style.bg, Some(Color::Green));
}

#[test]
fn dropdown_lines_scroll_with_indicators() {
    let options: Vec<String> = (0..30).map(|i| format!("opt{}", i)).collect();
    let d = DialogState {
        dialog_type: DialogType::DropdownSelection {
            field_name: "version".to_string(),
            options: options.clone(),
            filtered_options: options,
            selected: 12,
            search_query: String::new(),
            target_field_index: 0,
            scroll_offset: 10,
        },
        open: true,
    };
    let frame = Rect::new(0, 0, 100, 30);
    let screen = dialog_screen(&d, frame);
    assert_eq!(screen.title, "Select Option");
    assert_eq!(screen.border, Color::Cyan);
    let room = screen.area.height.saturating_sub(8) as usize;
    let texts: Vec<String> = screen.lines.iter().map(text).collect();
    assert_eq!(texts[0], "Select version");
    assert_eq!(texts[2], "Search: (type to filter)");
    assert_eq!(texts[4], "  \u{2191} More options above \u{2191}");
    assert_eq!(texts[5], "  opt10");
    assert_eq!(texts[7], "\u{25b6} opt12");
    assert_eq!(texts.len(), 4 + 1 + room + 1 + 2);
    assert_eq!(texts[5 + room], "  \u{2193} More options below \u{2193}");
}

#[test]
fn empty_dropdown_says_no_matches() {
    let d = DialogState {
        dialog_type: DialogType::DropdownSelection {
            field_name: "ref".to_string(),
            options: vec!["main".to_string()],
            filtered_options: vec![],
            selected: 0,
            search_query: "zz".to_string(),
            target_field_index: 0,
            scroll_offset: 0,
        },
        open: true,
    };
    let texts: Vec<String> = dialog_screen(&d, Rect::new(0, 0, 100, 30)).lines.iter().map(text).collect();
    assert_eq!(texts[2], "Search: zz");
    assert!(texts.contains(&"No matches found".to_string()));
}

#[test]
fn triggering_a_workflow_opens_its_form() {
    let mut a = app();
    a.handle_message(AppMsg::ActionsLoaded(vec![action("Deploy", "99")]), 0);
    a.handle_message(AppMsg::BranchesLoaded(vec![Branch { name: "main".to_string(), is_default: true }]), 0);
    a.handle_message(AppMsg::TagsLoaded(vec![Tag { name: "v1".to_string() }]), 0);
    let request = a.prepare_execute().unwrap();
    assert_eq!(request.repo_name, "acme/api");
    assert_eq!(request.workflow_id, "99");
    assert_eq!(request.ref_options, vec!["main".to_string(), "tags/v1".to_string()]);
    let inputs = vec![WorkflowInputField {
        name: "debug".to_string(),
        required: false,
        description: None,
        default: Some("true".to_string()),
        input_type: Some("boolean".to_string()),
        options: None,
    }];
    a.finish_execute(request, Ok(inputs), 5);
    assert!(a.dialog.is_some());
    // Confirm dispatches the workflow by its id, and reports it by name.
    assert_eq!(a.submit_dialog_step().map(|_| ()), None);
    let dispatch = a.submit_dialog_step().unwrap();
    assert_eq!(dispatch.workflow_id, "99");
    assert_eq!(dispatch.action_name, "Deploy");
    assert_eq!(dispatch.git_ref, "main");
    a.finish_dispatch(&dispatch, Ok(()), 6);
    assert_eq!(a.notification.as_deref(), Some("Triggered Deploy on acme/api @ main"));
}

#[test]
fn r_asks_for_the_runs_of_the_selected_repository() {
    let mut a = app();
    let mut search = false;
    a.handle_key(press('3'), &mut search);
    assert!(!a.runs_loading);
    assert_eq!(a.handle_key(press('r'), &mut search), KeyOutcome::RefreshRuns);
    assert!(a.runs_loading);
    assert_eq!(a.current_repo().as_deref(), Some("acme/api"));
    a.handle_message(AppMsg::RunsLoaded(vec![]), 7);
    assert!(!a.runs_loading);
}

#[test]
fn r_without_a_repository_or_runs_panel_does_nothing() {
    let mut none = AppState::new(vec![]);
    let mut search = false;
    none.handle_key(press('3'), &mut search);
    assert_eq!(none.handle_key(press('r'), &mut search), KeyOutcome::Continue);
    assert!(!none.runs_loading);
    let mut a = app();
    a.handle_key(press('2'), &mut search);
    assert_eq!(a.handle_key(press('r'), &mut search), KeyOutcome::Continue);
    assert!(!a.runs_loading);
}

#[test]
fn a_failed_input_fetch_is_reported() {
    let mut a = app();
    a.handle_message(AppMsg::ActionsLoaded(vec![action("Deploy", "99")]), 0);
    let request = a.prepare_execute().unwrap();
    a.finish_execute(request, Err(ProviderError::Api("boom".to_string())), 5);
    assert!(a.dialog.is_none());
    assert!(a.notification.as_deref().unwrap().contains("boom"));
}

#[test]
fn a_dialog_is_drawn_in_the_area_it_is_given() {
    let area = Rect::new(3, 4, 50, 12);
    let screen = dialog_screen_in(&form(), area);
    assert_eq!(screen.area, area);
    assert_eq!(screen.title, "Workflow Inputs");
    assert_eq!(screen.border, Color::Yellow);
    assert_eq!(text(&screen.lines[0]), "environment * (Where)");
}
