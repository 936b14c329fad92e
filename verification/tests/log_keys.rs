use houston::api::{ActionRun, JobInfo, JobStep};
use houston::app_state::{AppMsg, AppState};
use houston::keys::{Key, KeyOutcome, KeyPress};
use houston::panel::PanelId;

fn press(c: char) -> KeyPress {
    KeyPress { key: Key::Char(c), control: false }
}

fn job(name: &str, steps: usize) -> JobInfo {
    JobInfo {
        id: 1,
        name: name.to_string(),
        status: "completed".to_string(),
        conclusion: Some("success".to_string()),
        steps: (0..steps)
            .map(|i| JobStep { name: format!("step {}", i), status: "completed".to_string(), conclusion: None, number: i as u64 })
            .collect(),
    }
}

fn opened() -> (AppState, bool) {
    let mut a = AppState::new(vec!["acme/api".to_string()]);
    let mut search = false;
    a.handle_key(press('3'), &mut search);
    a.handle_message(
        AppMsg::RunsLoaded(vec![ActionRun {
            id: "8".to_string(),
            workflow_name: "CI".to_string(),
            status: "completed".to_string(),
            conclusion: None,
            started_at: None,
            finished_at: None,
            branch: None,
        }]),
        0,
    );
    assert_eq!(a.handle_key(KeyPress { key: Key::Enter, control: false }, &mut search), KeyOutcome::LoadLogs);
    // Two jobs of 12 steps: 2 * (2 + 12) = 28 lines.
    a.handle_message(AppMsg::JobsLoaded(vec![job("build", 12), job("test", 12)]), 0);
    a.handle_key(KeyPress { key: Key::Tab, control: false }, &mut search);
    assert_eq!(a.window_manager.focused(), PanelId::Logs);
    a.handle_key(press('z'), &mut search);
    assert_eq!(a.window_manager.zoomed(), Some(PanelId::Logs));
    (a, search)
}

#[test]
fn zoomed_log_viewer_scrolls_and_jumps() {
    let (mut a, mut search) = opened();
    assert_eq!(a.log_viewer.as_ref().unwrap().total_lines(), 28);
    a.handle_key(press('j'), &mut search);
    a.handle_key(press('j'), &mut search);
    assert_eq!(a.log_viewer.as_ref().unwrap().scroll_offset, 2);
    a.handle_key(press('k'), &mut search);
    assert_eq!(a.log_viewer.as_ref().unwrap().scroll_offset, 1);
    a.handle_key(press('G'), &mut search);
    assert_eq!(a.log_viewer.as_ref().unwrap().scroll_offset, 8);
    a.handle_key(press('g'), &mut search);
    assert_eq!(a.log_viewer.as_ref().unwrap().scroll_offset, 0);
    // Other keys do nothing while the viewer is zoomed.
    a.handle_key(press('3'), &mut search);
    assert_eq!(a.window_manager.zoomed(), Some(PanelId::Logs));
    a.handle_key(KeyPress { key: Key::Esc, control: false }, &mut search);
    assert_eq!(a.window_manager.zoomed(), None);
}

#[test]
fn scrolling_down_stops_at_the_last_line() {
    let (mut a, mut search) = opened();
    for _ in 0..40 {
        a.handle_key(press('j'), &mut search);
    }
    assert_eq!(a.log_viewer.as_ref().unwrap().scroll_offset, 27);
    a.handle_key(press('g'), &mut search);
    a.handle_key(press('k'), &mut search);
    assert_eq!(a.log_viewer.as_ref().unwrap().scroll_offset, 0);
}
