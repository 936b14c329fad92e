use houston::app_state::AppState;
use houston::dialog::DialogType;
use houston::inputs::{InputType, UIWorkflowInputField};
use houston::layout::{LayoutNode, PresetLayout};
use houston::panel::{PanelId, Rect};
use houston::dialog_view::dialog_screen;
use houston::screen::{centered_rect, screen_areas};
use houston::window_manager::WindowManager;

#[test]
fn the_layout_shows_the_visible_panels_of_the_preset() {
    let mut wm = WindowManager::with_preset(PresetLayout::Repos);
    let area = Rect::new(0, 0, 120, 40);
    let ids: Vec<PanelId> = wm.compute_panel_rects(area).iter().map(|(p, _)| *p).collect();
    assert_eq!(ids, vec![PanelId::Repos, PanelId::Workflows, PanelId::Tags]);
    wm.toggle_panel(PanelId::Workflows);
    let ids: Vec<PanelId> = wm.compute_panel_rects(area).iter().map(|(p, _)| *p).collect();
    assert_eq!(ids, vec![PanelId::Repos, PanelId::Tags]);
    // A panel outside the preset becomes visible but is not laid out.
    wm.toggle_panel(PanelId::Deployments);
    assert!(wm.is_visible(PanelId::Deployments));
    let ids: Vec<PanelId> = wm.compute_panel_rects(area).iter().map(|(p, _)| *p).collect();
    assert_eq!(ids, vec![PanelId::Repos, PanelId::Tags]);
    // The remaining panels share the whole width.
    let rects = wm.compute_panel_rects(area);
    assert_eq!(rects[0].1.x, 0);
    assert_eq!(rects[1].1.x + rects[1].1.width, 120);
}

#[test]
fn moving_in_an_option_list_keeps_the_selection_visible() {
    let options: Vec<String> = (0..40).map(|i| format!("v{}", i)).collect();
    let mut a = AppState::new(vec!["acme/api".to_string()]);
    a.open_dialog(vec![UIWorkflowInputField {
        name: "version".to_string(),
        value: "v0".to_string(),
        required: true,
        description: None,
        input_type: InputType::Dropdown { options, selected: 0 },
    }]);
    a.dialog_open_dropdown();
    for step in 1..=45 {
        a.dialog_navigate(1);
        match &a.dialog.as_ref().unwrap().dialog_type {
            DialogType::DropdownSelection { selected, scroll_offset, filtered_options, .. } => {
                assert_eq!(*selected, step % 40);
                assert!(*selected < filtered_options.len());
                assert!(*scroll_offset <= *selected && *selected < *scroll_offset + 15);
            }
            _ => panic!("expected the option list"),
        }
    }
    a.dialog_navigate(-1);
    match &a.dialog.as_ref().unwrap().dialog_type {
        DialogType::DropdownSelection { selected, scroll_offset, .. } => {
            assert_eq!(*selected, 4);
            assert!(*scroll_offset <= 4);
        }
        _ => panic!("expected the option list"),
    }
}

fn inside(inner: Rect, outer: Rect) -> bool {
    outer.x <= inner.x
        && inner.x as u32 + inner.width as u32 <= outer.x as u32 + outer.width as u32
        && outer.y <= inner.y
        && inner.y as u32 + inner.height as u32 <= outer.y as u32 + outer.height as u32
}

#[test]
fn nested_splits_keep_every_rectangle_in_the_area() {
    let node = LayoutNode::vertical(vec![
        LayoutNode::horizontal(vec![LayoutNode::Panel(PanelId::Repos), LayoutNode::Panel(PanelId::Workflows)]),
        LayoutNode::Panel(PanelId::Runs),
    ]);
    let area = Rect::new(5, 3, 81, 33);
    let rects = node.compute_rects(area);
    let ids: Vec<PanelId> = rects.iter().map(|(p, _)| *p).collect();
    assert_eq!(ids, vec![PanelId::Repos, PanelId::Workflows, PanelId::Runs]);
    for (_, r) in &rects {
        assert!(inside(*r, area));
    }
    // The two panels of the top row share its row and height.
    assert_eq!((rects[0].1.y, rects[0].1.height), (rects[1].1.y, rects[1].1.height));
}

#[test]
fn panels_of_a_row_take_the_given_parts() {
    let children = vec![LayoutNode::Panel(PanelId::Runs), LayoutNode::Panel(PanelId::Logs)];
    let parts = vec![Rect::new(0, 0, 40, 10), Rect::new(40, 0, 60, 10), Rect::new(0, 0, 1, 1)];
    let placed = LayoutNode::place_children(&children, &parts);
    assert_eq!(placed, vec![(PanelId::Runs, parts[0]), (PanelId::Logs, parts[1])]);
    assert!(LayoutNode::place_children(&children, &vec![]).is_empty());
}

#[test]
fn popups_and_screen_rows_lie_in_the_frame() {
    let frame = Rect::new(2, 1, 97, 41);
    let c = centered_rect(60, 70, frame);
    assert!(inside(c, frame));
    let (header, content, footer) = screen_areas(frame);
    for r in [header, content, footer] {
        assert!(inside(r, frame));
        assert_eq!((r.x, r.width), (frame.x, frame.width));
    }
    let mut a = AppState::new(vec!["acme/api".to_string()]);
    a.open_dialog(vec![]);
    let screen = dialog_screen(a.dialog.as_ref().unwrap(), frame);
    assert!(inside(screen.area, frame));
    assert_eq!(screen.area, centered_rect(70, 50, frame));
}
