use houston::layout::PresetLayout;
use houston::panel::{PanelId, Rect};
use houston::window_manager::WindowManager;

#[test]
fn test_window_manager_new() {
    let wm = WindowManager::new();
    assert_eq!(wm.current_preset(), PresetLayout::Repos);
    assert!(wm.is_visible(PanelId::Repos));
    assert!(wm.is_visible(PanelId::Workflows));
    assert!(wm.is_visible(PanelId::Tags));
    assert!(!wm.is_visible(PanelId::Runs));
}

#[test]
fn test_apply_preset() {
    let mut wm = WindowManager::new();
    wm.apply_preset(PresetLayout::Runs);

    assert_eq!(wm.current_preset(), PresetLayout::Runs);
    assert!(wm.is_visible(PanelId::Runs));
    assert!(wm.is_visible(PanelId::Logs));
    assert!(!wm.is_visible(PanelId::Repos));
    assert_eq!(wm.focused(), PanelId::Runs);
}

#[test]
fn test_toggle_panel() {
    let mut wm = WindowManager::new();
    assert!(wm.is_visible(PanelId::Tags));

    wm.toggle_panel(PanelId::Tags);
    assert!(!wm.is_visible(PanelId::Tags));

    wm.toggle_panel(PanelId::Tags);
    assert!(wm.is_visible(PanelId::Tags));
}

#[test]
fn test_cannot_hide_last_panel() {
    let mut wm = WindowManager::with_preset(PresetLayout::Workflows);
    // Only Workflows is visible
    assert_eq!(wm.visible_count(), 1);

    wm.toggle_panel(PanelId::Workflows);
    // Should still be visible
    assert!(wm.is_visible(PanelId::Workflows));
}

#[test]
fn test_focus_cycling() {
    let mut wm = WindowManager::new();
    assert_eq!(wm.focused(), PanelId::Repos);

    wm.focus_next();
    assert_eq!(wm.focused(), PanelId::Workflows);

    wm.focus_next();
    assert_eq!(wm.focused(), PanelId::Tags);

    wm.focus_next();
    assert_eq!(wm.focused(), PanelId::Repos); // Wraps around

    wm.focus_prev();
    assert_eq!(wm.focused(), PanelId::Tags);
}

#[test]
fn test_zoom() {
    let mut wm = WindowManager::new();
    assert!(!wm.is_zoomed());

    wm.toggle_zoom();
    assert!(wm.is_zoomed());
    assert_eq!(wm.zoomed(), Some(PanelId::Repos));

    wm.toggle_zoom();
    assert!(!wm.is_zoomed());
    assert_eq!(wm.zoomed(), None);
}

#[test]
fn test_compute_panel_rects() {
    let wm = WindowManager::with_preset(PresetLayout::Runs);
    let area = Rect::new(0, 0, 100, 50);

    let rects = wm.compute_panel_rects(area);
    assert_eq!(rects.len(), 2);

    // Runs should be 40%, Logs should be 60%
    let runs_rect = rects.iter().find(|(id, _)| *id == PanelId::Runs).unwrap().1;
    let logs_rect = rects.iter().find(|(id, _)| *id == PanelId::Logs).unwrap().1;

    assert!(runs_rect.width < logs_rect.width);
}

#[test]
fn test_zoomed_layout() {
    let mut wm = WindowManager::with_preset(PresetLayout::Runs);
    wm.zoom_panel(PanelId::Logs);

    let area = Rect::new(0, 0, 100, 50);
    let rects = wm.compute_panel_rects(area);

    // Should only have one panel (Logs) taking full area
    assert_eq!(rects.len(), 1);
    assert_eq!(rects[0].0, PanelId::Logs);
    assert_eq!(rects[0].1, area);
}
