use houston::panel::{Color, PanelContext, PanelId, Rect};

#[test]
fn test_panel_id_all() {
    let all = PanelId::all();
    assert_eq!(all.len(), 6);
    assert!(all.contains(&PanelId::Repos));
    assert!(all.contains(&PanelId::Logs));
}

#[test]
fn test_panel_context_styles() {
    let ctx_focused = PanelContext::new(Rect::default(), true, false);
    assert_eq!(ctx_focused.border_style().fg, Some(Color::Cyan));

    let ctx_zoomed = PanelContext::new(Rect::default(), true, true);
    assert_eq!(ctx_zoomed.border_style().fg, Some(Color::Yellow));

    let ctx_unfocused = PanelContext::new(Rect::default(), false, false);
    assert_eq!(ctx_unfocused.border_style().fg, Some(Color::DarkGray));
}

#[test]
fn test_panel_context_compact() {
    let small = PanelContext::new(Rect::new(0, 0, 20, 5), false, false);
    assert!(small.is_compact());

    let large = PanelContext::new(Rect::new(0, 0, 80, 24), false, false);
    assert!(!large.is_compact());
}
