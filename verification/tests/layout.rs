use houston::layout::{LayoutNode, PresetLayout};
use houston::panel::{PanelId, Rect};

#[test]
fn test_layout_node_panel() {
    let node = LayoutNode::Panel(PanelId::Runs);
    let area = Rect::new(0, 0, 100, 50);
    let rects = node.compute_rects(area);
    assert_eq!(rects.len(), 1);
    assert_eq!(rects[0].0, PanelId::Runs);
    assert_eq!(rects[0].1, area);
}

#[test]
fn test_layout_node_horizontal_split() {
    let node = LayoutNode::horizontal(vec![LayoutNode::Panel(PanelId::Runs), LayoutNode::Panel(PanelId::Logs)]);
    let area = Rect::new(0, 0, 100, 50);
    let rects = node.compute_rects(area);
    assert_eq!(rects.len(), 2);
    assert_eq!(rects[0].0, PanelId::Runs);
    assert_eq!(rects[1].0, PanelId::Logs);
    // Each should be roughly half width
    assert!(rects[0].1.width >= 48 && rects[0].1.width <= 52);
    assert!(rects[1].1.width >= 48 && rects[1].1.width <= 52);
}

#[test]
fn test_preset_layout_to_layout() {
    let repos = PresetLayout::Repos.to_layout();
    let panels = repos.collect_panels();
    assert!(panels.contains(PanelId::Repos));
    assert!(panels.contains(PanelId::Workflows));
    assert!(panels.contains(PanelId::Tags));
    assert_eq!(panels.len(), 3);
}

#[test]
fn test_preset_from_key() {
    assert_eq!(PresetLayout::from_key('1'), Some(PresetLayout::Repos));
    assert_eq!(PresetLayout::from_key('3'), Some(PresetLayout::Runs));
    assert_eq!(PresetLayout::from_key('x'), None);
}

#[test]
fn test_panels_in_order() {
    let node = LayoutNode::horizontal(vec![LayoutNode::Panel(PanelId::Runs), LayoutNode::Panel(PanelId::Logs)]);
    let order = node.panels_in_order();
    assert_eq!(order, vec![PanelId::Runs, PanelId::Logs]);
}
