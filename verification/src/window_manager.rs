//! The window manager: which panels are visible, which one has focus,
//! which one is zoomed, and the layout that results.

use vstd::prelude::*;

use crate::layout::{all_leaves, engine_split, flat_placement, placed_ids, shares, within, Layout, LayoutNode, PresetLayout};
use crate::panel::{PanelContext, PanelId, Rect};
use crate::panel_set::PanelSet;

verus! {

/// The state of the window manager as mathematical values.
#[verifier::ext_equal]
pub struct WindowState {
    /// Panels currently visible.
    pub visible: Set<PanelId>,
    /// The focused panel.
    pub focused: PanelId,
    /// The panel zoomed to full screen, if any.
    pub zoomed: Option<PanelId>,
    /// The current preset layout.
    pub preset: PresetLayout,
    /// Panels whose visibility was toggled away from the preset.
    pub overrides: Set<PanelId>,
}

/// Sum of the ratios.
pub open spec fn ratio_sum(rs: Seq<u32>) -> int
    decreases rs.len(),
{
    if rs.len() == 0 {
        0
    } else {
        ratio_sum(rs.drop_last()) + rs.last()
    }
}

/// Ratios rescaled so that they share the whole area, in hundredths.
pub open spec fn normalized(rs: Seq<u32>) -> Seq<u32> {
    let total = ratio_sum(rs);
    Seq::new(rs.len(), |i: int| if total == 0 { 0u32 } else { ((rs[i] * 100) / total) as u32 })
}

/// Whether some panel of the tree is in `visible`.
pub open spec fn shows_visible(visible: Set<PanelId>, l: Layout) -> bool {
    exists|i: int| 0 <= i < l.panels().len() && visible.contains(#[trigger] l.panels()[i])
}

impl WindowState {
    /// The state of a fresh window manager on a preset.
    pub open spec fn initial(preset: PresetLayout) -> WindowState {
        WindowState {
            visible: preset.spec_panels().to_set(),
            focused: preset.spec_default_focus(),
            zoomed: None,
            preset,
            overrides: Set::empty(),
        }
    }

    /// The tree restricted to the visible panels. A split keeps the children
    /// that show a visible panel, with their ratios rescaled; a split that
    /// keeps one child becomes that child, and one that keeps none becomes
    /// the focused panel.
    pub open spec fn filter(self, l: Layout) -> Layout
        decreases l,
    {
        match l {
            Layout::Leaf(id) => Layout::Leaf(id),
            Layout::Split(direction, children, ratios) => {
                let kept = self.kept(children, ratios);
                if kept.len() == 0 {
                    Layout::Leaf(self.focused)
                } else if kept.len() == 1 {
                    kept[0].0
                } else {
                    Layout::Split(
                        direction,
                        kept.map_values(|k: (Layout, u32)| k.0),
                        normalized(kept.map_values(|k: (Layout, u32)| k.1)),
                    )
                }
            },
        }
    }

    /// The children (paired with their ratios) that show a visible panel,
    /// each filtered in turn.
    pub open spec fn kept(self, children: Seq<Layout>, ratios: Seq<u32>) -> Seq<(Layout, u32)>
        decreases children,
    {
        if children.len() == 0 {
            Seq::empty()
        } else if children.len() > ratios.len() {
            self.kept(children.take(ratios.len() as int), ratios)
        } else {
            let prev = self.kept(children.drop_last(), ratios);
            let c = children.last();
            if shows_visible(self.visible, c) {
                prev.push((self.filter(c), ratios[children.len() - 1]))
            } else {
                prev
            }
        }
    }

    /// The layout shown: the zoomed panel alone, or the preset restricted to
    /// the visible panels.
    pub open spec fn layout(self) -> Layout {
        match self.zoomed {
            Some(z) => Layout::Leaf(z),
            None => self.filter(self.preset.spec_layout()),
        }
    }

    /// The visible panels in display order, as Tab visits them.
    pub open spec fn display_order(self) -> Seq<PanelId> {
        self.layout().panels().filter(|p: PanelId| self.visible.contains(p))
    }

    /// Index of the focused panel in the display order, or 0.
    pub open spec fn focus_index(self) -> int {
        match self.display_order().index_of_first(self.focused) {
            Some(i) => i,
            None => 0,
        }
    }

    pub open spec fn with_focus(self, p: PanelId) -> WindowState {
        WindowState { focused: p, ..self }
    }

    /// Focus moved to the first panel in display order, if there is one.
    pub open spec fn focus_first_visible(self) -> WindowState {
        let order = self.display_order();
        if order.len() > 0 {
            self.with_focus(order[0])
        } else {
            self
        }
    }

    pub open spec fn toggle_panel(self, p: PanelId) -> WindowState {
        if self.visible.contains(p) {
            if self.visible.len() > 1 {
                let hidden = WindowState {
                    visible: self.visible.remove(p),
                    overrides: self.overrides.insert(p),
                    ..self
                };
                if self.focused == p {
                    hidden.focus_first_visible()
                } else {
                    hidden
                }
            } else {
                self
            }
        } else {
            WindowState {
                visible: self.visible.insert(p),
                overrides: self.overrides.insert(p),
                ..self
            }
        }
    }

    pub open spec fn show_panel(self, p: PanelId) -> WindowState {
        WindowState { visible: self.visible.insert(p), ..self }
    }

    pub open spec fn hide_panel(self, p: PanelId) -> WindowState {
        if self.visible.len() > 1 {
            let hidden = WindowState { visible: self.visible.remove(p), ..self };
            if self.focused == p {
                hidden.focus_first_visible()
            } else {
                hidden
            }
        } else {
            self
        }
    }

    pub open spec fn set_focus(self, p: PanelId) -> WindowState {
        if self.visible.contains(p) {
            self.with_focus(p)
        } else {
            self
        }
    }

    pub open spec fn focus_next(self) -> WindowState {
        let order = self.display_order();
        if order.len() == 0 {
            self
        } else {
            self.with_focus(order[(self.focus_index() + 1) % (order.len() as int)])
        }
    }

    pub open spec fn focus_prev(self) -> WindowState {
        let order = self.display_order();
        if order.len() == 0 {
            self
        } else {
            let i = self.focus_index();
            self.with_focus(order[if i == 0 { order.len() - 1 } else { i - 1 }])
        }
    }

    pub open spec fn toggle_zoom(self) -> WindowState {
        if self.zoomed is Some {
            WindowState { zoomed: None, ..self }
        } else {
            WindowState { zoomed: Some(self.focused), ..self }
        }
    }

    pub open spec fn zoom(self, p: PanelId) -> WindowState {
        WindowState { zoomed: Some(p), focused: p, ..self }
    }

    pub open spec fn unzoom(self) -> WindowState {
        WindowState { zoomed: None, ..self }
    }

    pub open spec fn apply(self, preset: PresetLayout) -> WindowState {
        WindowState::initial(preset)
    }
}

/// The window manager coordinates panel visibility, focus and layout.
#[derive(Debug)]
pub struct WindowManager {
    /// Set of currently visible panels.
    visible: PanelSet,
    /// The currently focused panel.
    focused: PanelId,
    /// Panel that is zoomed to full screen (if any).
    zoomed: Option<PanelId>,
    /// The current preset layout.
    current_preset: PresetLayout,
    /// Panels toggled on or off away from the preset.
    visibility_overrides: PanelSet,
}

impl View for WindowManager {
    type V = WindowState;

    closed spec fn view(&self) -> WindowState {
        WindowState {
            visible: self.visible@,
            focused: self.focused,
            zoomed: self.zoomed,
            preset: self.current_preset,
            overrides: self.visibility_overrides@,
        }
    }
}

/// Every set of panels is finite and has at most six members.
pub proof fn lemma_panel_set_finite(s: Set<PanelId>)
    ensures
        s.finite(),
        s.len() <= 6,
{
    let all = crate::panel::all_panels();
    crate::panel::lemma_all_panels_index(PanelId::Repos);
    all.unique_seq_to_set();
    assert forall|p: PanelId| s.contains(p) implies all.to_set().contains(p) by {
        crate::panel::lemma_all_panels_index(p);
    }
    vstd::set_lib::lemma_len_subset(s, all.to_set());
}

impl WindowManager {
    #[verifier::type_invariant]
    closed spec fn inv(self) -> bool {
        self.visible@.len() >= 1
    }

    fn from_preset(preset: PresetLayout) -> (r: Self)
        ensures
            r@ == WindowState::initial(preset),
    {
        proof {
            preset.lemma_panels();
            preset.spec_panels().unique_seq_to_set();
        }
        WindowManager {
            visible: preset.default_visible(),
            focused: preset.default_focus(),
            zoomed: None,
            current_preset: preset,
            visibility_overrides: PanelSet::new(),
        }
    }

    /// Creates a window manager on the default preset.
    pub fn new() -> (r: Self)
        ensures
            r@ == WindowState::initial(PresetLayout::Repos),
    {
        Self::from_preset(PresetLayout::Repos)
    }

    /// Creates a window manager starting with a specific preset.
    pub fn with_preset(preset: PresetLayout) -> (r: Self)
        ensures
            r@ == WindowState::initial(preset),
    {
        Self::from_preset(preset)
    }

    /// Returns the current preset layout.
    pub fn current_preset(&self) -> (r: PresetLayout)
        ensures
            r == self@.preset,
    {
        self.current_preset
    }

    /// Returns the focused panel.
    pub fn focused(&self) -> (r: PanelId)
        ensures
            r == self@.focused,
    {
        self.focused
    }

    /// Returns the zoomed panel, if any.
    pub fn zoomed(&self) -> (r: Option<PanelId>)
        ensures
            r == self@.zoomed,
    {
        self.zoomed
    }

    /// Whether a panel is zoomed.
    pub fn is_zoomed(&self) -> (r: bool)
        ensures
            r == self@.zoomed is Some,
    {
        self.zoomed.is_some()
    }

    /// Whether a panel is visible.
    pub fn is_visible(&self, panel: PanelId) -> (r: bool)
        ensures
            r == self@.visible.contains(panel),
    {
        self.visible.contains(panel)
    }

    /// The visible panels, each once.
    pub fn visible_panels(&self) -> (r: Vec<PanelId>)
        ensures
            r@.to_set() == self@.visible,
            r@.no_duplicates(),
    {
        self.visible.to_vec()
    }

    /// Number of visible panels.
    pub fn visible_count(&self) -> (r: usize)
        ensures
            r == self@.visible.len(),
            r >= 1,
    {
        proof {
            use_type_invariant(self);
        }
        self.visible.len()
    }

    /// Whether some panel of the tree is visible.
    fn shows_any(&self, node: &LayoutNode) -> (r: bool)
        ensures
            r == shows_visible(self@.visible, node.deep()),
    {
        let panels = node.panels_in_order();
        let mut i: usize = 0;
        while i < panels.len()
            invariant
                i <= panels@.len(),
                panels@ == node.deep().panels(),
                forall|j: int| 0 <= j < i ==> !self@.visible.contains(#[trigger] panels@[j]),
            decreases panels@.len() - i,
        {
            if self.visible.contains(panels[i]) {
                return true;
            }
            i = i + 1;
        }
        false
    }

    /// Restricts a layout tree to the visible panels.
    #[verifier::loop_isolation(false)]
    fn filter_layout(&self, node: &LayoutNode) -> (r: LayoutNode)
        ensures
            r.deep() == self@.filter(node.deep()),
        decreases node,
    {
        match node {
            LayoutNode::Panel(id) => {
                let r = LayoutNode::Panel(*id);
                assert(node.deep() == Layout::Leaf(*id));
                assert(self@.filter(Layout::Leaf(*id)) == Layout::Leaf(*id));
                r
            },
            LayoutNode::Split { direction, children, ratios } => {
                let n = if children.len() < ratios.len() { children.len() } else { ratios.len() };
                let ghost ds = LayoutNode::deep_seq(children@);
                let ghost rs = ratios@;
                proof {
                    LayoutNode::lemma_deep_seq(children@);
                }
                let mut kept_children: Vec<LayoutNode> = Vec::new();
                let mut kept_ratios: Vec<u32> = Vec::new();
                let mut total: u128 = 0;
                let mut i: usize = 0;
                while i < n
                    invariant
                        i <= n,
                        n <= children@.len(),
                        n <= rs.len(),
                        n == children@.len() || n == rs.len(),
                        ds.len() == children@.len(),
                        forall|k: int| 0 <= k < children@.len() ==> #[trigger] ds[k] == children@[k].deep(),
                        LayoutNode::deep_seq(kept_children@) == self@.kept(ds.take(i as int), rs).map_values(
                            |k: (Layout, u32)| k.0,
                        ),
                        kept_ratios@ == self@.kept(ds.take(i as int), rs).map_values(|k: (Layout, u32)| k.1),
                        total == ratio_sum(kept_ratios@),
                        kept_ratios@.len() <= i,
                        total <= kept_ratios@.len() * 0xffff_ffffu128,
                    decreases n - i,
                {
                    proof {
                        assert(decreases_to!(*node => *children));
                        assert(decreases_to!(*children => children@));
                        assert(decreases_to!(children@ => children@[i as int]));
                    }
                    let ghost prev = self@.kept(ds.take(i as int), rs);
                    assert(ds.take(i + 1).drop_last() == ds.take(i as int));
                    assert(ds.take(i + 1).last() == children@[i as int].deep());
                    if self.shows_any(&children[i]) {
                        let child = self.filter_layout(&children[i]);
                        let ghost old_kept = kept_children@;
                        let ghost old_ratios = kept_ratios@;
                        kept_children.push(child);
                        kept_ratios.push(ratios[i]);
                        total = total + ratios[i] as u128;
                        proof {
                            let cur = self@.kept(ds.take(i + 1), rs);
                            assert(cur == prev.push((self@.filter(children@[i as int].deep()), rs[i as int])));
                            assert(kept_children@.drop_last() == old_kept);
                            assert(LayoutNode::deep_seq(kept_children@) =~= cur.map_values(|k: (Layout, u32)| k.0));
                            assert(kept_ratios@.drop_last() == old_ratios);
                            assert(kept_ratios@ =~= cur.map_values(|k: (Layout, u32)| k.1));
                        }
                    }
                    i = i + 1;
                }
                let ghost kept = self@.kept(ds, rs);
                proof {
                    if ds.len() > rs.len() {
                        assert(ds.take(rs.len() as int) == ds.take(n as int));
                    } else {
                        assert(ds.take(n as int) == ds);
                    }
                    assert(kept == self@.kept(ds.take(n as int), rs));
                    LayoutNode::lemma_deep_seq(kept_children@);
                }
                assert(node.deep() == Layout::Split(*direction, ds, rs));
                assert(LayoutNode::deep_seq(kept_children@) == kept.map_values(|k: (Layout, u32)| k.0));
                assert(kept_ratios@ == kept.map_values(|k: (Layout, u32)| k.1));
                if kept_children.len() == 0 {
                    assert(kept.len() == 0);
                    LayoutNode::Panel(self.focused)
                } else if kept_children.len() == 1 {
                    let ghost old_kc = kept_children@;
                    assert(LayoutNode::deep_seq(old_kc)[0] == old_kc[0].deep());
                    assert(kept.map_values(|k: (Layout, u32)| k.0)[0] == kept[0].0);
                    let only = kept_children.pop();
                    match only {
                        Some(c) => {
                            assert(c.deep() == kept[0].0);
                            c
                        },
                        None => LayoutNode::Panel(self.focused),
                    }
                } else {
                    let mut norm: Vec<u32> = Vec::new();
                    let mut j: usize = 0;
                    while j < kept_ratios.len()
                        invariant
                            j <= kept_ratios@.len(),
                            total == ratio_sum(kept_ratios@),
                            norm@ == normalized(kept_ratios@).take(j as int),
                        decreases kept_ratios@.len() - j,
                    {
                        let v: u32 = if total == 0 {
                            0
                        } else {
                            ((kept_ratios[j] as u128 * 100) / total) as u32
                        };
                        norm.push(v);
                        assert(norm@ =~= normalized(kept_ratios@).take(j + 1));
                        j = j + 1;
                    }
                    assert(norm@ =~= normalized(kept_ratios@));
                    assert(kept.len() > 1);
                    LayoutNode::Split { direction: *direction, children: kept_children, ratios: norm }
                }
            },
        }
    }

    /// The current layout, accounting for visibility and zoom.
    pub fn get_layout(&self) -> (r: LayoutNode)
        ensures
            r.deep() == self@.layout(),
    {
        match self.zoomed {
            Some(z) => LayoutNode::Panel(z),
            None => {
                let base = self.current_preset.to_layout();
                self.filter_layout(&base)
            },
        }
    }

    /// The rectangle of each panel shown, when the layout fills `area`: one
    /// per panel laid out, in display order, each within the area. A zoomed
    /// panel gets the whole area; otherwise each panel of a split gets its
    /// part of the engine's split of the area.
    pub fn compute_panel_rects(&self, area: Rect) -> (r: Vec<(PanelId, Rect)>)
        ensures
            placed_ids(r@) == self@.layout().laid_out(),
            forall|k: int| 0 <= k < r@.len() ==> within(#[trigger] r@[k].1, area),
            self@.zoomed matches Some(z) ==> r@ == seq![(z, area)],
            self@.layout() matches Layout::Split(d, cs, rs) ==> exists|parts: Seq<Rect>|
                #[trigger] engine_split(d, shares(rs), area, parts) && r@ == flat_placement(cs, parts),
    {
        proof {
            lemma_layout_ratios_match(self@);
        }
        let layout = self.get_layout();
        layout.compute_rects(area)
    }

    /// The visible panels in display order.
    fn panels_in_display_order(&self) -> (r: Vec<PanelId>)
        ensures
            r@ == self@.display_order(),
    {
        let order = self.get_layout().panels_in_order();
        let ghost pred = |p: PanelId| self@.visible.contains(p);
        let mut r: Vec<PanelId> = Vec::new();
        let mut i: usize = 0;
        while i < order.len()
            invariant
                i <= order@.len(),
                pred == (|p: PanelId| self@.visible.contains(p)),
                r@ == order@.take(i as int).filter(pred),
            decreases order@.len() - i,
        {
            proof {
                order@.take(i as int).lemma_filter_push(order@[i as int], pred);
                assert(order@.take(i + 1) == order@.take(i as int).push(order@[i as int]));
            }
            if self.visible.contains(order[i]) {
                r.push(order[i]);
            }
            i = i + 1;
        }
        assert(order@.take(order@.len() as int) == order@);
        r
    }

    /// Position of the focused panel in `order`, or 0 when it is absent.
    fn focus_position(&self, order: &Vec<PanelId>) -> (r: usize)
        ensures
            r == match order@.index_of_first(self.focused) {
                Some(i) => i,
                None => 0,
            },
    {
        proof {
            order@.index_of_first_ensures(self.focused);
        }
        let mut i: usize = 0;
        while i < order.len()
            invariant
                i <= order@.len(),
                forall|j: int| 0 <= j < i ==> order@[j] != self.focused,
            decreases order@.len() - i,
        {
            if order[i] == self.focused {
                proof {
                    order@.index_of_first_ensures(self.focused);
                    let k = order@.index_of_first(self.focused).unwrap();
                    if k < i {
                    } else if k > i {
                    }
                }
                return i;
            }
            i = i + 1;
        }
        proof {
            order@.index_of_first_ensures(self.focused);
            assert(!order@.contains(self.focused));
        }
        0
    }

    fn focus_first_visible(&mut self)
        ensures
            final(self)@ == old(self)@.focus_first_visible(),
    {
        proof {
            use_type_invariant(&*self);
        }
        let panels = self.panels_in_display_order();
        if panels.len() > 0 {
            self.focused = panels[0];
        }
    }

    /// Toggles a panel's visibility. The last visible panel cannot be
    /// hidden; hiding the focused panel moves focus to the first visible one.
    pub fn toggle_panel(&mut self, panel: PanelId)
        ensures
            final(self)@ == old(self)@.toggle_panel(panel),
    {
        proof {
            use_type_invariant(&*self);
            lemma_panel_set_finite(self@.visible);
        }
        if self.visible.contains(panel) {
            if self.visible.len() > 1 {
                let mut v = self.visible.copy();
                v.remove(panel);
                let mut o = self.visibility_overrides.copy();
                o.insert(panel);
                self.visible = v;
                self.visibility_overrides = o;
                if self.focused == panel {
                    self.focus_first_visible();
                }
            }
        } else {
            let mut v = self.visible.copy();
            v.insert(panel);
            let mut o = self.visibility_overrides.copy();
            o.insert(panel);
            proof {
                lemma_panel_set_finite(v@);
            }
            self.visible = v;
            self.visibility_overrides = o;
        }
    }

    /// Makes a panel visible.
    pub fn show_panel(&mut self, panel: PanelId)
        ensures
            final(self)@ == old(self)@.show_panel(panel),
    {
        proof {
            use_type_invariant(&*self);
            lemma_panel_set_finite(self@.visible);
        }
        let mut v = self.visible.copy();
        v.insert(panel);
        proof {
            lemma_panel_set_finite(v@);
        }
        self.visible = v;
    }

    /// Hides a panel, unless it is the only visible one.
    pub fn hide_panel(&mut self, panel: PanelId)
        ensures
            final(self)@ == old(self)@.hide_panel(panel),
    {
        proof {
            use_type_invariant(&*self);
            lemma_panel_set_finite(self@.visible);
        }
        if self.visible.len() > 1 {
            let mut v = self.visible.copy();
            v.remove(panel);
            self.visible = v;
            if self.focused == panel {
                self.focus_first_visible();
            }
        }
    }

    /// Focuses a panel if it is visible.
    pub fn set_focus(&mut self, panel: PanelId)
        ensures
            final(self)@ == old(self)@.set_focus(panel),
    {
        proof {
            use_type_invariant(&*self);
        }
        if self.visible.contains(panel) {
            self.focused = panel;
        }
    }

    /// Moves focus to the next visible panel in display order, wrapping.
    pub fn focus_next(&mut self)
        ensures
            final(self)@ == old(self)@.focus_next(),
    {
        proof {
            use_type_invariant(&*self);
        }
        let panels = self.panels_in_display_order();
        if panels.len() == 0 {
            return;
        }
        let current = self.focus_position(&panels);
        proof {
            self@.display_order().index_of_first_ensures(self.focused);
        }
        let next = (current + 1) % panels.len();
        self.focused = panels[next];
    }

    /// Moves focus to the previous visible panel in display order, wrapping.
    pub fn focus_prev(&mut self)
        ensures
            final(self)@ == old(self)@.focus_prev(),
    {
        proof {
            use_type_invariant(&*self);
        }
        let panels = self.panels_in_display_order();
        if panels.len() == 0 {
            return;
        }
        let current = self.focus_position(&panels);
        proof {
            self@.display_order().index_of_first_ensures(self.focused);
        }
        let prev = if current == 0 { panels.len() - 1 } else { current - 1 };
        self.focused = panels[prev];
    }

    /// Focuses the panel to the left (the previous one in display order).
    pub fn focus_left(&mut self)
        ensures
            final(self)@ == old(self)@.focus_prev(),
    {
        proof {
            use_type_invariant(&*self);
        }
        self.focus_prev();
    }

    /// Focuses the panel to the right (the next one in display order).
    pub fn focus_right(&mut self)
        ensures
            final(self)@ == old(self)@.focus_next(),
    {
        proof {
            use_type_invariant(&*self);
        }
        self.focus_next();
    }

    /// Zooms the focused panel, or leaves zoom if a panel is zoomed.
    pub fn toggle_zoom(&mut self)
        ensures
            final(self)@ == old(self)@.toggle_zoom(),
    {
        proof {
            use_type_invariant(&*self);
        }
        if self.zoomed.is_some() {
            self.zoomed = None;
        } else {
            self.zoomed = Some(self.focused);
        }
    }

    /// Zooms and focuses a panel.
    pub fn zoom_panel(&mut self, panel: PanelId)
        ensures
            final(self)@ == old(self)@.zoom(panel),
    {
        proof {
            use_type_invariant(&*self);
        }
        self.zoomed = Some(panel);
        self.focused = panel;
    }

    /// Leaves zoom.
    pub fn unzoom(&mut self)
        ensures
            final(self)@ == old(self)@.unzoom(),
    {
        proof {
            use_type_invariant(&*self);
        }
        self.zoomed = None;
    }

    /// Applies a preset: its panels become visible, its default panel gets
    /// focus, zoom is left and the overrides are cleared.
    pub fn apply_preset(&mut self, preset: PresetLayout)
        ensures
            final(self)@ == old(self)@.apply(preset),
    {
        proof {
            use_type_invariant(&*self);
            preset.lemma_panels();
            preset.spec_panels().unique_seq_to_set();
        }
        self.current_preset = preset;
        self.visible = preset.default_visible();
        self.focused = preset.default_focus();
        self.zoomed = None;
        self.visibility_overrides = PanelSet::new();
    }

    /// The drawing context of a panel placed in `area`.
    pub fn panel_context(&self, panel: PanelId, area: Rect) -> (r: PanelContext)
        ensures
            r == (PanelContext {
                area,
                focused: self@.focused == panel,
                zoomed: self@.zoomed == Some(panel),
            }),
    {
        let zoomed = match self.zoomed {
            Some(z) => z == panel,
            None => false,
        };
        PanelContext::new(area, self.focused == panel, zoomed)
    }

    /// A copy of the window manager.
    pub fn copy(&self) -> (r: Self)
        ensures
            r@ == self@,
    {
        proof {
            use_type_invariant(self);
        }
        WindowManager {
            visible: self.visible.copy(),
            focused: self.focused,
            zoomed: self.zoomed,
            current_preset: self.current_preset,
            visibility_overrides: self.visibility_overrides.copy(),
        }
    }
}

impl Default for WindowManager {
    fn default() -> (r: Self)
        ensures
            r@ == WindowState::initial(PresetLayout::Repos),
    {
        Self::new()
    }
}

} // verus!

verus! {

/// Every window-manager operation keeps at least one panel visible.
pub proof fn law_visible_never_empty(s: WindowState, p: PanelId, preset: PresetLayout)
    requires
        s.visible.len() >= 1,
    ensures
        s.toggle_panel(p).visible.len() >= 1,
        s.show_panel(p).visible.len() >= 1,
        s.hide_panel(p).visible.len() >= 1,
        s.set_focus(p).visible.len() >= 1,
        s.focus_next().visible.len() >= 1,
        s.focus_prev().visible.len() >= 1,
        s.toggle_zoom().visible.len() >= 1,
        s.zoom(p).visible.len() >= 1,
        s.unzoom().visible.len() >= 1,
        s.apply(preset).visible.len() >= 1,
{
    lemma_panel_set_finite(s.visible);
    preset.lemma_panels();
    preset.spec_panels().unique_seq_to_set();
}

/// The last visible panel cannot be hidden.
pub proof fn law_last_panel_stays_visible(s: WindowState, p: PanelId)
    requires
        s.visible == Set::<PanelId>::empty().insert(p),
    ensures
        s.toggle_panel(p).visible == s.visible,
        s.hide_panel(p).visible == s.visible,
{
    assert(s.visible.len() == 1);
}

/// Toggling a panel twice restores the set of visible panels, unless the
/// panel was the only one visible.
pub proof fn law_toggle_twice_restores_visibility(s: WindowState, p: PanelId)
    requires
        s.visible.len() >= 1,
        !s.visible.contains(p) || s.visible.len() > 1,
    ensures
        s.toggle_panel(p).toggle_panel(p).visible == s.visible,
{
    lemma_panel_set_finite(s.visible);
    if s.visible.contains(p) {
        let t = s.toggle_panel(p);
        assert(t.visible == s.visible.remove(p));
        assert(!t.visible.contains(p));
        assert(t.visible.insert(p) =~= s.visible);
    } else {
        let t = s.toggle_panel(p);
        assert(t.visible == s.visible.insert(p));
        assert(t.visible.len() == s.visible.len() + 1);
        assert(t.visible.remove(p) =~= s.visible);
    }
}

/// Zooming and then toggling zoom again returns to the unzoomed state.
pub proof fn law_toggle_zoom_twice(s: WindowState)
    requires
        s.zoomed is None,
    ensures
        s.toggle_zoom().toggle_zoom() == s,
        s.toggle_zoom().zoomed == Some(s.focused),
{
}

/// Applying a preset shows its panels, focuses a visible panel and leaves
/// zoom.
pub proof fn law_apply_preset_focus_is_visible(s: WindowState, preset: PresetLayout)
    ensures
        s.apply(preset).visible.contains(s.apply(preset).focused),
        s.apply(preset).zoomed is None,
        s.apply(preset).visible == preset.spec_panels().to_set(),
{
    crate::layout::law_preset_focus_is_shown(preset);
}

/// Focus set explicitly stays on a visible panel.
pub proof fn law_set_focus_keeps_focus_visible(s: WindowState, p: PanelId)
    requires
        s.visible.contains(s.focused),
    ensures
        s.set_focus(p).visible.contains(s.set_focus(p).focused),
        s.set_focus(p).focused == p <==> s.visible.contains(p) || s.focused == p,
{
}

/// Hiding the focused panel moves focus to the first panel that remains in
/// display order, which is visible.
pub proof fn law_hiding_focused_panel_moves_focus(s: WindowState, p: PanelId)
    requires
        s.visible.len() > 1,
        s.visible.contains(p),
        s.focused == p,
        (WindowState { visible: s.visible.remove(p), overrides: s.overrides.insert(p), ..s }).display_order().len() > 0,
    ensures
        s.toggle_panel(p).visible.contains(s.toggle_panel(p).focused),
        s.toggle_panel(p).focused != p,
{
    let h = WindowState { visible: s.visible.remove(p), overrides: s.overrides.insert(p), ..s };
    let order = h.display_order();
    let pred = |q: PanelId| h.visible.contains(q);
    h.layout().panels().lemma_filter_pred(pred, 0);
    assert(pred(order[0]));
}

/// Whether every split of the tree has only leaves as children, one ratio
/// per child.
pub open spec fn flat_layout(l: Layout) -> bool {
    match l {
        Layout::Leaf(_) => true,
        Layout::Split(_, cs, rs) => cs.len() <= rs.len() && forall|i: int|
            0 <= i < cs.len() ==> #[trigger] cs[i] is Leaf,
    }
}

/// Every preset layout is flat.
pub proof fn lemma_presets_flat(p: PresetLayout)
    ensures
        flat_layout(p.spec_layout()),
{
}

/// On a row of leaves, the kept children do not depend on the focus.
proof fn lemma_kept_leaves_focus_free(s: WindowState, q: PanelId, cs: Seq<Layout>, rs: Seq<u32>)
    requires
        cs.len() <= rs.len(),
        forall|i: int| 0 <= i < cs.len() ==> #[trigger] cs[i] is Leaf,
    ensures
        s.kept(cs, rs) == s.with_focus(q).kept(cs, rs),
    decreases cs.len(),
{
    if cs.len() > 0 {
        assert forall|i: int| 0 <= i < cs.drop_last().len() implies #[trigger] cs.drop_last()[i] is Leaf by {
            assert(cs[i] is Leaf);
        }
        lemma_kept_leaves_focus_free(s, q, cs.drop_last(), rs);
        let c = cs.last();
        assert(c is Leaf);
        assert(s.filter(c) == c);
        assert(s.with_focus(q).filter(c) == c);
    }
}

/// On a flat layout, the display order after moving focus to a panel of
/// the display order is unchanged.
proof fn lemma_display_order_focus_free(s: WindowState, q: PanelId)
    requires
        flat_layout(s.preset.spec_layout()),
        s.display_order().contains(q),
        s.display_order().len() > 1 || q == s.focused,
    ensures
        s.with_focus(q).display_order() == s.display_order(),
{
    let t = s.with_focus(q);
    if q == s.focused {
        assert(t == s);
    } else if s.zoomed is None {
        match s.preset.spec_layout() {
            Layout::Leaf(_) => {},
            Layout::Split(d, cs, rs) => {
                lemma_kept_leaves_focus_free(s, q, cs, rs);
                if s.kept(cs, rs).len() == 0 {
                    // The layout is the focused panel alone: the display
                    // order has at most one panel, so `q` is the focus.
                    let pred = |p: PanelId| s.visible.contains(p);
                    let ps = s.layout().panels();
                    assert(ps == seq![s.focused]);
                    assert(ps.filter(pred).len() <= 1) by {
                        ps.lemma_filter_len(pred);
                    }
                }
            },
        }
    }
}

/// Keeping the items that satisfy a predicate keeps them distinct.
proof fn lemma_filter_no_duplicates(s: Seq<PanelId>, pred: spec_fn(PanelId) -> bool)
    requires
        s.no_duplicates(),
    ensures
        s.filter(pred).no_duplicates(),
    decreases s.len(),
{
    if s.len() > 0 {
        let prev = s.drop_last();
        let last = s.last();
        assert(prev.no_duplicates()) by {
            assert forall|i: int, j: int| 0 <= i < j < prev.len() implies prev[i] != prev[j] by {
                assert(prev[i] == s[i] && prev[j] == s[j]);
            }
        }
        lemma_filter_no_duplicates(prev, pred);
        assert(prev.push(last) =~= s);
        prev.lemma_filter_push(last, pred);
        if pred(last) {
            let f = prev.filter(pred);
            assert(!f.contains(last)) by {
                if f.contains(last) {
                    prev.lemma_filter_contains_rev(pred, last);
                    let k = choose|k: int| 0 <= k < prev.len() && prev[k] == last;
                    assert(s[k] == s[s.len() - 1]);
                }
            }
            assert forall|i: int, j: int| 0 <= i < j < f.push(last).len() implies f.push(last)[i] != f.push(last)[j] by {
                if j == f.len() {
                    assert(f[i] == f.push(last)[i]);
                    assert(f.contains(f[i]));
                }
            }
        }
    }
}

/// Every panel appears at most once in the display order.
pub proof fn lemma_display_order_no_duplicates(s: WindowState)
    ensures
        s.display_order().no_duplicates(),
{
    let vis = |p: PanelId| s.visible.contains(p);
    if s.zoomed is None {
        law_layout_shows_visible_panels(s);
        s.preset.lemma_panels();
        lemma_filter_no_duplicates(s.preset.spec_panels(), vis);
    }
    let ps = s.layout().panels();
    assert(ps.no_duplicates());
    lemma_filter_no_duplicates(ps, vis);
}

/// Moving focus forward and then back returns it to where it was, when the
/// focused panel is in the display order.
pub proof fn law_focus_next_then_prev(s: WindowState)
    requires
        s.display_order().contains(s.focused),
    ensures
        s.focus_next().focus_prev().focused == s.focused,
        s.focus_prev().focus_next().focused == s.focused,
{
    lemma_presets_flat(s.preset);
    lemma_display_order_no_duplicates(s);
    let order = s.display_order();
    let n = order.len();
    order.index_of_first_ensures(s.focused);
    let i = s.focus_index();
    assert(order[i] == s.focused);
    assert(0 <= i < n);
    // forward then back
    let j = (i + 1) % (n as int);
    assert(j == if i + 1 == n { 0 } else { i + 1 }) by (nonlinear_arith)
        requires
            0 <= i < n,
            j == (i + 1) % (n as int),
    ;
    let q = order[j];
    lemma_display_order_focus_free(s, q);
    let t = s.focus_next();
    assert(t == s.with_focus(q));
    order.index_of_first_ensures(q);
    assert(t.focus_index() == j) by {
        let k = order.index_of_first(q).unwrap();
        if k != j {
            assert(order[k] == order[j]);
        }
    }
    assert(t.display_order() == order);
    assert(t.focus_prev().focused == order[if j == 0 { n - 1 } else { j - 1 }]);
    // back then forward
    let j2 = if i == 0 { n - 1 } else { i - 1 };
    assert((j2 + 1) % (n as int) == i) by (nonlinear_arith)
        requires
            0 <= i < n,
            j2 == if i == 0 { n - 1 } else { i - 1 },
    ;
    let q2 = order[j2];
    lemma_display_order_focus_free(s, q2);
    let u = s.focus_prev();
    assert(u == s.with_focus(q2));
    order.index_of_first_ensures(q2);
    assert(u.focus_index() == j2) by {
        let k = order.index_of_first(q2).unwrap();
        if k != j2 {
            assert(order[k] == order[j2]);
        }
    }
    assert(u.display_order() == order);
    assert(u.focus_next().focused == order[(j2 + 1) % (n as int)]);
}

/// On a row of leaves, the kept children are the leaves of visible panels,
/// in order.
proof fn lemma_kept_leaves(s: WindowState, cs: Seq<Layout>, rs: Seq<u32>)
    requires
        cs.len() <= rs.len(),
        forall|i: int| 0 <= i < cs.len() ==> #[trigger] cs[i] is Leaf,
    ensures
        forall|i: int| 0 <= i < s.kept(cs, rs).len() ==> (#[trigger] s.kept(cs, rs)[i]).0 is Leaf,
        Seq::new(s.kept(cs, rs).len(), |i: int| s.kept(cs, rs)[i].0->Leaf_0) == Seq::new(
            cs.len(),
            |i: int| cs[i]->Leaf_0,
        ).filter(|p: PanelId| s.visible.contains(p)),
    decreases cs.len(),
{
    let vis = |p: PanelId| s.visible.contains(p);
    let ids = Seq::new(cs.len(), |i: int| cs[i]->Leaf_0);
    if cs.len() == 0 {
        assert(ids =~= Seq::<PanelId>::empty());
        assert(ids.filter(vis) =~= Seq::<PanelId>::empty()) by {
            reveal(Seq::filter);
        }
        assert(Seq::new(s.kept(cs, rs).len(), |i: int| s.kept(cs, rs)[i].0->Leaf_0) =~= Seq::<PanelId>::empty());
    } else {
        let prev_cs = cs.drop_last();
        assert forall|i: int| 0 <= i < prev_cs.len() implies #[trigger] prev_cs[i] is Leaf by {
            assert(cs[i] is Leaf);
        }
        lemma_kept_leaves(s, prev_cs, rs);
        let prev = s.kept(prev_cs, rs);
        let c = cs.last();
        assert(c is Leaf);
        let id = c->Leaf_0;
        let prev_ids = Seq::new(prev_cs.len(), |i: int| prev_cs[i]->Leaf_0);
        assert(ids =~= prev_ids.push(id));
        prev_ids.lemma_filter_push(id, vis);
        assert(c.panels() == seq![id]);
        assert(shows_visible(s.visible, c) <==> s.visible.contains(id)) by {
            if s.visible.contains(id) {
                assert(c.panels()[0] == id);
            }
        }
        assert(s.filter(c) == c);
        let k = s.kept(cs, rs);
        if s.visible.contains(id) {
            assert(k == prev.push((c, rs[cs.len() - 1])));
            assert(Seq::new(k.len(), |i: int| k[i].0->Leaf_0) =~= Seq::new(prev.len(), |i: int| prev[i].0->Leaf_0).push(id));
        } else {
            assert(k == prev);
        }
    }
}

/// Without zoom, the layout shown holds the panels of its preset that are
/// visible, in the preset's order; when none of them is visible, the
/// focused panel alone. A preset of one panel always shows that panel.
pub proof fn law_layout_shows_visible_panels(s: WindowState)
    requires
        s.zoomed is None,
    ensures
        s.preset.spec_layout() is Leaf ==> s.layout() == s.preset.spec_layout(),
        s.preset.spec_layout() is Split ==> ({
            let shown = s.preset.spec_panels().filter(|p: PanelId| s.visible.contains(p));
            s.layout().panels() == if shown.len() > 0 {
                shown
            } else {
                seq![s.focused]
            }
        }),
{
    s.preset.lemma_panels();
    lemma_presets_flat(s.preset);
    match s.preset.spec_layout() {
        Layout::Leaf(_) => {},
        Layout::Split(d, cs, rs) => {
            lemma_kept_leaves(s, cs, rs);
            Layout::lemma_panels_of_leaves(cs);
            let k = s.kept(cs, rs);
            let vis = |p: PanelId| s.visible.contains(p);
            let shown = s.preset.spec_panels().filter(vis);
            assert(s.preset.spec_panels() == Seq::new(cs.len(), |i: int| cs[i]->Leaf_0));
            if k.len() == 1 {
                assert(k[0].0 is Leaf);
                assert(s.layout() == k[0].0);
                assert(shown =~= seq![k[0].0->Leaf_0]);
            } else if k.len() > 1 {
                let children = k.map_values(|x: (Layout, u32)| x.0);
                assert forall|i: int| 0 <= i < children.len() implies #[trigger] children[i] is Leaf by {
                    assert(k[i].0 is Leaf);
                }
                Layout::lemma_panels_of_leaves(children);
                assert(Seq::new(children.len(), |i: int| children[i]->Leaf_0) =~= Seq::new(
                    k.len(),
                    |i: int| k[i].0->Leaf_0,
                ));
            } else {
                assert(Seq::new(k.len(), |i: int| k[i].0->Leaf_0) =~= Seq::<PanelId>::empty());
            }
        },
    }
}

/// The layout shown has one ratio per child at every split, and its splits
/// hold panels only.
proof fn lemma_layout_ratios_match(s: WindowState)
    ensures
        s.layout().ratios_match(),
        s.layout() matches Layout::Split(_, cs, _) ==> all_leaves(cs),
{
    if s.zoomed is None {
        lemma_presets_flat(s.preset);
        match s.preset.spec_layout() {
            Layout::Leaf(_) => {},
            Layout::Split(d, cs, rs) => {
                lemma_kept_leaves(s, cs, rs);
                let k = s.kept(cs, rs);
                if k.len() == 1 {
                    assert(k[0].0 is Leaf);
                } else if k.len() > 1 {
                    let children = k.map_values(|x: (Layout, u32)| x.0);
                    assert forall|i: int| 0 <= i < children.len() implies (#[trigger] children[i]).ratios_match() by {
                        assert(k[i].0 is Leaf);
                    }
                    assert forall|i: int| 0 <= i < children.len() implies #[trigger] children[i] is Leaf by {
                        assert(k[i].0 is Leaf);
                    }
                }
            },
        }
    }
}

/// The rectangles of the window manager come one per panel shown, in
/// display order.
pub proof fn law_panel_rects_in_display_order(s: WindowState)
    ensures
        s.layout().laid_out() == s.layout().panels(),
{
    lemma_layout_ratios_match(s);
    Layout::law_all_panels_laid_out(s.layout());
}

/// The panels the key table lists for each preset, in display order:
/// 1 Repos · Workflows · Tags, 2 Workflows, 3 Runs · Logs,
/// 4 Deployments · Runs, 5 Tags · Workflows.
pub open spec fn documented_panels(p: PresetLayout) -> Seq<PanelId> {
    match p {
        PresetLayout::Repos => seq![PanelId::Repos, PanelId::Workflows, PanelId::Tags],
        PresetLayout::Workflows => seq![PanelId::Workflows],
        PresetLayout::Runs => seq![PanelId::Runs, PanelId::Logs],
        PresetLayout::Deployments => seq![PanelId::Deployments, PanelId::Runs],
        PresetLayout::Tags => seq![PanelId::Tags, PanelId::Workflows],
    }
}

/// Keeping the items that all satisfy a predicate keeps them all.
proof fn lemma_filter_keeps_all(s: Seq<PanelId>, pred: spec_fn(PanelId) -> bool)
    requires
        forall|i: int| 0 <= i < s.len() ==> pred(#[trigger] s[i]),
    ensures
        s.filter(pred) == s,
    decreases s.len(),
{
    if s.len() == 0 {
        assert(s.filter(pred) =~= s) by {
            reveal(Seq::filter);
        }
    } else {
        let prev = s.drop_last();
        assert forall|i: int| 0 <= i < prev.len() implies pred(#[trigger] prev[i]) by {
            assert(prev[i] == s[i]);
        }
        lemma_filter_keeps_all(prev, pred);
        assert(prev.push(s.last()) =~= s);
        prev.lemma_filter_push(s.last(), pred);
        assert(pred(s[s.len() - 1]));
    }
}

/// Applying a preset, from any state, shows exactly the panels its key
/// lists, unzoomed, with its first panel focused; the preset's tree holds
/// those panels in the listed order.
pub proof fn law_presets_show_their_panels(w: WindowState, p: PresetLayout)
    ensures
        p.spec_layout().panels() == documented_panels(p),
        w.apply(p).visible == documented_panels(p).to_set(),
        w.apply(p).zoomed is None,
        w.apply(p).focused == documented_panels(p)[0],
{
    let s = w.apply(p);
    p.lemma_panels();
    assert(p.spec_panels() == documented_panels(p));
    match p {
        PresetLayout::Repos => assert(s.focused == documented_panels(p)[0]),
        PresetLayout::Workflows => assert(s.focused == documented_panels(p)[0]),
        PresetLayout::Runs => assert(s.focused == documented_panels(p)[0]),
        PresetLayout::Deployments => assert(s.focused == documented_panels(p)[0]),
        PresetLayout::Tags => assert(s.focused == documented_panels(p)[0]),
    }
}

/// Applying a preset, from any state, lays out the panels its key lists,
/// in the listed order, and Tab visits them in that order.
pub proof fn law_presets_lay_out_their_panels(w: WindowState, p: PresetLayout)
    ensures
        w.apply(p).layout().panels() == documented_panels(p),
        w.apply(p).display_order() == documented_panels(p),
{
    lemma_preset_shows_listed(w.apply(p), p);
}

/// A window state fresh on a preset shows the listed panels, in order.
proof fn lemma_preset_shows_listed(s: WindowState, p: PresetLayout)
    requires
        s == WindowState::initial(p),
    ensures
        p.spec_layout().panels() == documented_panels(p),
        s.layout().panels() == documented_panels(p),
        s.display_order() == documented_panels(p),
{
    p.lemma_panels();
    let listed = documented_panels(p);
    let vis = |q: PanelId| s.visible.contains(q);
    assert(p.spec_panels() == listed);
    assert forall|i: int| 0 <= i < listed.len() implies vis(#[trigger] listed[i]) by {
        assert(listed.contains(listed[i]));
    }
    lemma_filter_keeps_all(listed, vis);
    law_layout_shows_visible_panels(s);
    assert(s.layout().panels() == listed);
}

} // verus!
