//! Layout trees: horizontal and vertical splits of panels with ratios,
//! and the preset layouts selected with the number keys.

use vstd::prelude::*;

use crate::panel::{PanelId, Rect};
use crate::panel_set::PanelSet;
use ratatui::layout::Constraint::{Length as CLength, Min as CMin, Percentage as CPercentage, Ratio as CRatio};
use ratatui::layout::Direction::{Horizontal as Across, Vertical as Down};
use ratatui::layout::{Layout as Engine, Rect as Area};

verus! {

/// Direction of a split in the layout tree.
#[derive(Debug, Clone, Copy, PartialEq, Eq, Structural)]
pub enum SplitDirection {
    /// Side by side (left | right).
    Horizontal,
    /// Stacked (top / bottom).
    Vertical,
}

/// A node in the layout tree. A ratio is the share of the parent area given
/// to the child at the same position, in hundredths.
#[derive(Debug)]
pub enum LayoutNode {
    /// A leaf holding a single panel.
    Panel(PanelId),
    /// A split of the area among its children.
    Split { direction: SplitDirection, children: Vec<LayoutNode>, ratios: Vec<u32> },
}

/// The mathematical layout tree.
pub enum Layout {
    Leaf(PanelId),
    Split(SplitDirection, Seq<Layout>, Seq<u32>),
}

/// A constraint on the size of one part of a split area.
#[derive(Debug, Clone, Copy, PartialEq, Eq, Structural)]
pub enum Constraint {
    /// A share of the area, in hundredths.
    Share(u32),
    /// A percentage of the area.
    Percentage(u16),
    /// A fixed number of cells.
    Length(u16),
    /// At least this many cells.
    Min(u16),
}

/// The constraints that give each part its share, in hundredths.
pub open spec fn shares(ratios: Seq<u32>) -> Seq<Constraint> {
    Seq::new(ratios.len(), |i: int| Constraint::Share(ratios[i]))
}

/// `inner` lies within `outer`.
pub open spec fn within(inner: Rect, outer: Rect) -> bool {
    &&& outer.x <= inner.x
    &&& inner.x + inner.width <= outer.x + outer.width
    &&& outer.y <= inner.y
    &&& inner.y + inner.height <= outer.y + outer.height
}

/// What holds of every answer of the layout engine splitting `area` in
/// `direction` under `constraints`: one part per constraint, each within
/// the area; a horizontal split keeps the area's row and height, a vertical
/// one its column and width.
pub open spec fn engine_split(direction: SplitDirection, constraints: Seq<Constraint>, area: Rect, parts: Seq<Rect>) -> bool {
    &&& parts.len() == constraints.len()
    &&& forall|i: int| 0 <= i < parts.len() ==> within(#[trigger] parts[i], area)
    &&& forall|i: int|
        0 <= i < parts.len() ==> (direction == SplitDirection::Horizontal ==> (#[trigger] parts[i]).y == area.y
            && parts[i].height == area.height) && (direction == SplitDirection::Vertical ==> parts[i].x == area.x
            && parts[i].width == area.width)
}

/// Splits `area` in `direction` into one rectangle per constraint, with the
/// terminal layout engine (ratatui's `Layout::split`; a share `r` is
/// `Constraint::Ratio(r, 100)`). Its source (`try_split`) requires every cut
/// to lie between the area's start and end and every part to start before
/// it ends, and builds each part with the area's row and height (across) or
/// column and width (down): so each part lies within the area. Where each
/// cut falls, and whether the parts follow one another without gap or
/// overlap, is left unsaid: the engine only prefers those (its spacer and
/// size constraints are not required ones), solves them with a
/// floating-point solver that walks hash maps seeded per process, and
/// caches its answers per thread, so two calls on the same arguments may
/// cut differently.
#[verifier::external_body]
pub(crate) fn split_area(direction: SplitDirection, constraints: &Vec<Constraint>, area: Rect) -> (r: Vec<Rect>)
    ensures
        engine_split(direction, constraints@, area, r@),
{
    let dir = match direction {
        SplitDirection::Horizontal => Across,
        SplitDirection::Vertical => Down,
    };
    let cs = constraints.iter().map(|c| match *c {
        Constraint::Share(r) => CRatio(r, 100),
        Constraint::Percentage(p) => CPercentage(p),
        Constraint::Length(n) => CLength(n),
        Constraint::Min(n) => CMin(n),
    });
    let parts = Engine::default().direction(dir).constraints(cs).split(Area { x: area.x, y: area.y, width: area.width, height: area.height });
    parts.iter().map(|c| Rect { x: c.x, y: c.y, width: c.width, height: c.height }).collect()
}

/// The share constraints for the given ratios.
fn share_constraints(ratios: &Vec<u32>) -> (r: Vec<Constraint>)
    ensures
        r@ == shares(ratios@),
{
    let mut r: Vec<Constraint> = Vec::new();
    let mut i: usize = 0;
    while i < ratios.len()
        invariant
            i <= ratios@.len(),
            r@ == shares(ratios@.take(i as int)),
        decreases ratios@.len() - i,
    {
        r.push(Constraint::Share(ratios[i]));
        assert(r@ =~= shares(ratios@.take(i + 1)));
        i = i + 1;
    }
    assert(ratios@.take(ratios@.len() as int) =~= ratios@);
    r
}

impl LayoutNode {
    /// The mathematical tree this node stands for.
    pub open spec fn deep(self) -> Layout
        decreases self,
    {
        match self {
            LayoutNode::Panel(id) => Layout::Leaf(id),
            LayoutNode::Split { direction, children, ratios } => Layout::Split(
                direction,
                Self::deep_seq(children@),
                ratios@,
            ),
        }
    }

    pub open spec fn deep_seq(s: Seq<LayoutNode>) -> Seq<Layout>
        decreases s,
    {
        if s.len() == 0 {
            Seq::empty()
        } else {
            Self::deep_seq(s.drop_last()).push(s.last().deep())
        }
    }

    pub proof fn lemma_deep_seq(s: Seq<LayoutNode>)
        ensures
            Self::deep_seq(s).len() == s.len(),
            forall|i: int| 0 <= i < s.len() ==> #[trigger] Self::deep_seq(s)[i] == s[i].deep(),
        decreases s.len(),
    {
        if s.len() > 0 {
            Self::lemma_deep_seq(s.drop_last());
        }
    }
}

/// `n` equal shares of an area, in hundredths.
pub open spec fn equal_ratios(n: nat) -> Seq<u32> {
    Seq::new(n, |i: int| (100nat / n) as u32)
}

impl Layout {
    /// Panels in display order (left to right, top to bottom).
    pub open spec fn panels(self) -> Seq<PanelId>
        decreases self,
    {
        match self {
            Layout::Leaf(id) => seq![id],
            Layout::Split(_, children, _) => Self::panels_seq(children),
        }
    }

    pub open spec fn panels_seq(s: Seq<Layout>) -> Seq<PanelId>
        decreases s,
    {
        if s.len() == 0 {
            Seq::empty()
        } else {
            Self::panels_seq(s.drop_last()) + s.last().panels()
        }
    }

    /// The panels of a row of leaves are the leaves' panels.
    pub proof fn lemma_panels_of_leaves(s: Seq<Layout>)
        requires
            forall|i: int| 0 <= i < s.len() ==> #[trigger] s[i] is Leaf,
        ensures
            Self::panels_seq(s) == Seq::new(s.len(), |i: int| s[i]->Leaf_0),
        decreases s.len(),
    {
        if s.len() > 0 {
            assert forall|i: int| 0 <= i < s.drop_last().len() implies #[trigger] s.drop_last()[i] is Leaf by {
                assert(s[i] is Leaf);
            }
            Self::lemma_panels_of_leaves(s.drop_last());
            let last = s[s.len() - 1];
            assert(last is Leaf);
            assert(last.panels() == seq![last->Leaf_0]);
            assert(Self::panels_seq(s) =~= Seq::new(s.len(), |i: int| s[i]->Leaf_0));
        } else {
            assert(Self::panels_seq(s) =~= Seq::new(s.len(), |i: int| s[i]->Leaf_0));
        }
    }

    /// The panels that get a rectangle when the tree is laid out, in display
    /// order. A split lays out only as many children as it has ratios.
    pub open spec fn laid_out(self) -> Seq<PanelId>
        decreases self,
    {
        match self {
            Layout::Leaf(id) => seq![id],
            Layout::Split(_, children, ratios) => Self::laid_out_seq(children, ratios.len()),
        }
    }

    /// The panels laid out by the first `n` of the children `s`.
    pub open spec fn laid_out_seq(s: Seq<Layout>, n: nat) -> Seq<PanelId>
        decreases s,
    {
        if s.len() == 0 {
            Seq::empty()
        } else if s.len() > n {
            Self::laid_out_seq(s.take(n as int), n)
        } else {
            Self::laid_out_seq(s.drop_last(), n) + s.last().laid_out()
        }
    }

    /// Every split of the tree has one ratio per child.
    pub open spec fn ratios_match(self) -> bool
        decreases self,
    {
        match self {
            Layout::Leaf(_) => true,
            Layout::Split(_, children, ratios) => children.len() == ratios.len() && forall|i: int|
                0 <= i < children.len() ==> (#[trigger] children[i]).ratios_match(),
        }
    }

    /// When every split has one ratio per child, the first `n` children of
    /// a row lay out exactly their panels.
    proof fn lemma_laid_out_seq(s: Seq<Layout>, n: nat)
        requires
            s.len() <= n,
            forall|i: int| 0 <= i < s.len() ==> (#[trigger] s[i]).ratios_match(),
        ensures
            Self::laid_out_seq(s, n) == Self::panels_seq(s),
        decreases s,
    {
        if s.len() > 0 {
            assert forall|i: int| 0 <= i < s.drop_last().len() implies (#[trigger] s.drop_last()[i]).ratios_match() by {
                assert(s[i].ratios_match());
            }
            Self::lemma_laid_out_seq(s.drop_last(), n);
            let last = s.last();
            assert(last.ratios_match());
            Self::law_all_panels_laid_out(last);
        }
    }

    /// A tree whose splits each have one ratio per child lays out every one
    /// of its panels, in display order.
    pub proof fn law_all_panels_laid_out(l: Layout)
        requires
            l.ratios_match(),
        ensures
            l.laid_out() == l.panels(),
        decreases l,
    {
        match l {
            Layout::Leaf(_) => {},
            Layout::Split(_, children, ratios) => {
                assert forall|i: int| 0 <= i < children.len() implies (#[trigger] children[i]).ratios_match() by {}
                Self::lemma_laid_out_seq(children, ratios.len());
            },
        }
    }
}

/// The panel of each placed rectangle, in order.
pub open spec fn placed_ids(r: Seq<(PanelId, Rect)>) -> Seq<PanelId> {
    Seq::new(r.len(), |i: int| r[i].0)
}

/// The rectangle lies within one of the parts.
pub open spec fn in_some_part(rect: Rect, parts: Seq<Rect>) -> bool {
    exists|j: int| 0 <= j < parts.len() && #[trigger] within(rect, parts[j])
}

/// Every tree of the row is a single panel.
pub open spec fn all_leaves(cs: Seq<Layout>) -> bool {
    forall|i: int| 0 <= i < cs.len() ==> #[trigger] cs[i] is Leaf
}

/// A row of panels laid out in the given parts: each panel with the part of
/// its position, as long as both last.
pub open spec fn flat_placement(cs: Seq<Layout>, parts: Seq<Rect>) -> Seq<(PanelId, Rect)> {
    let n = if cs.len() < parts.len() { cs.len() } else { parts.len() };
    Seq::new(n, |i: int| (cs[i]->Leaf_0, parts[i]))
}

impl LayoutNode {
    fn split_with_equal_ratios(direction: SplitDirection, children: Vec<LayoutNode>) -> (r: Self)
        ensures
            r.deep() == Layout::Split(
                direction,
                Self::deep_seq(children@),
                equal_ratios(children@.len()),
            ),
    {
        let count = children.len();
        let mut ratios: Vec<u32> = Vec::new();
        let mut i: usize = 0;
        while i < count
            invariant
                i <= count,
                count > 0 ==> ratios@ == Seq::new(i as nat, |k: int| (100int / (count as int)) as u32),
                count == 0 ==> ratios@.len() == 0,
            decreases count - i,
        {
            ratios.push((100 / count) as u32);
            i = i + 1;
        }
        assert(ratios@ =~= equal_ratios(count as nat));
        LayoutNode::Split { direction, children, ratios }
    }

    /// Creates a horizontal split with equal ratios.
    pub fn horizontal(children: Vec<LayoutNode>) -> (r: Self)
        ensures
            r.deep() == Layout::Split(
                SplitDirection::Horizontal,
                Self::deep_seq(children@),
                equal_ratios(children@.len()),
            ),
    {
        Self::split_with_equal_ratios(SplitDirection::Horizontal, children)
    }

    /// Creates a horizontal split with the given ratios.
    pub fn horizontal_with_ratios(children: Vec<LayoutNode>, ratios: Vec<u32>) -> (r: Self)
        ensures
            r.deep() == Layout::Split(
                SplitDirection::Horizontal,
                Self::deep_seq(children@),
                ratios@,
            ),
    {
        LayoutNode::Split { direction: SplitDirection::Horizontal, children, ratios }
    }

    /// Creates a vertical split with equal ratios.
    pub fn vertical(children: Vec<LayoutNode>) -> (r: Self)
        ensures
            r.deep() == Layout::Split(
                SplitDirection::Vertical,
                Self::deep_seq(children@),
                equal_ratios(children@.len()),
            ),
    {
        Self::split_with_equal_ratios(SplitDirection::Vertical, children)
    }

    /// Creates a vertical split with the given ratios.
    pub fn vertical_with_ratios(children: Vec<LayoutNode>, ratios: Vec<u32>) -> (r: Self)
        ensures
            r.deep() == Layout::Split(SplitDirection::Vertical, Self::deep_seq(children@), ratios@),
    {
        LayoutNode::Split { direction: SplitDirection::Vertical, children, ratios }
    }

    /// Computes the rectangle of every panel in this layout: one per panel
    /// laid out, in display order, each within `area`. A single panel gets
    /// the whole area; a split of panels gives each panel its part of the
    /// engine's split of the area, in order.
    pub fn compute_rects(&self, area: Rect) -> (r: Vec<(PanelId, Rect)>)
        ensures
            placed_ids(r@) == self.deep().laid_out(),
            forall|k: int| 0 <= k < r@.len() ==> within(#[trigger] r@[k].1, area),
            self.deep() is Leaf ==> r@ == seq![(self.deep()->Leaf_0, area)],
            self.deep() matches Layout::Split(d, cs, rs) ==> (all_leaves(cs) ==> exists|parts: Seq<Rect>|
                #[trigger] engine_split(d, shares(rs), area, parts) && r@ == flat_placement(cs, parts)),
        decreases self,
    {
        match self {
            LayoutNode::Panel(id) => {
                let r = vec![(*id, area)];
                assert(placed_ids(r@) =~= seq![*id]);
                r
            },
            LayoutNode::Split { direction, children, ratios } => {
                let cs = share_constraints(ratios);
                let chunks = split_area(*direction, &cs, area);
                proof {
                    assert(decreases_to!(*self => *children));
                }
                let r = Self::place_children(children, &chunks);
                assert forall|k: int| 0 <= k < r@.len() implies within(#[trigger] r@[k].1, area) by {
                    assert(in_some_part(r@[k].1, chunks@));
                    let j = choose|j: int| 0 <= j < chunks@.len() && #[trigger] within(r@[k].1, chunks@[j]);
                    assert(within(chunks@[j], area));
                }
                proof {
                    if all_leaves(Self::deep_seq(children@)) {
                        assert(engine_split(*direction, shares(ratios@), area, chunks@));
                    }
                }
                r
            },
        }
    }

    /// Lays out each child in the part of the same position, while both
    /// last: the rectangles of every child laid out, in order, each within
    /// one of the parts. When the children are all panels, each panel gets
    /// its part.
    pub fn place_children(children: &Vec<LayoutNode>, parts: &Vec<Rect>) -> (r: Vec<(PanelId, Rect)>)
        ensures
            placed_ids(r@) == Layout::laid_out_seq(Self::deep_seq(children@), parts@.len()),
            forall|k: int| 0 <= k < r@.len() ==> in_some_part(#[trigger] r@[k].1, parts@),
            all_leaves(Self::deep_seq(children@)) ==> r@ == flat_placement(Self::deep_seq(children@), parts@),
        decreases children,
    {
        let n = if children.len() < parts.len() { children.len() } else { parts.len() };
        let ghost ds = Self::deep_seq(children@);
        let ghost m = parts@.len();
        proof {
            Self::lemma_deep_seq(children@);
        }
        let mut r: Vec<(PanelId, Rect)> = Vec::new();
        let mut i: usize = 0;
        while i < n
            invariant
                i <= n,
                n <= children@.len(),
                n <= parts@.len(),
                m == parts@.len(),
                n == children@.len() || n == parts@.len(),
                ds == Self::deep_seq(children@),
                ds.len() == children@.len(),
                forall|k: int| 0 <= k < children@.len() ==> #[trigger] ds[k] == children@[k].deep(),
                placed_ids(r@) == Layout::laid_out_seq(ds.take(i as int), m),
                forall|k: int| 0 <= k < r@.len() ==> in_some_part(#[trigger] r@[k].1, parts@),
                all_leaves(ds) ==> r@ == flat_placement(ds.take(i as int), parts@),
            decreases n - i,
        {
            proof {
                assert(decreases_to!(*children => children@));
                assert(decreases_to!(children@ => children@[i as int]));
            }
            let mut sub = children[i].compute_rects(parts[i]);
            let ghost before = r@;
            let ghost added = sub@;
            r.append(&mut sub);
            assert(placed_ids(r@) =~= placed_ids(before) + placed_ids(added));
            assert(ds.take(i + 1).drop_last() == ds.take(i as int));
            assert(ds.take(i + 1).last() == children@[i as int].deep());
            assert forall|k: int| 0 <= k < r@.len() implies in_some_part(#[trigger] r@[k].1, parts@) by {
                if k >= before.len() {
                    assert(r@[k] == added[k - before.len()]);
                    assert(within(r@[k].1, parts@[i as int]));
                } else {
                    assert(r@[k] == before[k]);
                }
            }
            proof {
                if all_leaves(ds) {
                    assert(ds[i as int] is Leaf);
                    assert(r@ =~= flat_placement(ds.take(i + 1), parts@));
                }
            }
            i = i + 1;
        }
        proof {
            if ds.len() > m {
                assert(ds.take(m as int) == ds.take(n as int));
            } else {
                assert(ds.take(n as int) == ds);
            }
            if all_leaves(ds) {
                assert(flat_placement(ds.take(n as int), parts@) =~= flat_placement(ds, parts@));
            }
        }
        r
    }

    /// Collects all panels in this layout.
    pub fn collect_panels(&self) -> (r: PanelSet)
        ensures
            r@ == self.deep().panels().to_set(),
    {
        let order = self.panels_in_order();
        PanelSet::from_vec(&order)
    }

    /// Returns the panels in order (left to right, top to bottom).
    pub fn panels_in_order(&self) -> (r: Vec<PanelId>)
        ensures
            r@ == self.deep().panels(),
    {
        let mut result = Vec::new();
        self.panels_in_order_recursive(&mut result);
        assert(result@ =~= self.deep().panels());
        result
    }

    #[verifier::loop_isolation(false)]
    fn panels_in_order_recursive(&self, result: &mut Vec<PanelId>)
        ensures
            final(result)@ == old(result)@ + self.deep().panels(),
        decreases self,
    {
        match self {
            LayoutNode::Panel(id) => {
                result.push(*id);
            },
            LayoutNode::Split { children, .. } => {
                let ghost ds = Self::deep_seq(children@);
                let ghost start = result@;
                proof {
                    Self::lemma_deep_seq(children@);
                }
                let mut i: usize = 0;
                while i < children.len()
                    invariant
                        i <= children@.len(),
                        ds == Self::deep_seq(children@),
                        ds.len() == children@.len(),
                        forall|k: int| 0 <= k < children@.len() ==> #[trigger] ds[k] == children@[k].deep(),
                        result@ == start + Layout::panels_seq(ds.take(i as int)),
                    decreases children@.len() - i,
                {
                    proof {
                        assert(decreases_to!(*self => *children));
                        assert(decreases_to!(*children => children@));
                        assert(decreases_to!(children@ => children@[i as int]));
                        assert(decreases_to!(*self => children@[i as int]));
                    }
                    children[i].panels_in_order_recursive(result);
                    assert(ds.take(i + 1).drop_last() == ds.take(i as int));
                    i = i + 1;
                }
                assert(ds.take(children@.len() as int) == ds);
                assert(result@ =~= start + self.deep().panels());
            },
        }
    }
}

/// Preset layouts, selected with the keys 1 to 5.
#[derive(Debug, Clone, Copy, PartialEq, Eq, Structural)]
pub enum PresetLayout {
    /// 1: Repos | Workflows | Tags.
    Repos,
    /// 2: Workflows full screen.
    Workflows,
    /// 3: Runs | Logs.
    Runs,
    /// 4: Deployments | Runs.
    Deployments,
    /// 5: Tags | Workflows.
    Tags,
}

impl Default for PresetLayout {
    fn default() -> (r: PresetLayout)
        ensures
            r == PresetLayout::Repos,
    {
        PresetLayout::Repos
    }
}

/// All presets in key order.
pub open spec fn all_presets() -> Seq<PresetLayout> {
    seq![
        PresetLayout::Repos,
        PresetLayout::Workflows,
        PresetLayout::Runs,
        PresetLayout::Deployments,
        PresetLayout::Tags,
    ]
}

impl PresetLayout {
    pub open spec fn spec_from_key(c: char) -> Option<PresetLayout> {
        if c == '1' {
            Some(PresetLayout::Repos)
        } else if c == '2' {
            Some(PresetLayout::Workflows)
        } else if c == '3' {
            Some(PresetLayout::Runs)
        } else if c == '4' {
            Some(PresetLayout::Deployments)
        } else if c == '5' {
            Some(PresetLayout::Tags)
        } else {
            None
        }
    }

    pub open spec fn spec_key(self) -> char {
        match self {
            PresetLayout::Repos => '1',
            PresetLayout::Workflows => '2',
            PresetLayout::Runs => '3',
            PresetLayout::Deployments => '4',
            PresetLayout::Tags => '5',
        }
    }

    pub open spec fn spec_name(self) -> Seq<char> {
        match self {
            PresetLayout::Repos => "Repos"@,
            PresetLayout::Workflows => "Workflows"@,
            PresetLayout::Runs => "Runs"@,
            PresetLayout::Deployments => "Deployments"@,
            PresetLayout::Tags => "Tags"@,
        }
    }

    /// The layout tree of the preset.
    pub open spec fn spec_layout(self) -> Layout {
        match self {
            PresetLayout::Repos => Layout::Split(
                SplitDirection::Horizontal,
                seq![
                    Layout::Leaf(PanelId::Repos),
                    Layout::Leaf(PanelId::Workflows),
                    Layout::Leaf(PanelId::Tags),
                ],
                seq![30u32, 40u32, 30u32],
            ),
            PresetLayout::Workflows => Layout::Leaf(PanelId::Workflows),
            PresetLayout::Runs => Layout::Split(
                SplitDirection::Horizontal,
                seq![Layout::Leaf(PanelId::Runs), Layout::Leaf(PanelId::Logs)],
                seq![40u32, 60u32],
            ),
            PresetLayout::Deployments => Layout::Split(
                SplitDirection::Horizontal,
                seq![Layout::Leaf(PanelId::Deployments), Layout::Leaf(PanelId::Runs)],
                seq![50u32, 50u32],
            ),
            PresetLayout::Tags => Layout::Split(
                SplitDirection::Horizontal,
                seq![Layout::Leaf(PanelId::Tags), Layout::Leaf(PanelId::Workflows)],
                seq![40u32, 60u32],
            ),
        }
    }

    /// The panels of the preset, in display order.
    pub open spec fn spec_panels(self) -> Seq<PanelId> {
        match self {
            PresetLayout::Repos => seq![PanelId::Repos, PanelId::Workflows, PanelId::Tags],
            PresetLayout::Workflows => seq![PanelId::Workflows],
            PresetLayout::Runs => seq![PanelId::Runs, PanelId::Logs],
            PresetLayout::Deployments => seq![PanelId::Deployments, PanelId::Runs],
            PresetLayout::Tags => seq![PanelId::Tags, PanelId::Workflows],
        }
    }

    pub open spec fn spec_default_focus(self) -> PanelId {
        match self {
            PresetLayout::Repos => PanelId::Repos,
            PresetLayout::Workflows => PanelId::Workflows,
            PresetLayout::Runs => PanelId::Runs,
            PresetLayout::Deployments => PanelId::Deployments,
            PresetLayout::Tags => PanelId::Tags,
        }
    }

    /// The panels of a preset's tree are the ones listed for it.
    pub proof fn lemma_panels(self)
        ensures
            self.spec_layout().panels() == self.spec_panels(),
            self.spec_panels().no_duplicates(),
            self.spec_panels().len() >= 1,
    {
        let l = self.spec_layout();
        match l {
            Layout::Leaf(_) => {},
            Layout::Split(_, cs, _) => {
                Layout::lemma_panels_of_leaves(cs);
                assert(Layout::panels_seq(cs) =~= self.spec_panels());
            },
        }
    }

    /// Converts a key to a preset layout.
    pub fn from_key(c: char) -> (r: Option<PresetLayout>)
        ensures
            r == Self::spec_from_key(c),
    {
        match c {
            '1' => Some(PresetLayout::Repos),
            '2' => Some(PresetLayout::Workflows),
            '3' => Some(PresetLayout::Runs),
            '4' => Some(PresetLayout::Deployments),
            '5' => Some(PresetLayout::Tags),
            _ => None,
        }
    }

    /// Returns the key for this preset.
    pub fn key(&self) -> (r: char)
        ensures
            r == self.spec_key(),
    {
        match self {
            PresetLayout::Repos => '1',
            PresetLayout::Workflows => '2',
            PresetLayout::Runs => '3',
            PresetLayout::Deployments => '4',
            PresetLayout::Tags => '5',
        }
    }

    /// Returns the display name for this preset.
    pub fn name(&self) -> (r: &'static str)
        ensures
            r@ == self.spec_name(),
    {
        match self {
            PresetLayout::Repos => "Repos",
            PresetLayout::Workflows => "Workflows",
            PresetLayout::Runs => "Runs",
            PresetLayout::Deployments => "Deployments",
            PresetLayout::Tags => "Tags",
        }
    }

    /// Converts the preset to a layout tree.
    pub fn to_layout(&self) -> (r: LayoutNode)
        ensures
            r.deep() == self.spec_layout(),
    {
        match self {
            PresetLayout::Repos => {
                let children = vec![
                    LayoutNode::Panel(PanelId::Repos),
                    LayoutNode::Panel(PanelId::Workflows),
                    LayoutNode::Panel(PanelId::Tags),
                ];
                proof {
                    LayoutNode::lemma_deep_seq(children@);
                    assert(LayoutNode::deep_seq(children@) =~= seq![
                        Layout::Leaf(PanelId::Repos),
                        Layout::Leaf(PanelId::Workflows),
                        Layout::Leaf(PanelId::Tags),
                    ]);
                }
                let ratios: Vec<u32> = vec![30, 40, 30];
                assert(ratios@ =~= seq![30u32, 40u32, 30u32]);
                LayoutNode::horizontal_with_ratios(children, ratios)
            },
            PresetLayout::Workflows => LayoutNode::Panel(PanelId::Workflows),
            PresetLayout::Runs => {
                let children = vec![LayoutNode::Panel(PanelId::Runs), LayoutNode::Panel(PanelId::Logs)];
                proof {
                    LayoutNode::lemma_deep_seq(children@);
                    assert(LayoutNode::deep_seq(children@) =~= seq![
                        Layout::Leaf(PanelId::Runs),
                        Layout::Leaf(PanelId::Logs),
                    ]);
                }
                let ratios: Vec<u32> = vec![40, 60];
                assert(ratios@ =~= seq![40u32, 60u32]);
                LayoutNode::horizontal_with_ratios(children, ratios)
            },
            PresetLayout::Deployments => {
                let children = vec![
                    LayoutNode::Panel(PanelId::Deployments),
                    LayoutNode::Panel(PanelId::Runs),
                ];
                proof {
                    LayoutNode::lemma_deep_seq(children@);
                    assert(LayoutNode::deep_seq(children@) =~= seq![
                        Layout::Leaf(PanelId::Deployments),
                        Layout::Leaf(PanelId::Runs),
                    ]);
                    assert(equal_ratios(2) =~= seq![50u32, 50u32]);
                }
                LayoutNode::horizontal(children)
            },
            PresetLayout::Tags => {
                let children = vec![LayoutNode::Panel(PanelId::Tags), LayoutNode::Panel(PanelId::Workflows)];
                proof {
                    LayoutNode::lemma_deep_seq(children@);
                    assert(LayoutNode::deep_seq(children@) =~= seq![
                        Layout::Leaf(PanelId::Tags),
                        Layout::Leaf(PanelId::Workflows),
                    ]);
                }
                let ratios: Vec<u32> = vec![40, 60];
                assert(ratios@ =~= seq![40u32, 60u32]);
                LayoutNode::horizontal_with_ratios(children, ratios)
            },
        }
    }

    /// Returns the panels visible by default in this preset.
    pub fn default_visible(&self) -> (r: PanelSet)
        ensures
            r@ == self.spec_panels().to_set(),
    {
        proof {
            self.lemma_panels();
        }
        self.to_layout().collect_panels()
    }

    /// Returns the panel focused by default in this preset.
    pub fn default_focus(&self) -> (r: PanelId)
        ensures
            r == self.spec_default_focus(),
    {
        match self {
            PresetLayout::Repos => PanelId::Repos,
            PresetLayout::Workflows => PanelId::Workflows,
            PresetLayout::Runs => PanelId::Runs,
            PresetLayout::Deployments => PanelId::Deployments,
            PresetLayout::Tags => PanelId::Tags,
        }
    }

    /// Returns all presets in order.
    pub fn all() -> (r: Vec<PresetLayout>)
        ensures
            r@ == all_presets(),
    {
        vec![
            PresetLayout::Repos,
            PresetLayout::Workflows,
            PresetLayout::Runs,
            PresetLayout::Deployments,
            PresetLayout::Tags,
        ]
    }
}

/// The key of a preset selects that preset again.
pub proof fn law_preset_key_round_trip(p: PresetLayout)
    ensures
        PresetLayout::spec_from_key(p.spec_key()) == Some(p),
{
}

/// Only the keys 1 to 5 select a preset, and each selected preset has
/// that key.
pub proof fn law_preset_from_key_inverse(c: char)
    ensures
        PresetLayout::spec_from_key(c) matches Some(p) ==> p.spec_key() == c,
        PresetLayout::spec_from_key(c) is Some <==> ('1' <= c && c <= '5'),
{
}

/// The panel a preset focuses by default is one of the panels it shows.
pub proof fn law_preset_focus_is_shown(p: PresetLayout)
    ensures
        p.spec_panels().contains(p.spec_default_focus()),
        p.spec_layout().panels().to_set().contains(p.spec_default_focus()),
{
    p.lemma_panels();
    let d = p.spec_default_focus();
    assert(p.spec_panels()[0] == d);
}

} // verus!
