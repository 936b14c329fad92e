//! Panels of the multi-panel interface: their identities, the rectangle a
//! panel is drawn in, and the style decisions that depend on focus.

use vstd::prelude::*;

verus! {

/// Identifies each panel of the interface.
#[derive(Debug, Clone, Copy, PartialEq, Eq, Hash, Structural)]
pub enum PanelId {
    /// Repository list.
    Repos,
    /// Workflows of the selected repository.
    Workflows,
    /// Table of recent workflow runs.
    Runs,
    /// Jobs and steps of the opened run.
    Logs,
    /// Deployments grouped by environment.
    Deployments,
    /// Release tags.
    Tags,
}

/// All panels in display order.
pub open spec fn all_panels() -> Seq<PanelId> {
    seq![
        PanelId::Repos,
        PanelId::Workflows,
        PanelId::Runs,
        PanelId::Logs,
        PanelId::Deployments,
        PanelId::Tags,
    ]
}

impl PanelId {
    /// Position of the panel in display order.
    pub open spec fn index(self) -> int {
        match self {
            PanelId::Repos => 0,
            PanelId::Workflows => 1,
            PanelId::Runs => 2,
            PanelId::Logs => 3,
            PanelId::Deployments => 4,
            PanelId::Tags => 5,
        }
    }

    pub open spec fn spec_title(self) -> Seq<char> {
        match self {
            PanelId::Repos => "Repositories"@,
            PanelId::Workflows => "Workflows"@,
            PanelId::Runs => "Runs"@,
            PanelId::Logs => "Logs"@,
            PanelId::Deployments => "Deployments"@,
            PanelId::Tags => "Tags"@,
        }
    }

    pub open spec fn spec_short_name(self) -> Seq<char> {
        match self {
            PanelId::Repos => "Repo"@,
            PanelId::Workflows => "Wkfl"@,
            PanelId::Runs => "Runs"@,
            PanelId::Logs => "Logs"@,
            PanelId::Deployments => "Deps"@,
            PanelId::Tags => "Tags"@,
        }
    }

    pub open spec fn spec_toggle_key(self) -> Option<char> {
        match self {
            PanelId::Repos => Some('r'),
            PanelId::Workflows => Some('w'),
            PanelId::Runs => None,
            PanelId::Logs => Some('l'),
            PanelId::Deployments => Some('d'),
            PanelId::Tags => Some('t'),
        }
    }

    /// Returns all panel IDs in display order.
    pub fn all() -> (r: Vec<PanelId>)
        ensures
            r@ == all_panels(),
    {
        vec![
            PanelId::Repos,
            PanelId::Workflows,
            PanelId::Runs,
            PanelId::Logs,
            PanelId::Deployments,
            PanelId::Tags,
        ]
    }

    /// Returns the default title for this panel.
    pub fn title(&self) -> (r: &'static str)
        ensures
            r@ == self.spec_title(),
    {
        match self {
            PanelId::Repos => "Repositories",
            PanelId::Workflows => "Workflows",
            PanelId::Runs => "Runs",
            PanelId::Logs => "Logs",
            PanelId::Deployments => "Deployments",
            PanelId::Tags => "Tags",
        }
    }

    /// Returns the key that toggles this panel, if any.
    pub fn toggle_key(&self) -> (r: Option<char>)
        ensures
            r == self.spec_toggle_key(),
    {
        match self {
            PanelId::Repos => Some('r'),
            PanelId::Workflows => Some('w'),
            PanelId::Runs => None,
            PanelId::Logs => Some('l'),
            PanelId::Deployments => Some('d'),
            PanelId::Tags => Some('t'),
        }
    }

    /// Returns the short name used in the header.
    pub fn short_name(&self) -> (r: &'static str)
        ensures
            r@ == self.spec_short_name(),
    {
        match self {
            PanelId::Repos => "Repo",
            PanelId::Workflows => "Wkfl",
            PanelId::Runs => "Runs",
            PanelId::Logs => "Logs",
            PanelId::Deployments => "Deps",
            PanelId::Tags => "Tags",
        }
    }
}

/// Every panel occurs in `all_panels` exactly at its index.
pub proof fn lemma_all_panels_index(p: PanelId)
    ensures
        0 <= p.index() < all_panels().len(),
        all_panels()[p.index()] == p,
        all_panels().contains(p),
        all_panels().no_duplicates(),
{
    assert(all_panels()[p.index()] == p);
}

/// A rectangle on the terminal, in cells.
#[derive(Debug, Clone, Copy, PartialEq, Eq, Hash, Structural)]
pub struct Rect {
    pub x: u16,
    pub y: u16,
    pub width: u16,
    pub height: u16,
}

impl Rect {
    /// Creates a rectangle; width and height are clamped so that the
    /// rectangle does not extend past the largest coordinate.
    pub fn new(x: u16, y: u16, width: u16, height: u16) -> (r: Rect)
        ensures
            r.x == x,
            r.y == y,
            r.width == if width > u16::MAX - x { (u16::MAX - x) as u16 } else { width },
            r.height == if height > u16::MAX - y { (u16::MAX - y) as u16 } else { height },
    {
        let max_width = u16::MAX - x;
        let max_height = u16::MAX - y;
        let width = if width > max_width { max_width } else { width };
        let height = if height > max_height { max_height } else { height };
        Rect { x, y, width, height }
    }
}

impl Default for Rect {
    fn default() -> (r: Rect)
        ensures
            r == (Rect { x: 0, y: 0, width: 0, height: 0 }),
    {
        Rect { x: 0, y: 0, width: 0, height: 0 }
    }
}

/// Terminal colors used by the interface.
#[derive(Debug, Clone, Copy, PartialEq, Eq, Hash, Structural)]
pub enum Color {
    Black,
    Red,
    Green,
    Yellow,
    Blue,
    Magenta,
    Cyan,
    Gray,
    DarkGray,
    White,
    Rgb(u8, u8, u8),
}

/// A text style: foreground, background and the bold, italic and reversed
/// modifiers.
#[derive(Debug, Clone, Copy, PartialEq, Eq, Hash, Structural)]
pub struct Style {
    pub fg: Option<Color>,
    pub bg: Option<Color>,
    pub bold: bool,
    pub italic: bool,
    pub reversed: bool,
}

/// The style with the given colors and boldness, and no other modifier.
pub open spec fn sty(fg: Option<Color>, bg: Option<Color>, bold: bool) -> Style {
    Style { fg, bg, bold, italic: false, reversed: false }
}

impl Style {
    /// The style that changes nothing.
    pub fn plain() -> (r: Style)
        ensures
            r == sty(None, None, false),
    {
        Style { fg: None, bg: None, bold: false, italic: false, reversed: false }
    }

    /// A style with only a foreground color.
    pub fn fg_only(c: Color) -> (r: Style)
        ensures
            r == sty(Some(c), None, false),
    {
        Style { fg: Some(c), bg: None, bold: false, italic: false, reversed: false }
    }

    /// A bold style with a foreground color.
    pub fn fg_bold(c: Color) -> (r: Style)
        ensures
            r == sty(Some(c), None, true),
    {
        Style { fg: Some(c), bg: None, bold: true, italic: false, reversed: false }
    }

    /// A style with a foreground and a background color.
    pub fn fg_bg(fg: Color, bg: Color) -> (r: Style)
        ensures
            r == sty(Some(fg), Some(bg), false),
    {
        Style { fg: Some(fg), bg: Some(bg), bold: false, italic: false, reversed: false }
    }

    /// A bold style with a foreground and a background color.
    pub fn fg_bg_bold(fg: Color, bg: Color) -> (r: Style)
        ensures
            r == sty(Some(fg), Some(bg), true),
    {
        Style { fg: Some(fg), bg: Some(bg), bold: true, italic: false, reversed: false }
    }

    /// A style with only a background color.
    pub fn bg_only(bg: Color) -> (r: Style)
        ensures
            r == sty(None, Some(bg), false),
    {
        Style { fg: None, bg: Some(bg), bold: false, italic: false, reversed: false }
    }

    /// A bold style with a background color.
    pub fn bg_bold(bg: Color) -> (r: Style)
        ensures
            r == sty(None, Some(bg), true),
    {
        Style { fg: None, bg: Some(bg), bold: true, italic: false, reversed: false }
    }

    /// A bold style with no color.
    pub fn bold_only() -> (r: Style)
        ensures
            r == sty(None, None, true),
    {
        Style { fg: None, bg: None, bold: true, italic: false, reversed: false }
    }
}

impl Default for Style {
    fn default() -> (r: Style)
        ensures
            r == sty(None, None, false),
    {
        Style::plain()
    }
}

/// What a panel needs to know to draw itself.
#[derive(Debug, Clone, Copy, PartialEq, Eq, Structural)]
pub struct PanelContext {
    /// The area allocated to this panel.
    pub area: Rect,
    /// Whether this panel currently has focus.
    pub focused: bool,
    /// Whether this panel is zoomed to full screen.
    pub zoomed: bool,
}

impl PanelContext {
    pub open spec fn spec_border_style(self) -> Style {
        if self.zoomed {
            sty(Some(Color::Yellow), None, true)
        } else if self.focused {
            sty(Some(Color::Cyan), None, true)
        } else {
            sty(Some(Color::DarkGray), None, false)
        }
    }

    pub open spec fn spec_title_style(self) -> Style {
        if self.zoomed {
            sty(Some(Color::Yellow), None, true)
        } else if self.focused {
            sty(Some(Color::Cyan), None, true)
        } else {
            sty(Some(Color::Gray), None, false)
        }
    }

    pub open spec fn spec_is_compact(self) -> bool {
        self.area.height < 10 || self.area.width < 30
    }

    /// Creates a new panel context.
    pub fn new(area: Rect, focused: bool, zoomed: bool) -> (r: PanelContext)
        ensures
            r == (PanelContext { area, focused, zoomed }),
    {
        PanelContext { area, focused, zoomed }
    }

    /// Border style: yellow when zoomed, cyan when focused, dark gray otherwise.
    pub fn border_style(&self) -> (r: Style)
        ensures
            r == self.spec_border_style(),
    {
        if self.zoomed {
            Style::fg_bold(Color::Yellow)
        } else if self.focused {
            Style::fg_bold(Color::Cyan)
        } else {
            Style::fg_only(Color::DarkGray)
        }
    }

    /// Title style: yellow when zoomed, cyan when focused, gray otherwise.
    pub fn title_style(&self) -> (r: Style)
        ensures
            r == self.spec_title_style(),
    {
        if self.zoomed {
            Style::fg_bold(Color::Yellow)
        } else if self.focused {
            Style::fg_bold(Color::Cyan)
        } else {
            Style::fg_only(Color::Gray)
        }
    }

    /// Whether the panel is small enough to be drawn in compact mode.
    pub fn is_compact(&self) -> (r: bool)
        ensures
            r == self.spec_is_compact(),
    {
        self.area.height < 10 || self.area.width < 30
    }
}

} // verus!
