//! Key presses: what each key does to the state, given whether the
//! repository search is active. Requests that a key starts are returned to
//! the caller, which performs them.

use vstd::prelude::*;

use crate::app_state::{AppModel, AppState};
use crate::dialog::{DialogFocus, DialogType, DialogView};
use crate::inputs::InputType;
use crate::layout::PresetLayout;
use crate::log_view::LogModel;
use crate::panel::PanelId;
use crate::window_manager::WindowState;

verus! {

/// A key, as the library distinguishes them.
#[derive(Debug, Clone, Copy, PartialEq, Eq, Structural)]
pub enum Key {
    Char(char),
    Up,
    Down,
    Enter,
    Esc,
    Tab,
    BackTab,
    Backspace,
    Other,
}

/// A key press, with whether Control was held.
#[derive(Debug, Clone, Copy, PartialEq, Eq, Structural)]
pub struct KeyPress {
    pub key: Key,
    pub control: bool,
}

/// What the caller does after a key press.
#[derive(Debug, Clone, Copy, PartialEq, Eq, Structural)]
pub enum KeyOutcome {
    /// Nothing more.
    Continue,
    /// Leave the application.
    Quit,
    /// Load the jobs of the run opened in the log viewer.
    LoadLogs,
    /// Trigger the selected workflow (fetch its inputs, then open the form).
    ExecuteSelectedAction,
    /// Enter in the dialog (`submit_dialog_step`, then the dispatch if any).
    SubmitDialog,
    /// Fetch the runs of the selected repository again.
    RefreshRuns,
}

pub open spec fn is_char(k: Key, c: char) -> bool {
    k == Key::Char(c)
}

pub open spec fn is_up(k: Key) -> bool {
    k == Key::Up || k == Key::Char('k')
}

pub open spec fn is_down(k: Key) -> bool {
    k == Key::Down || k == Key::Char('j')
}

impl AppModel {
    /// Up or down in the focused panel.
    pub open spec fn panel_navigation(self, direction: i32) -> AppModel {
        match self.window.focused {
            PanelId::Repos => if direction > 0 {
                self.next_repo()
            } else {
                self.previous_repo()
            },
            PanelId::Workflows => if direction > 0 {
                self.next_action()
            } else {
                self.previous_action()
            },
            PanelId::Runs => if direction > 0 {
                self.next_run()
            } else {
                self.previous_run()
            },
            PanelId::Logs => if direction > 0 {
                self.with_log(|v: LogModel| v.scroll_down())
            } else {
                self.with_log(|v: LogModel| v.scroll_up())
            },
            PanelId::Deployments => if direction > 0 {
                self.next_deployment()
            } else {
                self.previous_deployment()
            },
            PanelId::Tags => if direction > 0 {
                self.next_tag()
            } else {
                self.previous_tag()
            },
        }
    }

    pub open spec fn with_window(self, w: WindowState) -> AppModel {
        AppModel { window: w, ..self }
    }

    /// The effect of a key press: the new state, whether the search is
    /// active afterwards, and what the caller does next.
    pub open spec fn handle_key(self, k: KeyPress, search: bool) -> (AppModel, bool, KeyOutcome) {
        let key = k.key;
        if k.control && (is_char(key, 'c') || is_char(key, 'q')) {
            (self, search, KeyOutcome::Quit)
        } else if self.window.zoomed == Some(PanelId::Logs) && self.log_viewer is Some {
            let s = if key == Key::Esc || is_char(key, 'z') {
                self.with_window(self.window.unzoom())
            } else if is_down(key) {
                self.with_log(|v: LogModel| v.scroll_down())
            } else if is_up(key) {
                self.with_log(|v: LogModel| v.scroll_up())
            } else if is_char(key, 'g') {
                self.with_log(|v: LogModel| v.scroll_top())
            } else if is_char(key, 'G') {
                self.with_log(|v: LogModel| v.scroll_bottom())
            } else {
                self
            };
            (s, search, KeyOutcome::Continue)
        } else if self.window.zoomed is Some && (key == Key::Esc || is_char(key, 'z')) {
            (self.with_window(self.window.unzoom()), search, KeyOutcome::Continue)
        } else if !search && self.dialog is None && self.layout_key_applies(key) {
            (self.layout_key(key), search, KeyOutcome::Continue)
        } else {
            self.search_key(k, search)
        }
    }

    /// Whether a key, outside search and dialogs, changes the layout.
    pub open spec fn layout_key_applies(self, key: Key) -> bool {
        ||| key is Char && PresetLayout::spec_from_key(key->Char_0) is Some
        ||| is_char(key, 'l')
        ||| is_char(key, 'd')
        ||| is_char(key, 't') && self.window.preset != PresetLayout::Tags
        ||| is_char(key, 'z')
        ||| is_char(key, 'h')
    }

    /// The layout change of such a key.
    pub open spec fn layout_key(self, key: Key) -> AppModel {
        let w = self.window;
        if key is Char && PresetLayout::spec_from_key(key->Char_0) is Some {
            self.with_window(w.apply(PresetLayout::spec_from_key(key->Char_0)->0))
        } else if is_char(key, 'l') {
            self.with_window(w.toggle_panel(PanelId::Logs))
        } else if is_char(key, 'd') {
            self.with_window(w.toggle_panel(PanelId::Deployments))
        } else if is_char(key, 't') {
            self.with_window(w.toggle_panel(PanelId::Tags))
        } else if is_char(key, 'z') {
            self.with_window(w.toggle_zoom())
        } else {
            self.with_window(w.focus_prev())
        }
    }

    /// Keys for the search, for leaving a dialog, and Enter on a run.
    pub open spec fn search_key(self, k: KeyPress, search: bool) -> (AppModel, bool, KeyOutcome) {
        let key = k.key;
        let no_dialog = self.dialog is None;
        if is_char(key, '/') && no_dialog {
            (self.clear_search(), true, KeyOutcome::Continue)
        } else if key == Key::Esc && !no_dialog {
            let s = if self.dialog matches Some(DialogView::Dropdown { .. }) {
                self.cancel_dropdown_selection()
            } else {
                self.close_dialog()
            };
            (s, search, KeyOutcome::Continue)
        } else if key == Key::Esc {
            (self.clear_search(), false, KeyOutcome::Continue)
        } else if key == Key::Enter && search {
            (self, false, KeyOutcome::Continue)
        } else if key == Key::Enter && self.window.focused == PanelId::Runs && no_dialog {
            let opened = self.open_log_viewer();
            let s = if !opened.window.visible.contains(PanelId::Logs) {
                opened.with_window(opened.window.show_panel(PanelId::Logs))
            } else {
                opened
            };
            (s, search, KeyOutcome::LoadLogs)
        } else if search && key is Char {
            (self.add_to_search(key->Char_0), search, KeyOutcome::Continue)
        } else if search && key == Key::Backspace {
            (self.remove_from_search(), search, KeyOutcome::Continue)
        } else {
            (self.dialog_key(k, search), search, self.dialog_key_outcome(k, search))
        }
    }

    /// Keys while a dialog is open, or, without one, in the panels.
    pub open spec fn dialog_key(self, k: KeyPress, search: bool) -> AppModel {
        let key = k.key;
        if self.dialog is None {
            self.panel_key(k, search)
        } else if key == Key::Tab {
            self.with_dialog(|d: DialogView| d.next_field())
        } else if key == Key::BackTab {
            self.with_dialog(|d: DialogView| d.prev_field())
        } else if is_char(key, ' ') {
            match self.dialog->0.focused_field() {
                Some((i, f)) => if f.kind is Boolean {
                    self.with_dialog(|d: DialogView| d.toggle_boolean())
                } else {
                    self.open_focused_dropdown()
                },
                None => self,
            }
        } else if is_up(key) {
            self.with_dialog(|d: DialogView| d.navigate(-1i32))
        } else if is_down(key) {
            self.with_dialog(|d: DialogView| d.navigate(1i32))
        } else if key is Char {
            let c = key->Char_0;
            if self.dialog matches Some(DialogView::Dropdown { .. }) {
                self.with_dialog(|d: DialogView| d.search_char(c))
            } else {
                self.with_dialog(|d: DialogView| d.input_char(c))
            }
        } else if key == Key::Backspace {
            self.with_dialog(|d: DialogView| d.backspace())
        } else {
            self
        }
    }

    /// What the caller does after such a key.
    pub open spec fn dialog_key_outcome(self, k: KeyPress, search: bool) -> KeyOutcome {
        let key = k.key;
        if self.dialog is Some {
            if key == Key::Enter {
                KeyOutcome::SubmitDialog
            } else {
                KeyOutcome::Continue
            }
        } else if is_char(key, ' ') && !search && self.window.focused == PanelId::Workflows {
            KeyOutcome::ExecuteSelectedAction
        } else if self.refresh_key(key, search) {
            KeyOutcome::RefreshRuns
        } else {
            KeyOutcome::Continue
        }
    }

    /// Whether the key asks for the runs again: `r` outside the search,
    /// with the runs panel shown and a repository selected. Without a
    /// selected repository there are no runs to ask for, so the key leaves
    /// the state alone: marking the runs as loading then would hold off every
    /// later refresh, since none is made while they load.
    pub open spec fn refresh_key(self, key: Key, search: bool) -> bool {
        is_char(key, 'r') && !search && self.window.visible.contains(PanelId::Runs) && self.current_repo() is Some
    }

    /// Keys in the panels, with no dialog open.
    pub open spec fn panel_key(self, k: KeyPress, search: bool) -> AppModel {
        let key = k.key;
        if is_up(key) && !search {
            self.panel_navigation(-1i32)
        } else if is_down(key) && !search {
            self.panel_navigation(1i32)
        } else if key == Key::Tab {
            self.with_window(self.window.focus_next())
        } else if key == Key::BackTab {
            self.with_window(self.window.focus_prev())
        } else if self.refresh_key(key, search) {
            self.start_loading_runs()
        } else {
            self
        }
    }
}

/// Whether the log viewer's line count fits in a machine word.
pub open spec fn log_lines_fit(s: AppModel) -> bool {
    s.log_viewer matches Some(v) ==> v.total_lines() <= usize::MAX
}

impl AppState {
    /// Up or down in the focused panel.
    pub fn handle_panel_navigation(&mut self, direction: i32)
        requires
            log_lines_fit(old(self)@),
        ensures
            final(self)@ == old(self)@.panel_navigation(direction),
    {
        match self.window_manager.focused() {
            PanelId::Repos => if direction > 0 {
                self.next_repo()
            } else {
                self.previous_repo()
            },
            PanelId::Workflows => if direction > 0 {
                self.next_action()
            } else {
                self.previous_action()
            },
            PanelId::Runs => if direction > 0 {
                self.next_run()
            } else {
                self.previous_run()
            },
            PanelId::Logs => if direction > 0 {
                self.log_scroll_down()
            } else {
                self.log_scroll_up()
            },
            PanelId::Deployments => if direction > 0 {
                self.next_deployment()
            } else {
                self.previous_deployment()
            },
            PanelId::Tags => if direction > 0 {
                self.next_tag()
            } else {
                self.previous_tag()
            },
        }
    }

    /// Applies a key press. `search` tells whether the repository search is
    /// active, and is updated.
    pub fn handle_key(&mut self, k: KeyPress, search: &mut bool) -> (r: KeyOutcome)
        requires
            log_lines_fit(old(self)@),
        ensures
            (final(self)@, *final(search), r) == old(self)@.handle_key(k, *old(search)),
    {
        let key = k.key;
        if k.control && (key == Key::Char('c') || key == Key::Char('q')) {
            return KeyOutcome::Quit;
        }
        if self.window_manager.is_zoomed() {
            let on_logs = match self.window_manager.zoomed() {
                Some(p) => p == PanelId::Logs,
                None => false,
            };
            if on_logs && self.log_viewer.is_some() {
                if key == Key::Esc || key == Key::Char('z') {
                    self.window_manager.unzoom();
                } else if key == Key::Down || key == Key::Char('j') {
                    self.log_scroll_down();
                } else if key == Key::Up || key == Key::Char('k') {
                    self.log_scroll_up();
                } else if key == Key::Char('g') {
                    self.log_scroll_top();
                } else if key == Key::Char('G') {
                    self.log_scroll_bottom();
                }
                return KeyOutcome::Continue;
            }
            if key == Key::Esc || key == Key::Char('z') {
                self.window_manager.unzoom();
                return KeyOutcome::Continue;
            }
        }
        if !*search && self.dialog.is_none() && self.handle_layout_key(key) {
            return KeyOutcome::Continue;
        }
        self.handle_search_key(k, search)
    }

    /// Applies a layout key if it is one; tells whether it was.
    fn handle_layout_key(&mut self, key: Key) -> (applied: bool)
        ensures
            applied == old(self)@.layout_key_applies(key),
            applied ==> final(self)@ == old(self)@.layout_key(key),
            !applied ==> final(self)@ == old(self)@,
    {
        if let Key::Char(c) = key {
            if let Some(preset) = PresetLayout::from_key(c) {
                self.window_manager.apply_preset(preset);
                return true;
            }
        }
        if key == Key::Char('l') {
            self.window_manager.toggle_panel(PanelId::Logs);
            true
        } else if key == Key::Char('d') {
            self.window_manager.toggle_panel(PanelId::Deployments);
            true
        } else if key == Key::Char('t') && self.window_manager.current_preset() != PresetLayout::Tags {
            self.window_manager.toggle_panel(PanelId::Tags);
            true
        } else if key == Key::Char('z') {
            self.window_manager.toggle_zoom();
            true
        } else if key == Key::Char('h') {
            self.window_manager.focus_left();
            true
        } else {
            false
        }
    }

    fn is_dropdown_open(&self) -> (b: bool)
        ensures
            b == (self@.dialog matches Some(DialogView::Dropdown { .. })),
    {
        match &self.dialog {
            Some(d) => match &d.dialog_type {
                DialogType::DropdownSelection { .. } => true,
                DialogType::Input { .. } => false,
            },
            None => false,
        }
    }

    fn handle_search_key(&mut self, k: KeyPress, search: &mut bool) -> (r: KeyOutcome)
        requires
            log_lines_fit(old(self)@),
        ensures
            (final(self)@, *final(search), r) == old(self)@.search_key(k, *old(search)),
    {
        let key = k.key;
        let no_dialog = self.dialog.is_none();
        if key == Key::Char('/') && no_dialog {
            *search = true;
            self.clear_search();
        } else if key == Key::Esc && !no_dialog {
            if self.is_dropdown_open() {
                self.cancel_dropdown_selection();
            } else {
                self.close_dialog();
            }
        } else if key == Key::Esc {
            *search = false;
            self.clear_search();
        } else if key == Key::Enter && *search {
            *search = false;
        } else if key == Key::Enter && self.window_manager.focused() == PanelId::Runs && no_dialog {
            self.open_log_viewer();
            if !self.window_manager.is_visible(PanelId::Logs) {
                self.window_manager.show_panel(PanelId::Logs);
            }
            return KeyOutcome::LoadLogs;
        } else if *search && key == Key::Backspace {
            self.remove_from_search();
        } else {
            if let Key::Char(c) = key {
                if *search {
                    self.add_to_search(c);
                    return KeyOutcome::Continue;
                }
            }
            return self.handle_dialog_key(k, *search);
        }
        KeyOutcome::Continue
    }

    fn handle_dialog_key(&mut self, k: KeyPress, search: bool) -> (r: KeyOutcome)
        requires
            log_lines_fit(old(self)@),
        ensures
            final(self)@ == old(self)@.dialog_key(k, search),
            r == old(self)@.dialog_key_outcome(k, search),
    {
        let key = k.key;
        if self.dialog.is_none() {
            let r = if key == Key::Char(' ') && !search && self.window_manager.focused() == PanelId::Workflows {
                KeyOutcome::ExecuteSelectedAction
            } else if self.is_refresh_key(key, search) {
                KeyOutcome::RefreshRuns
            } else {
                KeyOutcome::Continue
            };
            self.handle_panel_key(k, search);
            return r;
        }
        if key == Key::Tab {
            self.dialog_next_field();
        } else if key == Key::BackTab {
            self.dialog_prev_field();
        } else if key == Key::Char(' ') {
            let mut toggle = false;
            let mut open = false;
            if let Some(d) = &self.dialog {
                if let DialogType::Input { fields, focus, .. } = &d.dialog_type {
                    if let DialogFocus::Field(idx) = *focus {
                        if idx < fields.len() {
                            assert(crate::dialog::fields_view(fields@)[idx as int] == fields@[idx as int]@);
                            match fields[idx].input_type {
                                InputType::Boolean { .. } => {
                                    toggle = true;
                                },
                                _ => {
                                    open = true;
                                },
                            }
                        }
                    }
                }
            }
            if toggle {
                self.dialog_toggle_boolean();
            } else if open {
                self.dialog_open_dropdown();
            }
        } else if key == Key::Up || key == Key::Char('k') {
            self.dialog_navigate(-1);
        } else if key == Key::Down || key == Key::Char('j') {
            self.dialog_navigate(1);
        } else if key == Key::Backspace {
            self.dialog_backspace();
        } else if key == Key::Enter {
            return KeyOutcome::SubmitDialog;
        } else if let Key::Char(c) = key {
            if self.is_dropdown_open() {
                self.dialog_search_char(c);
            } else {
                self.dialog_input_char(c);
            }
        }
        KeyOutcome::Continue
    }

    fn handle_panel_key(&mut self, k: KeyPress, search: bool)
        requires
            old(self)@.dialog is None,
            log_lines_fit(old(self)@),
        ensures
            final(self)@ == old(self)@.panel_key(k, search),
    {
        let key = k.key;
        if (key == Key::Up || key == Key::Char('k')) && !search {
            self.handle_panel_navigation(-1);
        } else if (key == Key::Down || key == Key::Char('j')) && !search {
            self.handle_panel_navigation(1);
        } else if key == Key::Tab {
            self.window_manager.focus_next();
        } else if key == Key::BackTab {
            self.window_manager.focus_prev();
        } else if self.is_refresh_key(key, search) {
            self.start_loading_runs();
        }
    }

    fn is_refresh_key(&self, key: Key, search: bool) -> (b: bool)
        ensures
            b == self@.refresh_key(key, search),
    {
        key == Key::Char('r') && !search && self.window_manager.is_visible(PanelId::Runs)
            && self.selected_repo < self.filtered_repos.len()
    }
}

/// With no dialog open, no panel zoomed and no search, `r` with the runs
/// panel shown and a repository selected marks the runs as loading and asks
/// for the selected repository's runs; their arrival then shows them from
/// the top and ends the loading.
pub proof fn law_r_requests_runs(s: AppModel, runs: Seq<crate::api::ActionRun>)
    requires
        s.dialog is None,
        s.window.zoomed is None,
        s.window.visible.contains(PanelId::Runs),
        s.current_repo() is Some,
    ensures
        s.handle_key(KeyPress { key: Key::Char('r'), control: false }, false) == (
            s.start_loading_runs(),
            false,
            KeyOutcome::RefreshRuns,
        ),
        s.start_loading_runs().runs_loading,
        s.start_loading_runs().finish_loading_runs(runs).runs == runs,
        !s.start_loading_runs().finish_loading_runs(runs).runs_loading,
{
}

/// Control+C and Control+Q quit from any state, changing nothing.
pub proof fn law_control_quits(s: AppModel, c: char, search: bool)
    requires
        c == 'c' || c == 'q',
    ensures
        s.handle_key(KeyPress { key: Key::Char(c), control: true }, search) == (s, search, KeyOutcome::Quit),
{
}

/// With no dialog open and no panel zoomed, `/` starts the search with an
/// empty query, and Escape leaves it, clearing the query.
pub proof fn law_search_keys(s: AppModel, search: bool)
    requires
        s.dialog is None,
        s.window.zoomed is None,
    ensures
        s.handle_key(KeyPress { key: Key::Char('/'), control: false }, search) == (
            s.clear_search(),
            true,
            KeyOutcome::Continue,
        ),
        s.handle_key(KeyPress { key: Key::Esc, control: false }, search) == (
            s.clear_search(),
            false,
            KeyOutcome::Continue,
        ),
{
}

/// Escape closes the input form, and cancels an option list back to the
/// form, when no panel is zoomed.
pub proof fn law_escape_closes_dialog(s: AppModel, search: bool)
    requires
        s.dialog is Some,
        s.window.zoomed is None,
    ensures
        s.handle_key(KeyPress { key: Key::Esc, control: false }, search) == (
            if s.dialog matches Some(DialogView::Dropdown { .. }) {
                s.cancel_dropdown_selection()
            } else {
                s.close_dialog()
            },
            search,
            KeyOutcome::Continue,
        ),
{
}

/// Outside the search and dialogs, with no panel zoomed, a number key
/// applies its preset layout.
pub proof fn law_number_keys_apply_presets(s: AppModel, c: char)
    requires
        s.dialog is None,
        s.window.zoomed is None,
        PresetLayout::spec_from_key(c) is Some,
    ensures
        s.handle_key(KeyPress { key: Key::Char(c), control: false }, false) == (
            s.with_window(s.window.apply(PresetLayout::spec_from_key(c)->0)),
            false,
            KeyOutcome::Continue,
        ),
{
}

/// With the log viewer zoomed, `j`/`k` scroll it, `g` and `G` jump to its
/// top and bottom, and `z` or Escape leave the zoom; nothing else happens.
pub proof fn law_zoomed_log_keys(s: AppModel, search: bool)
    requires
        s.window.zoomed == Some(PanelId::Logs),
        s.log_viewer is Some,
    ensures
        s.handle_key(KeyPress { key: Key::Char('j'), control: false }, search) == (
            s.with_log(|v: LogModel| v.scroll_down()),
            search,
            KeyOutcome::Continue,
        ),
        s.handle_key(KeyPress { key: Key::Char('k'), control: false }, search) == (
            s.with_log(|v: LogModel| v.scroll_up()),
            search,
            KeyOutcome::Continue,
        ),
        s.handle_key(KeyPress { key: Key::Char('g'), control: false }, search) == (
            s.with_log(|v: LogModel| v.scroll_top()),
            search,
            KeyOutcome::Continue,
        ),
        s.handle_key(KeyPress { key: Key::Char('G'), control: false }, search) == (
            s.with_log(|v: LogModel| v.scroll_bottom()),
            search,
            KeyOutcome::Continue,
        ),
        s.handle_key(KeyPress { key: Key::Esc, control: false }, search) == (
            s.with_window(s.window.unzoom()),
            search,
            KeyOutcome::Continue,
        ),
        s.handle_key(KeyPress { key: Key::Char('z'), control: false }, search) == (
            s.with_window(s.window.unzoom()),
            search,
            KeyOutcome::Continue,
        ),
{
}

/// Outside search, dialogs and zoom, `h` moves the focus to the panel
/// before the focused one in display order, from the first to the last,
/// changing nothing else; it does what Shift+Tab does.
pub proof fn law_h_focuses_previous_panel(s: AppModel)
    requires
        s.dialog is None,
        s.window.zoomed is None,
        s.window.display_order().len() > 0,
    ensures
        ({
            let order = s.window.display_order();
            let n = order.len() as int;
            let i = s.window.focus_index();
            s.handle_key(KeyPress { key: Key::Char('h'), control: false }, false) == (
                AppModel { window: WindowState { focused: order[(i + n - 1) % n], ..s.window }, ..s },
                false,
                KeyOutcome::Continue,
            )
        }),
        s.handle_key(KeyPress { key: Key::Char('h'), control: false }, false) == s.handle_key(
            KeyPress { key: Key::BackTab, control: false },
            false,
        ),
{
    let order = s.window.display_order();
    let n = order.len() as int;
    let i = s.window.focus_index();
    order.index_of_first_ensures(s.window.focused);
    assert(0 <= i < n);
    assert((i + n - 1) % n == if i == 0 { n - 1 } else { i - 1 }) by (nonlinear_arith)
        requires
            0 <= i < n,
    ;
}

/// Where a list's selection goes: down moves to the next item, wrapping
/// from the last to the first; up to the previous one, wrapping from the
/// first to the last.
pub open spec fn stepped(i: int, n: int, down: bool) -> int {
    if down {
        if i + 1 >= n { i + 1 - n } else { i + 1 }
    } else if i == 0 {
        n - 1
    } else {
        i - 1
    }
}

/// The wrapping moves of the lists step by one.
proof fn lemma_wrap_steps(i: usize, n: nat)
    requires
        i < n,
        n <= usize::MAX,
    ensures
        crate::app_state::wrap_next(i, n) == stepped(i as int, n as int, true),
        crate::app_state::wrap_prev(i, n) == stepped(i as int, n as int, false),
{
    let j = i + 1;
    assert((j % (n as int)) == if j >= n { j - n } else { j }) by (nonlinear_arith)
        requires
            0 < j <= n,
    ;
}

/// Up and down in a focused list move its selection by one, wrapping at
/// both ends, for every list panel, and leave the other selections alone.
pub proof fn law_up_down_move_the_selection(s: AppModel, direction: i32)
    requires
        s.selected_repo < s.filtered_repos.len() || s.filtered_repos.len() == 0,
        s.selected_action < s.actions.len() || s.actions.len() == 0,
        s.selected_run < s.runs.len() || s.runs.len() == 0,
        s.selected_deployment < s.deployments.len() || s.deployments.len() == 0,
        s.selected_tag < s.tags.len() || s.tags.len() == 0,
        s.filtered_repos.len() <= usize::MAX && s.actions.len() <= usize::MAX && s.runs.len() <= usize::MAX,
        s.deployments.len() <= usize::MAX && s.tags.len() <= usize::MAX,
    ensures
        ({
            let t = s.panel_navigation(direction);
            let down = direction > 0;
            &&& s.window.focused == PanelId::Repos && s.filtered_repos.len() > 0 ==> t.selected_repo
                == stepped(s.selected_repo as int, s.filtered_repos.len() as int, down)
            &&& s.window.focused == PanelId::Workflows && s.actions.len() > 0 ==> t.selected_action
                == stepped(s.selected_action as int, s.actions.len() as int, down)
            &&& s.window.focused == PanelId::Runs && s.runs.len() > 0 ==> t.selected_run == stepped(
                s.selected_run as int,
                s.runs.len() as int,
                down,
            )
            &&& s.window.focused == PanelId::Deployments && s.deployments.len() > 0 ==> t.selected_deployment
                == stepped(s.selected_deployment as int, s.deployments.len() as int, down)
            &&& s.window.focused == PanelId::Tags && s.tags.len() > 0 ==> t.selected_tag == stepped(
                s.selected_tag as int,
                s.tags.len() as int,
                down,
            )
            &&& s.window.focused != PanelId::Repos ==> t.selected_repo == s.selected_repo
            &&& s.window.focused != PanelId::Workflows ==> t.selected_action == s.selected_action
            &&& s.window.focused != PanelId::Runs ==> t.selected_run == s.selected_run
            &&& s.window.focused != PanelId::Deployments ==> t.selected_deployment == s.selected_deployment
            &&& s.window.focused != PanelId::Tags ==> t.selected_tag == s.selected_tag
            &&& t.window == s.window
        }),
{
    if s.filtered_repos.len() > 0 {
        lemma_wrap_steps(s.selected_repo, s.filtered_repos.len());
    }
    if s.actions.len() > 0 {
        lemma_wrap_steps(s.selected_action, s.actions.len());
    }
    if s.runs.len() > 0 {
        lemma_wrap_steps(s.selected_run, s.runs.len());
    }
    if s.deployments.len() > 0 {
        lemma_wrap_steps(s.selected_deployment, s.deployments.len());
    }
    if s.tags.len() > 0 {
        lemma_wrap_steps(s.selected_tag, s.tags.len());
    }
}

/// Outside search, dialogs and zoom, `j` and Down move down in the focused
/// panel, `k` and Up move up.
pub proof fn law_j_k_move_in_the_focused_panel(s: AppModel)
    requires
        s.dialog is None,
        s.window.zoomed is None,
    ensures
        s.handle_key(KeyPress { key: Key::Char('j'), control: false }, false).0 == s.panel_navigation(1i32),
        s.handle_key(KeyPress { key: Key::Down, control: false }, false).0 == s.panel_navigation(1i32),
        s.handle_key(KeyPress { key: Key::Char('k'), control: false }, false).0 == s.panel_navigation(-1i32),
        s.handle_key(KeyPress { key: Key::Up, control: false }, false).0 == s.panel_navigation(-1i32),
{
}

} // verus!
