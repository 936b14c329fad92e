//! Search, list navigation and the dialog operations of the application
//! state.

use vstd::prelude::*;

use crate::app_state::{next_index, prev_index, wrap_next, wrap_prev, AppModel, AppState};
use crate::dialog::{DialogFocus, DialogState, DialogType, DialogView, FieldView, fields_view, filter_options};
use crate::inputs::{InputKind, InputType, UIWorkflowInputField};
use crate::text::{has_substring, lowercase, pop_char, push_char, str_eq, to_lowercase};
use crate::api::copy_strings;

verus! {

/// The repositories whose lowercased name contains the lowercased query;
/// all of them when the query is empty.
pub open spec fn repo_matches(repos: Seq<Seq<char>>, query: Seq<char>) -> Seq<Seq<char>> {
    if query.len() == 0 {
        repos
    } else {
        repos.filter(|r: Seq<char>| has_substring(lowercase(r), lowercase(query)))
    }
}

/// The repositories with the pinned ones first; each group keeps its order.
pub open spec fn with_pins(base: Seq<Seq<char>>, pinned: Seq<Seq<char>>) -> Seq<Seq<char>> {
    base.filter(|r: Seq<char>| pinned.contains(r)) + base.filter(|r: Seq<char>| !pinned.contains(r))
}

/// The largest index below `n`, or 0.
pub open spec fn last_index(n: nat) -> usize {
    if n == 0 {
        0
    } else {
        (n - 1) as usize
    }
}

impl AppModel {
    /// Recomputes the shown repositories from the query and the pins, and
    /// keeps the selection inside the list.
    pub open spec fn filter_repos(self) -> AppModel {
        let filtered = with_pins(repo_matches(self.repos, self.search_query), self.pinned_repos);
        let sel = if self.selected_repo >= filtered.len() {
            last_index(filtered.len())
        } else {
            self.selected_repo
        };
        AppModel {
            filtered_repos: filtered,
            selected_repo: sel,
            repo_list_selected: if filtered.len() > 0 { Some(sel) } else { None },
            ..self
        }
    }

    pub open spec fn add_to_search(self, c: char) -> AppModel {
        AppModel {
            needs_action_reload: true,
            ..AppModel { search_query: self.search_query.push(c), ..self }.filter_repos()
        }
    }

    pub open spec fn remove_from_search(self) -> AppModel {
        let q = if self.search_query.len() > 0 { self.search_query.drop_last() } else { self.search_query };
        AppModel { needs_action_reload: true, ..AppModel { search_query: q, ..self }.filter_repos() }
    }

    pub open spec fn clear_search(self) -> AppModel {
        AppModel {
            needs_action_reload: true,
            ..AppModel { search_query: Seq::empty(), ..self }.filter_repos()
        }
    }

    pub open spec fn next_repo(self) -> AppModel {
        if self.filtered_repos.len() > 0 {
            let s = wrap_next(self.selected_repo, self.filtered_repos.len());
            AppModel { selected_repo: s, repo_list_selected: Some(s), needs_action_reload: true, ..self }
        } else {
            self
        }
    }

    pub open spec fn previous_repo(self) -> AppModel {
        if self.filtered_repos.len() > 0 {
            let s = wrap_prev(self.selected_repo, self.filtered_repos.len());
            AppModel { selected_repo: s, repo_list_selected: Some(s), needs_action_reload: true, ..self }
        } else {
            self
        }
    }

    pub open spec fn next_action(self) -> AppModel {
        if self.actions.len() > 0 {
            let s = wrap_next(self.selected_action, self.actions.len());
            AppModel { selected_action: s, actions_list_selected: Some(s), ..self }
        } else {
            self
        }
    }

    pub open spec fn previous_action(self) -> AppModel {
        if self.actions.len() > 0 {
            let s = wrap_prev(self.selected_action, self.actions.len());
            AppModel { selected_action: s, actions_list_selected: Some(s), ..self }
        } else {
            self
        }
    }

    pub open spec fn next_tag(self) -> AppModel {
        if self.tags.len() > 0 {
            let s = wrap_next(self.selected_tag, self.tags.len());
            AppModel { selected_tag: s, tags_list_selected: Some(s), ..self }
        } else {
            self
        }
    }

    pub open spec fn previous_tag(self) -> AppModel {
        if self.tags.len() > 0 {
            let s = wrap_prev(self.selected_tag, self.tags.len());
            AppModel { selected_tag: s, tags_list_selected: Some(s), ..self }
        } else {
            self
        }
    }

    /// Applies a change to the open dialog, if any.
    pub open spec fn with_dialog(self, f: spec_fn(DialogView) -> DialogView) -> AppModel {
        match self.dialog {
            Some(d) => AppModel { dialog: Some(f(d)), ..self },
            None => self,
        }
    }

    /// Opens the input form for the selected workflow of the selected
    /// repository; without inputs it is a plain confirmation.
    pub open spec fn open_dialog(self, fields: Seq<FieldView>) -> AppModel {
        let repo_name = if self.selected_repo < self.filtered_repos.len() {
            self.filtered_repos[self.selected_repo as int]
        } else {
            Seq::empty()
        };
        let action_name = if self.selected_action < self.actions.len() {
            self.actions[self.selected_action as int].name@
        } else {
            Seq::empty()
        };
        let workflow_id = if self.selected_action < self.actions.len() {
            self.actions[self.selected_action as int].workflow_id@
        } else {
            Seq::empty()
        };
        AppModel {
            dialog: Some(
                DialogView::Input {
                    fields,
                    focus: if fields.len() == 0 {
                        DialogFocus::ConfirmButton
                    } else {
                        DialogFocus::Field(0)
                    },
                    repo_name,
                    action_name,
                    workflow_id,
                    is_confirmation: fields.len() == 0,
                    open: true,
                },
            ),
            ..self
        }
    }

    pub open spec fn close_dialog(self) -> AppModel {
        AppModel { dialog: None, previous_dialog: None, ..self }
    }

    /// Opens the option list of a field, keeping the form to come back to.
    pub open spec fn open_dropdown_selection(
        self,
        field_name: Seq<char>,
        options: Seq<Seq<char>>,
        target: usize,
    ) -> AppModel {
        AppModel {
            previous_dialog: self.dialog,
            dialog: Some(
                DialogView::Dropdown {
                    field_name,
                    options,
                    filtered: options,
                    selected: 0,
                    query: Seq::empty(),
                    target,
                    scroll: 0,
                    open: true,
                },
            ),
            ..self
        }
    }

    /// Leaves the option list and returns to the form, or closes the dialog
    /// when there is no form to return to.
    pub open spec fn cancel_dropdown_selection(self) -> AppModel {
        match self.previous_dialog {
            Some(p) => AppModel { dialog: Some(p), previous_dialog: None, ..self },
            None => self.close_dialog(),
        }
    }

    /// Takes the highlighted option into the form field the list was opened
    /// for. The option list is dropped in every case; the form comes back
    /// only when an option was highlighted.
    pub open spec fn select_dropdown_option(self) -> AppModel {
        match self.dialog {
            Some(d) => match d {
                DialogView::Dropdown { filtered, selected, target, .. } => if filtered.len() > 0
                    && selected < filtered.len() {
                    match self.previous_dialog {
                        Some(p) => AppModel {
                            dialog: Some(p.set_field_value(target, filtered[selected as int])),
                            previous_dialog: None,
                            ..self
                        },
                        None => AppModel { dialog: None, ..self },
                    }
                } else {
                    AppModel { dialog: None, ..self }
                },
                _ => AppModel { dialog: None, ..self },
            },
            None => self,
        }
    }

    /// Space on a dropdown or choice field opens its option list.
    pub open spec fn open_focused_dropdown(self) -> AppModel {
        match self.dialog {
            Some(d) => match d.focused_field() {
                Some((i, f)) => match f.kind {
                    InputKind::Dropdown(o, _) => self.open_dropdown_selection(f.name, o, i),
                    InputKind::Choice(o, _) => self.open_dropdown_selection(f.name, o, i),
                    _ => self,
                },
                None => self,
            },
            None => self,
        }
    }
}

impl AppState {
    /// Recomputes the shown repositories from the search query and the pins.
    pub fn filter_repos(&mut self)
        ensures
            final(self)@ == old(self)@.filter_repos(),
    {
        let base = if self.search_query.as_str().unicode_len() == 0 {
            copy_strings(&self.repos)
        } else {
            let query = to_lowercase(self.search_query.as_str());
            filter_options(&self.repos, query.as_str())
        };
        self.filtered_repos = sorted_with_pins(&base, &self.pinned_repos);
        if self.selected_repo >= self.filtered_repos.len() {
            self.selected_repo = if self.filtered_repos.len() > 0 { self.filtered_repos.len() - 1 } else { 0 };
        }
        self.repo_list_selected = if self.filtered_repos.len() > 0 { Some(self.selected_repo) } else { None };
    }

    pub fn add_to_search(&mut self, c: char)
        ensures
            final(self)@ == old(self)@.add_to_search(c),
    {
        push_char(&mut self.search_query, c);
        self.filter_repos();
        self.needs_action_reload = true;
    }

    pub fn remove_from_search(&mut self)
        ensures
            final(self)@ == old(self)@.remove_from_search(),
    {
        pop_char(&mut self.search_query);
        self.filter_repos();
        self.needs_action_reload = true;
    }

    pub fn clear_search(&mut self)
        ensures
            final(self)@ == old(self)@.clear_search(),
    {
        self.search_query = String::new();
        self.filter_repos();
        self.needs_action_reload = true;
    }

    pub fn next_repo(&mut self)
        ensures
            final(self)@ == old(self)@.next_repo(),
    {
        if self.filtered_repos.len() > 0 {
            self.selected_repo = next_index(self.selected_repo, self.filtered_repos.len());
            self.repo_list_selected = Some(self.selected_repo);
            self.needs_action_reload = true;
        }
    }

    pub fn previous_repo(&mut self)
        ensures
            final(self)@ == old(self)@.previous_repo(),
    {
        if self.filtered_repos.len() > 0 {
            self.selected_repo = prev_index(self.selected_repo, self.filtered_repos.len());
            self.repo_list_selected = Some(self.selected_repo);
            self.needs_action_reload = true;
        }
    }

    pub fn next_action(&mut self)
        ensures
            final(self)@ == old(self)@.next_action(),
    {
        if self.actions.len() > 0 {
            self.selected_action = next_index(self.selected_action, self.actions.len());
            self.actions_list_selected = Some(self.selected_action);
        }
    }

    pub fn previous_action(&mut self)
        ensures
            final(self)@ == old(self)@.previous_action(),
    {
        if self.actions.len() > 0 {
            self.selected_action = prev_index(self.selected_action, self.actions.len());
            self.actions_list_selected = Some(self.selected_action);
        }
    }

    pub fn next_tag(&mut self)
        ensures
            final(self)@ == old(self)@.next_tag(),
    {
        if self.tags.len() > 0 {
            self.selected_tag = next_index(self.selected_tag, self.tags.len());
            self.tags_list_selected = Some(self.selected_tag);
        }
    }

    pub fn previous_tag(&mut self)
        ensures
            final(self)@ == old(self)@.previous_tag(),
    {
        if self.tags.len() > 0 {
            self.selected_tag = prev_index(self.selected_tag, self.tags.len());
            self.tags_list_selected = Some(self.selected_tag);
        }
    }

    /// Tab in the form.
    pub fn dialog_next_field(&mut self)
        ensures
            final(self)@ == old(self)@.with_dialog(|d: DialogView| d.next_field()),
    {
        if let Some(d) = self.dialog.take() {
            self.dialog = Some(d.next_field());
        }
    }

    /// Shift+Tab in the form.
    pub fn dialog_prev_field(&mut self)
        ensures
            final(self)@ == old(self)@.with_dialog(|d: DialogView| d.prev_field()),
    {
        if let Some(d) = self.dialog.take() {
            self.dialog = Some(d.prev_field());
        }
    }

    /// Up or down in the dialog.
    pub fn dialog_navigate(&mut self, direction: i32)
        ensures
            final(self)@ == old(self)@.with_dialog(|d: DialogView| d.navigate(direction)),
    {
        if let Some(d) = self.dialog.take() {
            self.dialog = Some(d.navigate(direction));
        }
    }

    /// A typed character in the form.
    pub fn dialog_input_char(&mut self, c: char)
        ensures
            final(self)@ == old(self)@.with_dialog(|d: DialogView| d.input_char(c)),
    {
        if let Some(d) = self.dialog.take() {
            self.dialog = Some(d.input_char(c));
        }
    }

    /// A typed character in the search of an option list.
    pub fn dialog_search_char(&mut self, c: char)
        ensures
            final(self)@ == old(self)@.with_dialog(|d: DialogView| d.search_char(c)),
    {
        if let Some(d) = self.dialog.take() {
            self.dialog = Some(d.search_char(c));
        }
    }

    /// Backspace in the dialog.
    pub fn dialog_backspace(&mut self)
        ensures
            final(self)@ == old(self)@.with_dialog(|d: DialogView| d.backspace()),
    {
        if let Some(d) = self.dialog.take() {
            self.dialog = Some(d.backspace());
        }
    }

    /// Space on a checkbox of the form.
    pub fn dialog_toggle_boolean(&mut self)
        ensures
            final(self)@ == old(self)@.with_dialog(|d: DialogView| d.toggle_boolean()),
    {
        if let Some(d) = self.dialog.take() {
            self.dialog = Some(d.toggle_boolean());
        }
    }

    /// Opens the input form for the selected workflow.
    pub fn open_dialog(&mut self, fields: Vec<UIWorkflowInputField>)
        ensures
            final(self)@ == old(self)@.open_dialog(fields_view(fields@)),
    {
        let repo_name = if self.selected_repo < self.filtered_repos.len() {
            self.filtered_repos[self.selected_repo].clone()
        } else {
            String::new()
        };
        let (action_name, workflow_id) = if self.selected_action < self.actions.len() {
            (self.actions[self.selected_action].name.clone(), self.actions[self.selected_action].workflow_id.clone())
        } else {
            (String::new(), String::new())
        };
        proof {
            if self.selected_repo < self.filtered_repos.len() {
                assert(self.filtered_repos.deep_view()[self.selected_repo as int]
                    == self.filtered_repos@[self.selected_repo as int]@);
            }
        }
        let is_confirmation = fields.len() == 0;
        let initial_focus = if is_confirmation {
            DialogFocus::ConfirmButton
        } else {
            DialogFocus::Field(0)
        };
        assert(fields_view(fields@).len() == fields@.len());
        self.dialog = Some(
            DialogState {
                dialog_type: DialogType::Input {
                    fields,
                    focus: initial_focus,
                    repo_name,
                    action_name,
                    workflow_id,
                    is_confirmation,
                },
                open: true,
            },
        );
    }

    /// Closes the dialog.
    pub fn close_dialog(&mut self)
        ensures
            final(self)@ == old(self)@.close_dialog(),
    {
        self.dialog = None;
        self.previous_dialog = None;
    }

    /// Opens the option list of a field.
    pub fn open_dropdown_selection(&mut self, field_name: String, options: Vec<String>, target_field_index: usize)
        ensures
            final(self)@ == old(self)@.open_dropdown_selection(
                field_name@,
                options.deep_view(),
                target_field_index,
            ),
    {
        let filtered_options = copy_strings(&options);
        self.previous_dialog = self.dialog.take();
        self.dialog = Some(
            DialogState {
                dialog_type: DialogType::DropdownSelection {
                    field_name,
                    options,
                    filtered_options,
                    selected: 0,
                    search_query: String::new(),
                    target_field_index,
                    scroll_offset: 0,
                },
                open: true,
            },
        );
    }

    /// Leaves the option list.
    pub fn cancel_dropdown_selection(&mut self)
        ensures
            final(self)@ == old(self)@.cancel_dropdown_selection(),
    {
        if let Some(previous) = self.previous_dialog.take() {
            self.dialog = Some(previous);
        } else {
            self.close_dialog();
        }
    }

    /// Takes the highlighted option into the form.
    pub fn dialog_select_dropdown_option(&mut self)
        ensures
            final(self)@ == old(self)@.select_dropdown_option(),
    {
        if let Some(dialog) = self.dialog.take() {
            if let DialogType::DropdownSelection { filtered_options, selected, target_field_index, .. } =
                dialog.dialog_type {
                if filtered_options.len() > 0 && selected < filtered_options.len() {
                    let selected_value = filtered_options[selected].clone();
                    assert(filtered_options.deep_view()[selected as int] == filtered_options@[selected as int]@);
                    if let Some(restored) = self.previous_dialog.take() {
                        self.dialog = Some(restored.set_field_value(target_field_index, selected_value));
                    }
                }
            }
        }
    }

    /// Opens the option list of the focused dropdown or choice field.
    pub fn dialog_open_dropdown(&mut self)
        ensures
            final(self)@ == old(self)@.open_focused_dropdown(),
    {
        let mut info: Option<(String, Vec<String>, usize)> = None;
        if let Some(dialog) = &self.dialog {
            if let DialogType::Input { fields, focus, .. } = &dialog.dialog_type {
                if let DialogFocus::Field(idx) = *focus {
                    if idx < fields.len() {
                        let f = &fields[idx];
                        assert(fields_view(fields@)[idx as int] == f@);
                        match &f.input_type {
                            InputType::Dropdown { options, .. } => {
                                info = Some((f.name.clone(), copy_strings(options), idx));
                            },
                            InputType::Choice { options, .. } => {
                                info = Some((f.name.clone(), copy_strings(options), idx));
                            },
                            _ => {},
                        }
                    }
                }
            }
        }
        if let Some((name, options, idx)) = info {
            self.open_dropdown_selection(name, options, idx);
        }
    }

    /// Whether Enter would press the Confirm button of the form.
    pub fn dialog_handle_button_press(&self) -> (r: bool)
        ensures
            r == (self@.dialog matches Some(d) && d.confirm_focused()),
    {
        match &self.dialog {
            Some(d) => d.confirm_focused(),
            None => false,
        }
    }
}

/// Whether `name` is among `names`.
pub fn contains_name(names: &Vec<String>, name: &str) -> (r: bool)
    ensures
        r == names.deep_view().contains(name@),
{
    let ghost dv = names.deep_view();
    let mut i: usize = 0;
    while i < names.len()
        invariant
            i <= names@.len(),
            dv == names.deep_view(),
            dv.len() == names@.len(),
            forall|j: int| 0 <= j < i ==> dv[j] != name@,
        decreases names@.len() - i,
    {
        assert(dv[i as int] == names@[i as int]@);
        if str_eq(names[i].as_str(), name) {
            return true;
        }
        i = i + 1;
    }
    false
}

/// The names with the pinned ones first; each group keeps its order.
pub fn sorted_with_pins(base: &Vec<String>, pinned: &Vec<String>) -> (r: Vec<String>)
    ensures
        r.deep_view() == with_pins(base.deep_view(), pinned.deep_view()),
{
    let ghost dv = base.deep_view();
    let ghost pv = pinned.deep_view();
    let ghost is_pinned = |r: Seq<char>| pv.contains(r);
    let ghost not_pinned = |r: Seq<char>| !pv.contains(r);
    let mut first: Vec<String> = Vec::new();
    let mut rest: Vec<String> = Vec::new();
    let mut i: usize = 0;
    while i < base.len()
        invariant
            i <= base@.len(),
            dv == base.deep_view(),
            pv == pinned.deep_view(),
            dv.len() == base@.len(),
            is_pinned == (|r: Seq<char>| pv.contains(r)),
            not_pinned == (|r: Seq<char>| !pv.contains(r)),
            first.deep_view() == dv.take(i as int).filter(is_pinned),
            rest.deep_view() == dv.take(i as int).filter(not_pinned),
        decreases base@.len() - i,
    {
        proof {
            dv.take(i as int).lemma_filter_push(dv[i as int], is_pinned);
            dv.take(i as int).lemma_filter_push(dv[i as int], not_pinned);
            assert(dv.take(i + 1) == dv.take(i as int).push(dv[i as int]));
            assert(dv[i as int] == base@[i as int]@);
        }
        let ghost f0 = first.deep_view();
        let ghost r0 = rest.deep_view();
        if contains_name(pinned, base[i].as_str()) {
            first.push(base[i].clone());
            assert(first.deep_view() =~= f0.push(dv[i as int]));
        } else {
            rest.push(base[i].clone());
            assert(rest.deep_view() =~= r0.push(dv[i as int]));
        }
        i = i + 1;
    }
    assert(dv.take(base@.len() as int) == dv);
    let ghost fv = first.deep_view();
    let ghost rv = rest.deep_view();
    let mut j: usize = 0;
    while j < rest.len()
        invariant
            j <= rest@.len(),
            rv == rest.deep_view(),
            rv.len() == rest@.len(),
            first.deep_view() == fv + rv.take(j as int),
        decreases rest@.len() - j,
    {
        let ghost f1 = first.deep_view();
        first.push(rest[j].clone());
        assert(rv[j as int] == rest@[j as int]@);
        assert(first.deep_view() =~= f1.push(rv[j as int]));
        assert(fv + rv.take(j + 1) =~= (fv + rv.take(j as int)).push(rv[j as int]));
        j = j + 1;
    }
    assert(rv.take(rest@.len() as int) == rv);
    first
}

} // verus!
