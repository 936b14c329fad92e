//! The modal dialogs: the form of workflow inputs and the searchable list
//! of options that a dropdown opens.

use vstd::prelude::*;

use crate::inputs::{option_position, position_of, InputKind, InputType, UIWorkflowInputField};
use crate::text::{contains_str, has_substring, lowercase, pop_char, push_char, to_lowercase};
use crate::api::copy_strings;

verus! {

/// Which element of the input form has focus.
#[derive(Debug, Clone, Copy, PartialEq, Eq, Structural)]
pub enum DialogFocus {
    Field(usize),
    ConfirmButton,
    CancelButton,
}

/// The two kinds of dialog.
#[derive(Debug)]
pub enum DialogType {
    /// The form of workflow inputs, or a plain confirmation when there are
    /// no inputs.
    Input {
        fields: Vec<UIWorkflowInputField>,
        focus: DialogFocus,
        repo_name: String,
        action_name: String,
        workflow_id: String,
        is_confirmation: bool,
    },
    /// A searchable list of options for one field of the form.
    DropdownSelection {
        field_name: String,
        options: Vec<String>,
        filtered_options: Vec<String>,
        selected: usize,
        search_query: String,
        target_field_index: usize,
        scroll_offset: usize,
    },
}

/// An open dialog.
#[derive(Debug)]
pub struct DialogState {
    pub dialog_type: DialogType,
    pub open: bool,
}

/// An input of the form as mathematical values.
#[verifier::ext_equal]
pub struct FieldView {
    pub name: Seq<char>,
    pub value: Seq<char>,
    pub required: bool,
    pub description: Option<Seq<char>>,
    pub kind: InputKind,
}

impl View for UIWorkflowInputField {
    type V = FieldView;

    open spec fn view(&self) -> FieldView {
        FieldView {
            name: self.name@,
            value: self.value@,
            required: self.required,
            description: match self.description {
                Some(d) => Some(d@),
                None => None,
            },
            kind: self.input_type@,
        }
    }
}

/// The inputs of a form as mathematical values.
pub open spec fn fields_view(fields: Seq<UIWorkflowInputField>) -> Seq<FieldView> {
    fields.map_values(|f: UIWorkflowInputField| f@)
}

/// A dialog as mathematical values.
#[verifier::ext_equal]
pub enum DialogView {
    Input {
        fields: Seq<FieldView>,
        focus: DialogFocus,
        repo_name: Seq<char>,
        action_name: Seq<char>,
        workflow_id: Seq<char>,
        is_confirmation: bool,
        open: bool,
    },
    Dropdown {
        field_name: Seq<char>,
        options: Seq<Seq<char>>,
        filtered: Seq<Seq<char>>,
        selected: usize,
        query: Seq<char>,
        target: usize,
        scroll: usize,
        open: bool,
    },
}

impl View for DialogState {
    type V = DialogView;

    open spec fn view(&self) -> DialogView {
        match &self.dialog_type {
            DialogType::Input { fields, focus, repo_name, action_name, workflow_id, is_confirmation } => DialogView::Input {
                fields: fields_view(fields@),
                focus: *focus,
                repo_name: repo_name@,
                action_name: action_name@,
                workflow_id: workflow_id@,
                is_confirmation: *is_confirmation,
                open: self.open,
            },
            DialogType::DropdownSelection {
                field_name,
                options,
                filtered_options,
                selected,
                search_query,
                target_field_index,
                scroll_offset,
            } => DialogView::Dropdown {
                field_name: field_name@,
                options: options.deep_view(),
                filtered: filtered_options.deep_view(),
                selected: *selected,
                query: search_query@,
                target: *target_field_index,
                scroll: *scroll_offset,
                open: self.open,
            },
        }
    }
}

/// Number of options a dropdown list shows at once.
pub const VISIBLE_OPTIONS: usize = 15;

/// The options whose lowercased text contains the lowercased query.
pub open spec fn matching_options(options: Seq<Seq<char>>, query: Seq<char>) -> Seq<Seq<char>> {
    options.filter(|o: Seq<char>| has_substring(lowercase(o), lowercase(query)))
}

/// The text of a boolean, as `bool::to_string` writes it.
pub open spec fn bool_text(b: bool) -> Seq<char> {
    if b {
        "true"@
    } else {
        "false"@
    }
}

impl DialogView {
    /// Tab: focus moves through the fields, then Confirm, then Cancel, and
    /// back to the first field.
    pub open spec fn next_field(self) -> DialogView {
        match self {
            DialogView::Input { fields, focus, repo_name, action_name, workflow_id, is_confirmation, open } => {
                let next = match focus {
                    DialogFocus::Field(i) => if i + 1 < fields.len() {
                        DialogFocus::Field((i + 1) as usize)
                    } else {
                        DialogFocus::ConfirmButton
                    },
                    DialogFocus::ConfirmButton => DialogFocus::CancelButton,
                    DialogFocus::CancelButton => if fields.len() > 0 {
                        DialogFocus::Field(0)
                    } else {
                        DialogFocus::ConfirmButton
                    },
                };
                DialogView::Input { fields, focus: next, repo_name, action_name, workflow_id, is_confirmation, open }
            },
            _ => self,
        }
    }

    /// Shift+Tab: the reverse of `next_field`.
    pub open spec fn prev_field(self) -> DialogView {
        match self {
            DialogView::Input { fields, focus, repo_name, action_name, workflow_id, is_confirmation, open } => {
                let prev = match focus {
                    DialogFocus::Field(i) => if i == 0 {
                        DialogFocus::CancelButton
                    } else {
                        DialogFocus::Field((i - 1) as usize)
                    },
                    DialogFocus::ConfirmButton => if fields.len() > 0 {
                        DialogFocus::Field((fields.len() - 1) as usize)
                    } else {
                        DialogFocus::CancelButton
                    },
                    DialogFocus::CancelButton => DialogFocus::ConfirmButton,
                };
                DialogView::Input { fields, focus: prev, repo_name, action_name, workflow_id, is_confirmation, open }
            },
            _ => self,
        }
    }

    /// Up or down in a dropdown list, wrapping, with the list scrolled so
    /// that the selection stays among the visible options.
    pub open spec fn move_selection(self, down: bool) -> DialogView {
        match self {
            DialogView::Dropdown { field_name, options, filtered, selected, query, target, scroll, open } => {
                if filtered.len() == 0 {
                    self
                } else {
                    let sel: int = if down {
                        (selected + 1) % (filtered.len() as int)
                    } else if selected == 0 {
                        filtered.len() - 1
                    } else {
                        selected - 1
                    };
                    let sc: int = if sel < scroll {
                        sel
                    } else if sel >= scroll + VISIBLE_OPTIONS {
                        sel + 1 - VISIBLE_OPTIONS
                    } else {
                        scroll as int
                    };
                    DialogView::Dropdown {
                        field_name,
                        options,
                        filtered,
                        selected: sel as usize,
                        query,
                        target,
                        scroll: sc as usize,
                        open,
                    }
                }
            },
            _ => self,
        }
    }

    /// Up or down: moves focus in the form, or the selection in a list.
    pub open spec fn navigate(self, direction: i32) -> DialogView {
        match self {
            DialogView::Input { .. } => if direction > 0 {
                self.next_field()
            } else {
                self.prev_field()
            },
            DialogView::Dropdown { .. } => self.move_selection(direction > 0),
        }
    }

    /// The input at the focus, when focus is on an input of the form.
    pub open spec fn focused_field(self) -> Option<(usize, FieldView)> {
        match self {
            DialogView::Input { fields, focus, .. } => match focus {
                DialogFocus::Field(i) => if i < fields.len() {
                    Some((i, fields[i as int]))
                } else {
                    None
                },
                _ => None,
            },
            _ => None,
        }
    }

    pub open spec fn with_field(self, i: usize, f: FieldView) -> DialogView {
        match self {
            DialogView::Input { fields, focus, repo_name, action_name, workflow_id, is_confirmation, open } => DialogView::Input {
                fields: fields.update(i as int, f),
                focus,
                repo_name,
                action_name,
                workflow_id,
                is_confirmation,
                open,
            },
            _ => self,
        }
    }

    /// A typed character goes to the focused text input.
    pub open spec fn input_char(self, c: char) -> DialogView {
        match self.focused_field() {
            Some((i, f)) => if f.kind is Text {
                self.with_field(i, FieldView { value: f.value.push(c), ..f })
            } else {
                self
            },
            None => self,
        }
    }

    /// A typed character extends the search of a dropdown list, which then
    /// shows the matching options from the top.
    pub open spec fn search_char(self, c: char) -> DialogView {
        match self {
            DialogView::Dropdown { field_name, options, filtered, selected, query, target, scroll, open } => {
                let q = query.push(c);
                DialogView::Dropdown {
                    field_name,
                    options,
                    filtered: matching_options(options, q),
                    selected: 0,
                    query: q,
                    target,
                    scroll: 0,
                    open,
                }
            },
            _ => self,
        }
    }

    /// Backspace removes the last character of the focused text input, or
    /// of the search of a dropdown list.
    pub open spec fn backspace(self) -> DialogView {
        match self {
            DialogView::Input { .. } => match self.focused_field() {
                Some((i, f)) => if f.kind is Text {
                    let v = if f.value.len() > 0 {
                        f.value.drop_last()
                    } else {
                        f.value
                    };
                    self.with_field(i, FieldView { value: v, ..f })
                } else {
                    self
                },
                None => self,
            },
            DialogView::Dropdown { field_name, options, filtered, selected, query, target, scroll, open } => {
                let q = if query.len() > 0 {
                    query.drop_last()
                } else {
                    query
                };
                DialogView::Dropdown {
                    field_name,
                    options,
                    filtered: if lowercase(q).len() == 0 {
                        options
                    } else {
                        matching_options(options, q)
                    },
                    selected: 0,
                    query: q,
                    target,
                    scroll: 0,
                    open,
                }
            },
        }
    }

    /// Space on a checkbox flips it, and its text follows.
    pub open spec fn toggle_boolean(self) -> DialogView {
        match self.focused_field() {
            Some((i, f)) => match f.kind {
                InputKind::Boolean(b) => self.with_field(
                    i,
                    FieldView { value: bool_text(!b), kind: InputKind::Boolean(!b), ..f },
                ),
                _ => self,
            },
            None => self,
        }
    }

    /// The form with the value of input `i` replaced; a dropdown or choice
    /// input also selects the option equal to the value (or the first).
    pub open spec fn set_field_value(self, i: usize, value: Seq<char>) -> DialogView {
        match self {
            DialogView::Input { fields, .. } => if i < fields.len() {
                let f = fields[i as int];
                let kind = match f.kind {
                    InputKind::Dropdown(o, _) => InputKind::Dropdown(o, option_position(o, value)),
                    InputKind::Choice(o, _) => InputKind::Choice(o, option_position(o, value)),
                    k => k,
                };
                self.with_field(i, FieldView { value, kind, ..f })
            } else {
                self
            },
            _ => self,
        }
    }

    /// Whether Enter would press the Confirm button.
    pub open spec fn confirm_focused(self) -> bool {
        match self {
            DialogView::Input { focus, .. } => focus == DialogFocus::ConfirmButton,
            _ => false,
        }
    }
}

/// A copy of a list of inputs.
pub fn copy_fields(v: &Vec<UIWorkflowInputField>) -> (r: Vec<UIWorkflowInputField>)
    ensures
        fields_view(r@) == fields_view(v@),
        r@.len() == v@.len(),
{
    let mut r: Vec<UIWorkflowInputField> = Vec::new();
    let mut i: usize = 0;
    while i < v.len()
        invariant
            i <= v@.len(),
            r@.len() == i,
            forall|k: int| 0 <= k < i ==> #[trigger] r@[k]@ == v@[k]@,
        decreases v@.len() - i,
    {
        r.push(v[i].copy());
        i = i + 1;
    }
    assert(fields_view(r@) =~= fields_view(v@));
    r
}

impl DialogState {
    /// A copy of the dialog.
    pub fn copy(&self) -> (r: DialogState)
        ensures
            r@ == self@,
    {
        let t = match &self.dialog_type {
            DialogType::Input { fields, focus, repo_name, action_name, workflow_id, is_confirmation } => DialogType::Input {
                fields: copy_fields(fields),
                focus: *focus,
                repo_name: repo_name.clone(),
                action_name: action_name.clone(),
                workflow_id: workflow_id.clone(),
                is_confirmation: *is_confirmation,
            },
            DialogType::DropdownSelection {
                field_name,
                options,
                filtered_options,
                selected,
                search_query,
                target_field_index,
                scroll_offset,
            } => DialogType::DropdownSelection {
                field_name: field_name.clone(),
                options: copy_strings(options),
                filtered_options: copy_strings(filtered_options),
                selected: *selected,
                search_query: search_query.clone(),
                target_field_index: *target_field_index,
                scroll_offset: *scroll_offset,
            },
        };
        DialogState { dialog_type: t, open: self.open }
    }

    /// Tab in the form.
    pub fn next_field(self) -> (r: DialogState)
        ensures
            r@ == self@.next_field(),
    {
        let open = self.open;
        match self.dialog_type {
            DialogType::Input { fields, focus, repo_name, action_name, workflow_id, is_confirmation } => {
                assert(fields_view(fields@).len() == fields@.len());
                let count = fields.len();
                let next = match focus {
                    DialogFocus::Field(i) => if i < usize::MAX && i + 1 < fields.len() {
                        DialogFocus::Field(i + 1)
                    } else {
                        DialogFocus::ConfirmButton
                    },
                    DialogFocus::ConfirmButton => DialogFocus::CancelButton,
                    DialogFocus::CancelButton => if fields.len() > 0 {
                        DialogFocus::Field(0)
                    } else {
                        DialogFocus::ConfirmButton
                    },
                };
                DialogState {
                    dialog_type: DialogType::Input { fields, focus: next, repo_name, action_name, workflow_id, is_confirmation },
                    open,
                }
            },
            t => DialogState { dialog_type: t, open },
        }
    }

    /// Shift+Tab in the form.
    pub fn prev_field(self) -> (r: DialogState)
        ensures
            r@ == self@.prev_field(),
    {
        let open = self.open;
        match self.dialog_type {
            DialogType::Input { fields, focus, repo_name, action_name, workflow_id, is_confirmation } => {
                assert(fields_view(fields@).len() == fields@.len());
                let prev = match focus {
                    DialogFocus::Field(i) => if i == 0 {
                        DialogFocus::CancelButton
                    } else {
                        DialogFocus::Field(i - 1)
                    },
                    DialogFocus::ConfirmButton => if fields.len() > 0 {
                        DialogFocus::Field(fields.len() - 1)
                    } else {
                        DialogFocus::CancelButton
                    },
                    DialogFocus::CancelButton => DialogFocus::ConfirmButton,
                };
                DialogState {
                    dialog_type: DialogType::Input { fields, focus: prev, repo_name, action_name, workflow_id, is_confirmation },
                    open,
                }
            },
            t => DialogState { dialog_type: t, open },
        }
    }

    /// Up or down in the form or in a dropdown list.
    pub fn navigate(self, direction: i32) -> (r: DialogState)
        ensures
            r@ == self@.navigate(direction),
    {
        let open = self.open;
        match self.dialog_type {
            DialogType::Input { fields, focus, repo_name, action_name, workflow_id, is_confirmation } => {
                let d = DialogState {
                    dialog_type: DialogType::Input { fields, focus, repo_name, action_name, workflow_id, is_confirmation },
                    open,
                };
                if direction > 0 {
                    d.next_field()
                } else {
                    d.prev_field()
                }
            },
            DialogType::DropdownSelection {
                field_name,
                options,
                filtered_options,
                selected,
                search_query,
                target_field_index,
                scroll_offset,
            } => {
                let n = filtered_options.len();
                if n == 0 {
                    return DialogState {
                        dialog_type: DialogType::DropdownSelection {
                            field_name,
                            options,
                            filtered_options,
                            selected,
                            search_query,
                            target_field_index,
                            scroll_offset,
                        },
                        open,
                    };
                }
                let sel: usize = if direction > 0 {
                    if selected < usize::MAX {
                        (selected + 1) % n
                    } else {
                        ((selected % n) + 1) % n
                    }
                } else if selected == 0 {
                    n - 1
                } else {
                    selected - 1
                };
                proof {
                    if direction > 0 && selected == usize::MAX {
                        assert(((selected % n) + 1) % (n as int) == (selected + 1) % (n as int)) by (nonlinear_arith)
                            requires n > 0;
                    }
                }
                let sc: usize = if sel < scroll_offset {
                    sel
                } else if scroll_offset <= usize::MAX - VISIBLE_OPTIONS && sel >= scroll_offset + VISIBLE_OPTIONS {
                    sel + 1 - VISIBLE_OPTIONS
                } else {
                    scroll_offset
                };
                DialogState {
                    dialog_type: DialogType::DropdownSelection {
                        field_name,
                        options,
                        filtered_options,
                        selected: sel,
                        search_query,
                        target_field_index,
                        scroll_offset: sc,
                    },
                    open,
                }
            },
        }
    }

    /// A typed character in the form.
    pub fn input_char(self, c: char) -> (r: DialogState)
        ensures
            r@ == self@.input_char(c),
    {
        let open = self.open;
        match self.dialog_type {
            DialogType::Input { mut fields, focus, repo_name, action_name, workflow_id, is_confirmation } => {
                let ghost before = fields@;
                assert(fields_view(before).len() == before.len());
                if let DialogFocus::Field(idx) = focus {
                    if idx < fields.len() {
                        if let InputType::Text = fields[idx].input_type {
                            let mut f = fields[idx].copy();
                            push_char(&mut f.value, c);
                            fields.set(idx, f);
                            assert(fields_view(fields@) =~= fields_view(before).update(idx as int, f@));
                        }
                    }
                }
                DialogState {
                    dialog_type: DialogType::Input { fields, focus, repo_name, action_name, workflow_id, is_confirmation },
                    open,
                }
            },
            t => DialogState { dialog_type: t, open },
        }
    }

    /// A typed character in the search of a dropdown list.
    pub fn search_char(self, c: char) -> (r: DialogState)
        ensures
            r@ == self@.search_char(c),
    {
        let open = self.open;
        match self.dialog_type {
            DialogType::DropdownSelection {
                field_name,
                options,
                filtered_options,
                selected,
                mut search_query,
                target_field_index,
                scroll_offset,
            } => {
                push_char(&mut search_query, c);
                let query = to_lowercase(search_query.as_str());
                let filtered = filter_options(&options, query.as_str());
                DialogState {
                    dialog_type: DialogType::DropdownSelection {
                        field_name,
                        options,
                        filtered_options: filtered,
                        selected: 0,
                        search_query,
                        target_field_index,
                        scroll_offset: 0,
                    },
                    open,
                }
            },
            t => DialogState { dialog_type: t, open },
        }
    }

    /// Backspace in the form or in the search of a dropdown list. A list
    /// whose search it empties shows all its options again.
    pub fn backspace(self) -> (r: DialogState)
        ensures
            r@ == self@.backspace(),
            self@ is Dropdown && self@->Dropdown_query.len() <= 1 ==> r@ is Dropdown
                && r@->Dropdown_filtered == self@->Dropdown_options,
    {
        let open = self.open;
        match self.dialog_type {
            DialogType::Input { mut fields, focus, repo_name, action_name, workflow_id, is_confirmation } => {
                let ghost before = fields@;
                assert(fields_view(before).len() == before.len());
                if let DialogFocus::Field(idx) = focus {
                    if idx < fields.len() {
                        if let InputType::Text = fields[idx].input_type {
                            let mut f = fields[idx].copy();
                            pop_char(&mut f.value);
                            fields.set(idx, f);
                            assert(fields_view(fields@) =~= fields_view(before).update(idx as int, f@));
                        }
                    }
                }
                DialogState {
                    dialog_type: DialogType::Input { fields, focus, repo_name, action_name, workflow_id, is_confirmation },
                    open,
                }
            },
            DialogType::DropdownSelection {
                field_name,
                options,
                filtered_options,
                selected,
                mut search_query,
                target_field_index,
                scroll_offset,
            } => {
                pop_char(&mut search_query);
                let query = to_lowercase(search_query.as_str());
                let filtered = if query.as_str().unicode_len() == 0 {
                    copy_strings(&options)
                } else {
                    filter_options(&options, query.as_str())
                };
                DialogState {
                    dialog_type: DialogType::DropdownSelection {
                        field_name,
                        options,
                        filtered_options: filtered,
                        selected: 0,
                        search_query,
                        target_field_index,
                        scroll_offset: 0,
                    },
                    open,
                }
            },
        }
    }

    /// Space on a checkbox of the form.
    pub fn toggle_boolean(self) -> (r: DialogState)
        ensures
            r@ == self@.toggle_boolean(),
    {
        let open = self.open;
        match self.dialog_type {
            DialogType::Input { mut fields, focus, repo_name, action_name, workflow_id, is_confirmation } => {
                let ghost before = fields@;
                assert(fields_view(before).len() == before.len());
                if let DialogFocus::Field(idx) = focus {
                    if idx < fields.len() {
                        if let InputType::Boolean { value } = fields[idx].input_type {
                            let mut f = fields[idx].copy();
                            let flipped = !value;
                            f.input_type = InputType::Boolean { value: flipped };
                            f.value = if flipped {
                                crate::text::owned("true")
                            } else {
                                crate::text::owned("false")
                            };
                            fields.set(idx, f);
                            assert(fields_view(fields@) =~= fields_view(before).update(idx as int, f@));
                        }
                    }
                }
                DialogState {
                    dialog_type: DialogType::Input { fields, focus, repo_name, action_name, workflow_id, is_confirmation },
                    open,
                }
            },
            t => DialogState { dialog_type: t, open },
        }
    }

    /// Replaces the value of input `i` of the form.
    pub fn set_field_value(self, i: usize, value: String) -> (r: DialogState)
        ensures
            r@ == self@.set_field_value(i, value@),
    {
        let open = self.open;
        match self.dialog_type {
            DialogType::Input { mut fields, focus, repo_name, action_name, workflow_id, is_confirmation } => {
                let ghost before = fields@;
                assert(fields_view(before).len() == before.len());
                if i < fields.len() {
                    let mut f = fields[i].copy();
                    let kind = match &f.input_type {
                        InputType::Dropdown { options, .. } => {
                            let sel = position_of(options, value.as_str());
                            InputType::Dropdown { options: copy_strings(options), selected: sel }
                        },
                        InputType::Choice { options, .. } => {
                            let sel = position_of(options, value.as_str());
                            InputType::Choice { options: copy_strings(options), selected: sel }
                        },
                        k => k.copy(),
                    };
                    f.input_type = kind;
                    f.value = value;
                    fields.set(i, f);
                    assert(fields_view(fields@) =~= fields_view(before).update(i as int, f@));
                }
                DialogState {
                    dialog_type: DialogType::Input { fields, focus, repo_name, action_name, workflow_id, is_confirmation },
                    open,
                }
            },
            t => DialogState { dialog_type: t, open },
        }
    }

    /// Whether Enter would press the Confirm button.
    pub fn confirm_focused(&self) -> (r: bool)
        ensures
            r == self@.confirm_focused(),
    {
        match &self.dialog_type {
            DialogType::Input { focus, .. } => match focus {
                DialogFocus::ConfirmButton => true,
                _ => false,
            },
            DialogType::DropdownSelection { .. } => false,
        }
    }
}

/// The options whose lowercased text contains `lower_query`.
pub fn filter_options(options: &Vec<String>, lower_query: &str) -> (r: Vec<String>)
    ensures
        r.deep_view() == options.deep_view().filter(
            |o: Seq<char>| has_substring(lowercase(o), lower_query@),
        ),
{
    let ghost pred = |o: Seq<char>| has_substring(lowercase(o), lower_query@);
    let ghost dv = options.deep_view();
    let mut r: Vec<String> = Vec::new();
    let mut i: usize = 0;
    while i < options.len()
        invariant
            i <= options@.len(),
            dv == options.deep_view(),
            dv.len() == options@.len(),
            pred == (|o: Seq<char>| has_substring(lowercase(o), lower_query@)),
            r.deep_view() == dv.take(i as int).filter(pred),
        decreases options@.len() - i,
    {
        proof {
            dv.take(i as int).lemma_filter_push(dv[i as int], pred);
            assert(dv.take(i + 1) == dv.take(i as int).push(dv[i as int]));
            assert(dv[i as int] == options@[i as int]@);
        }
        let lower = to_lowercase(options[i].as_str());
        let ghost before = r.deep_view();
        if contains_str(lower.as_str(), lower_query) {
            r.push(options[i].clone());
            assert(r.deep_view() =~= before.push(dv[i as int]));
        } else {
            assert(r.deep_view() =~= before);
        }
        i = i + 1;
    }
    assert(dv.take(options@.len() as int) == dv);
    r
}

} // verus!
