//! Dispatching a workflow: what to ask the provider when the user triggers
//! a workflow or confirms the input form, and what the answer does to the
//! state. The requests themselves are made by the caller.

use vstd::prelude::*;

use crate::api::{copy_strings, Action, ProviderError, Tag, WorkflowInputField};
use crate::app_state::{opt_view, AppModel, AppState};
use crate::dialog::{fields_view, DialogFocus, DialogState, DialogType, DialogView, FieldView};
use crate::inputs::{
    convert_workflow_input_field, converted, input_kind, lower_default, option_position,
    position_of, InputKind, InputType, UIWorkflowInputField,
};
use crate::text::{append, lowercase, owned, str_eq};

verus! {

/// What is needed to fetch the inputs of the selected workflow.
#[derive(Debug)]
pub struct ExecuteRequest {
    pub repo_name: String,
    pub workflow_id: String,
    pub action_name: String,
    /// Branches, then tags written "tags/<name>".
    pub ref_options: Vec<String>,
    /// The option naming the default branch, or 0.
    pub default_idx: usize,
}

/// A workflow dispatch to perform.
#[derive(Debug)]
pub struct DispatchRequest {
    pub repo_name: String,
    /// The workflow to run: its file name or numeric id.
    pub workflow_id: String,
    /// The workflow's display name, for the notification.
    pub action_name: String,
    pub git_ref: String,
    /// Every input of the form except "ref", as (name, value).
    pub inputs: Vec<(String, String)>,
    /// Whether the inputs are sent along with the ref.
    pub with_inputs: bool,
}

/// The refs a workflow can run on: the branches, then the tags.
pub open spec fn ref_options(branches: Seq<crate::api::Branch>, tags: Seq<Tag>) -> Seq<Seq<char>> {
    branches.map_values(|b: crate::api::Branch| b.name@) + tags.map_values(|t: Tag| "tags/"@ + t.name@)
}

/// The names of the tags.
pub open spec fn tag_names(tags: Seq<Tag>) -> Seq<Seq<char>> {
    tags.map_values(|t: Tag| t.name@)
}

/// The first input named `name`, if any.
pub open spec fn first_named(fields: Seq<FieldView>, name: Seq<char>) -> Option<int>
    decreases fields.len(),
{
    if fields.len() == 0 {
        None
    } else {
        match first_named(fields.drop_last(), name) {
            Some(i) => Some(i),
            None => if fields.last().name == name {
                Some(fields.len() - 1)
            } else {
                None
            },
        }
    }
}

/// The ref the form selects: the value of its "ref" input, else the
/// default branch.
pub open spec fn ref_of(fields: Seq<FieldView>, default_branch: Seq<char>) -> Seq<char> {
    match first_named(fields, "ref"@) {
        Some(i) => fields[i].value,
        None => default_branch,
    }
}

/// The inputs sent with a dispatch: every input but "ref".
pub open spec fn dispatch_inputs(fields: Seq<FieldView>) -> Seq<(Seq<char>, Seq<char>)> {
    fields.filter(|f: FieldView| f.name != "ref"@).map_values(|f: FieldView| (f.name, f.value))
}

/// The input of the form made from a workflow input.
pub open spec fn converted_field(input: WorkflowInputField, tags: Seq<Seq<char>>) -> FieldView {
    let c = converted(
        input_kind(input, lowercase(input.name@), lower_default(input), tags),
        match input.default {
            Some(d) => d@,
            None => Seq::<char>::empty(),
        },
    );
    FieldView {
        name: input.name@,
        value: c.1,
        required: input.required,
        description: opt_view(input.description),
        kind: c.0,
    }
}

/// The "ref" input placed first in the form.
pub open spec fn ref_field(options: Seq<Seq<char>>, default_idx: usize, default_branch: Seq<char>) -> FieldView {
    FieldView {
        name: "ref"@,
        value: if default_idx < options.len() {
            options[default_idx as int]
        } else {
            default_branch
        },
        required: true,
        description: Some("Branch or tag to run workflow on"@),
        kind: InputKind::Dropdown(options, default_idx as nat),
    }
}

impl AppModel {
    /// Whether a workflow can be triggered: a repository and a workflow are
    /// shown.
    pub open spec fn can_execute(self) -> bool {
        self.filtered_repos.len() > 0 && self.actions.len() > 0
    }

    /// The text shown when a dispatch succeeded.
    pub open spec fn triggered_text(action: Seq<char>, repo: Seq<char>, git_ref: Seq<char>) -> Seq<char> {
        "Triggered "@ + action + " on "@ + repo + " @ "@ + git_ref
    }

    /// The form for a workflow: the ref first, then its inputs.
    pub open spec fn finish_execute_ok(
        self,
        options: Seq<Seq<char>>,
        default_idx: usize,
        inputs: Seq<WorkflowInputField>,
    ) -> AppModel {
        let tags = tag_names(self.tags);
        self.open_dialog(
            seq![ref_field(options, default_idx, self.default_branch)] + inputs.map_values(
                |i: WorkflowInputField| converted_field(i, tags),
            ),
        )
    }

    /// Enter in the dialog, apart from the dispatch itself: Cancel closes
    /// the dialog, Enter on a field moves to Confirm, Enter in an option
    /// list takes the option.
    pub open spec fn submit_dialog(self) -> AppModel {
        match self.dialog {
            Some(d) => match d {
                DialogView::Input { fields, focus, repo_name, action_name, workflow_id, is_confirmation, open } => match focus {
                    DialogFocus::ConfirmButton => self,
                    DialogFocus::CancelButton => self.close_dialog(),
                    DialogFocus::Field(_) => AppModel {
                        dialog: Some(
                            DialogView::Input {
                                fields,
                                focus: DialogFocus::ConfirmButton,
                                repo_name,
                                action_name,
                                workflow_id,
                                is_confirmation,
                                open,
                            },
                        ),
                        ..self
                    },
                },
                DialogView::Dropdown { .. } => self.select_dropdown_option(),
            },
            None => self,
        }
    }
}

impl DispatchRequest {
    /// What the request asks for, as mathematical values.
    pub open spec fn spec_view(self) -> (Seq<char>, Seq<char>, Seq<char>, Seq<char>, Seq<(Seq<char>, Seq<char>)>, bool) {
        (
            self.repo_name@,
            self.workflow_id@,
            self.action_name@,
            self.git_ref@,
            self.inputs@.map_values(|p: (String, String)| (p.0@, p.1@)),
            self.with_inputs,
        )
    }
}

/// The dispatch that Confirm in this form asks for.
pub open spec fn dispatch_of(d: DialogView, default_branch: Seq<char>) -> Option<
    (Seq<char>, Seq<char>, Seq<char>, Seq<char>, Seq<(Seq<char>, Seq<char>)>, bool),
> {
    match d {
        DialogView::Input { fields, focus, repo_name, action_name, workflow_id, is_confirmation, .. } => if focus
            == DialogFocus::ConfirmButton {
            let inputs = dispatch_inputs(fields);
            Some(
                (
                    repo_name,
                    workflow_id,
                    action_name,
                    ref_of(fields, default_branch),
                    inputs,
                    !(is_confirmation || inputs.len() == 0),
                ),
            )
        } else {
            None
        },
        _ => None,
    }
}

/// The refs a workflow can run on, as strings.
fn collect_ref_options(branches: &Vec<crate::api::Branch>, tags: &Vec<Tag>) -> (r: Vec<String>)
    ensures
        r.deep_view() == ref_options(branches@, tags@),
{
    let ghost bs = branches@.map_values(|b: crate::api::Branch| b.name@);
    let ghost ts = tags@.map_values(|t: Tag| "tags/"@ + t.name@);
    let mut r: Vec<String> = Vec::new();
    let mut i: usize = 0;
    while i < branches.len()
        invariant
            i <= branches@.len(),
            bs == branches@.map_values(|b: crate::api::Branch| b.name@),
            r.deep_view() == bs.take(i as int),
        decreases branches@.len() - i,
    {
        let ghost before = r.deep_view();
        r.push(branches[i].name.clone());
        assert(r.deep_view() =~= before.push(branches@[i as int].name@));
        assert(bs.take(i + 1) =~= bs.take(i as int).push(bs[i as int]));
        i = i + 1;
    }
    assert(bs.take(branches@.len() as int) == bs);
    let mut j: usize = 0;
    while j < tags.len()
        invariant
            j <= tags@.len(),
            bs == branches@.map_values(|b: crate::api::Branch| b.name@),
            ts == tags@.map_values(|t: Tag| "tags/"@ + t.name@),
            r.deep_view() == bs + ts.take(j as int),
        decreases tags@.len() - j,
    {
        let mut s = owned("tags/");
        append(&mut s, tags[j].name.as_str());
        let ghost before = r.deep_view();
        r.push(s);
        assert(r.deep_view() =~= before.push(s@));
        assert(ts[j as int] == s@);
        assert(bs + ts.take(j + 1) =~= (bs + ts.take(j as int)).push(ts[j as int]));
        j = j + 1;
    }
    assert(ts.take(tags@.len() as int) == ts);
    r
}

/// The names of the tags, as strings.
fn collect_tag_names(tags: &Vec<Tag>) -> (r: Vec<String>)
    ensures
        r.deep_view() == tag_names(tags@),
{
    let mut r: Vec<String> = Vec::new();
    let mut j: usize = 0;
    while j < tags.len()
        invariant
            j <= tags@.len(),
            r.deep_view() == tag_names(tags@).take(j as int),
        decreases tags@.len() - j,
    {
        let ghost before = r.deep_view();
        r.push(tags[j].name.clone());
        assert(r.deep_view() =~= before.push(tags@[j as int].name@));
        assert(tag_names(tags@).take(j + 1) =~= tag_names(tags@).take(j as int).push(tag_names(tags@)[j as int]));
        j = j + 1;
    }
    assert(tag_names(tags@).take(tags@.len() as int) == tag_names(tags@));
    r
}

impl AppState {
    /// What triggering the selected workflow needs from the provider: its
    /// inputs. Nothing when no repository or no workflow is shown.
    pub fn prepare_execute(&self) -> (r: Option<ExecuteRequest>)
        requires
            self@.can_execute() ==> self@.selected_repo < self@.filtered_repos.len()
                && self@.selected_action < self@.actions.len(),
        ensures
            r is Some <==> self@.can_execute(),
            r matches Some(q) ==> {
                &&& q.repo_name@ == self@.filtered_repos[self@.selected_repo as int]
                &&& q.workflow_id@ == self@.actions[self@.selected_action as int].workflow_id@
                &&& q.action_name@ == self@.actions[self@.selected_action as int].name@
                &&& q.ref_options.deep_view() == ref_options(self@.branches, self@.tags)
                &&& q.default_idx == option_position(q.ref_options.deep_view(), self@.default_branch)
            },
    {
        if self.filtered_repos.len() == 0 || self.actions.len() == 0 {
            return None;
        }
        let repo_name = self.filtered_repos[self.selected_repo].clone();
        assert(self.filtered_repos.deep_view()[self.selected_repo as int] == self.filtered_repos@[self.selected_repo as int]@);
        let action = &self.actions[self.selected_action];
        let ref_options = collect_ref_options(&self.branches, &self.tags);
        let default_idx = position_of(&ref_options, self.default_branch.as_str());
        Some(
            ExecuteRequest {
                repo_name,
                workflow_id: action.workflow_id.clone(),
                action_name: action.name.clone(),
                ref_options,
                default_idx,
            },
        )
    }

    /// Opens the form for the workflow once its inputs are fetched, or
    /// reports why they could not be.
    pub fn finish_execute(
        &mut self,
        request: ExecuteRequest,
        result: Result<Vec<WorkflowInputField>, ProviderError>,
        now: u64,
    )
        ensures
            final(self)@ == match result {
                Ok(inputs) => old(self)@.finish_execute_ok(
                    request.ref_options.deep_view(),
                    request.default_idx,
                    inputs@,
                ),
                Err(e) => old(self)@.set_notification(
                    "Failed to fetch workflow inputs for "@ + request.action_name@ + ": "@ + e.spec_message(),
                    now,
                ),
            },
    {
        match result {
            Ok(inputs) => {
                let ghost opts = request.ref_options.deep_view();
                let default_idx = request.default_idx;
                let value = if default_idx < request.ref_options.len() {
                    assert(opts[default_idx as int] == request.ref_options@[default_idx as int]@);
                    request.ref_options[default_idx].clone()
                } else {
                    self.default_branch.clone()
                };
                let first = UIWorkflowInputField {
                    name: owned("ref"),
                    value,
                    required: true,
                    description: Some(owned("Branch or tag to run workflow on")),
                    input_type: InputType::Dropdown { options: request.ref_options, selected: default_idx },
                };
                let ghost first_view = first@;
                assert(first_view == ref_field(opts, default_idx, self@.default_branch));
                let tag_names = collect_tag_names(&self.tags);
                let ghost tv = tag_names.deep_view();
                let ghost expected = inputs@.map_values(|i: WorkflowInputField| converted_field(i, tv));
                let mut fields: Vec<UIWorkflowInputField> = Vec::new();
                fields.push(first);
                let mut k: usize = 0;
                let ghost all = inputs@;
                let mut rest = inputs;
                while k < rest.len()
                    invariant
                        k <= rest@.len(),
                        rest@ == all,
                        tv == tag_names.deep_view(),
                        expected == all.map_values(|i: WorkflowInputField| converted_field(i, tv)),
                        fields@.len() == k + 1,
                        fields_view(fields@) == seq![first_view] + expected.take(k as int),
                    decreases rest@.len() - k,
                {
                    let input = WorkflowInputField {
                        name: rest[k].name.clone(),
                        required: rest[k].required,
                        description: crate::api::copy_opt(&rest[k].description),
                        default: crate::api::copy_opt(&rest[k].default),
                        input_type: crate::api::copy_opt(&rest[k].input_type),
                        options: match &rest[k].options {
                            Some(o) => Some(copy_strings(o)),
                            None => None,
                        },
                    };
                    let ghost orig = rest@[k as int];
                    assert(input.options matches Some(o) ==> o.deep_view() == orig.options->0.deep_view());
                    let ui = convert_workflow_input_field(input, tag_names.as_slice());
                    let ghost before = fields_view(fields@);
                    fields.push(ui);
                    proof {
                        assert(input_kind(input, lowercase(input.name@), lower_default(input), tv)
                            == input_kind(orig, lowercase(orig.name@), lower_default(orig), tv));
                        assert(ui@ == converted_field(orig, tv));
                        assert(fields_view(fields@) =~= before.push(ui@));
                        assert(expected.take(k + 1) == expected.take(k as int).push(expected[k as int]));
                    }
                    k = k + 1;
                }
                proof {
                    assert(expected.take(all.len() as int) == expected);

                }
                self.open_dialog(fields);
            },
            Err(e) => {
                let mut msg = owned("Failed to fetch workflow inputs for ");
                append(&mut msg, request.action_name.as_str());
                append(&mut msg, ": ");
                let m = e.message();
                append(&mut msg, m.as_str());
                self.set_notification(msg, now);
            },
        }
    }

    /// Enter in the dialog. On Confirm it returns the dispatch to perform,
    /// leaving the dialog open until `finish_dispatch`; otherwise it acts on
    /// the dialog and returns nothing.
    pub fn submit_dialog_step(&mut self) -> (r: Option<DispatchRequest>)
        ensures
            final(self)@ == old(self)@.submit_dialog(),
            match r {
                Some(q) => old(self)@.dialog matches Some(d) && dispatch_of(d, old(self)@.default_branch)
                    == Some(q.spec_view()),
                None => !(old(self)@.dialog matches Some(d) && dispatch_of(d, old(self)@.default_branch) is Some),
            },
    {
        let d = match self.dialog.take() {
            Some(d) => d,
            None => return None,
        };
        let open = d.open;
        match d.dialog_type {
            DialogType::Input { fields, focus, repo_name, action_name, workflow_id, is_confirmation } => {
                match focus {
                    DialogFocus::ConfirmButton => {
                        let request = dispatch_request(&fields, &repo_name, &workflow_id, &action_name, is_confirmation, &self.default_branch);
                        self.dialog = Some(
                            DialogState {
                                dialog_type: DialogType::Input { fields, focus, repo_name, action_name, workflow_id, is_confirmation },
                                open,
                            },
                        );
                        Some(request)
                    },
                    DialogFocus::CancelButton => {
                        self.close_dialog();
                        None
                    },
                    DialogFocus::Field(_) => {
                        self.dialog = Some(
                            DialogState {
                                dialog_type: DialogType::Input {
                                    fields,
                                    focus: DialogFocus::ConfirmButton,
                                    repo_name,
                                    action_name,
                                    workflow_id,
                                    is_confirmation,
                                },
                                open,
                            },
                        );
                        None
                    },
                }
            },
            t => {
                self.dialog = Some(DialogState { dialog_type: t, open });
                self.dialog_select_dropdown_option();
                None
            },
        }
    }

    /// Reports the outcome of a dispatch and closes the dialog.
    pub fn finish_dispatch(&mut self, request: &DispatchRequest, result: Result<(), ProviderError>, now: u64)
        ensures
            final(self)@ == old(self)@.set_notification(
                match result {
                    Ok(_) => AppModel::triggered_text(request.action_name@, request.repo_name@, request.git_ref@),
                    Err(e) => "Failed: "@ + e.spec_message(),
                },
                now,
            ).close_dialog(),
    {
        let msg = match result {
            Ok(_) => {
                let mut m = owned("Triggered ");
                append(&mut m, request.action_name.as_str());
                append(&mut m, " on ");
                append(&mut m, request.repo_name.as_str());
                append(&mut m, " @ ");
                append(&mut m, request.git_ref.as_str());
                m
            },
            Err(e) => {
                let mut m = owned("Failed: ");
                let t = e.message();
                append(&mut m, t.as_str());
                m
            },
        };
        self.set_notification(msg, now);
        self.close_dialog();
    }

    /// The repository whose lists are loaded, if any is shown.
    pub fn selected_repo_name(&self) -> (r: Option<String>)
        requires
            self@.filtered_repos.len() > 0 ==> self@.selected_repo < self@.filtered_repos.len(),
        ensures
            match r {
                Some(n) => self@.filtered_repos.len() > 0 && n@ == self@.filtered_repos[self@.selected_repo as int],
                None => self@.filtered_repos.len() == 0,
            },
    {
        if self.filtered_repos.len() > 0 {
            assert(self.filtered_repos.deep_view()[self.selected_repo as int] == self.filtered_repos@[self.selected_repo as int]@);
            Some(self.filtered_repos[self.selected_repo].clone())
        } else {
            None
        }
    }

    /// Stores the workflows loaded for the selected repository (none when
    /// the load failed; `result` is `None` when no repository is shown),
    /// and records the load time.
    pub fn finish_actions_reload(&mut self, result: Option<Result<Vec<Action>, ProviderError>>, now: u64)
        ensures
            final(self)@ == (AppModel {
                needs_action_reload: false,
                last_action_load: Some(now),
                ..match result {
                    Some(Ok(a)) => AppModel {
                        actions: a@,
                        selected_action: 0,
                        actions_list_selected: if a@.len() > 0 {
                            Some(0)
                        } else {
                            old(self)@.actions_list_selected
                        },
                        ..old(self)@
                    },
                    Some(Err(_)) => AppModel { actions: Seq::empty(), ..old(self)@ },
                    None => old(self)@,
                }
            }),
    {
        match result {
            Some(Ok(actions)) => {
                self.actions = actions;
                self.selected_action = 0;
                if self.actions.len() > 0 {
                    self.actions_list_selected = Some(0);
                }
            },
            Some(Err(_)) => {
                self.actions = Vec::new();
            },
            None => {},
        }
        self.needs_action_reload = false;
        self.last_action_load = Some(now);
    }

    /// Stores the tags loaded for `repo_name`, or reports the failure.
    pub fn finish_tags_reload(
        &mut self,
        repo_name: &str,
        result: Option<Result<Vec<Tag>, ProviderError>>,
        now: u64,
    )
        ensures
            final(self)@ == match result {
                Some(Ok(t)) => AppModel {
                    tags: t@,
                    selected_tag: 0,
                    tags_list_selected: if t@.len() > 0 {
                        Some(0)
                    } else {
                        old(self)@.tags_list_selected
                    },
                    ..old(self)@
                },
                Some(Err(e)) => AppModel { tags: Seq::empty(), ..old(self)@ }.set_notification(
                    "Failed to load tags for "@ + repo_name@ + ": "@ + e.spec_message(),
                    now,
                ),
                None => old(self)@,
            },
    {
        match result {
            Some(Ok(tags)) => {
                self.tags = tags;
                self.selected_tag = 0;
                if self.tags.len() > 0 {
                    self.tags_list_selected = Some(0);
                }
            },
            Some(Err(e)) => {
                let mut m = owned("Failed to load tags for ");
                append(&mut m, repo_name);
                append(&mut m, ": ");
                let t = e.message();
                append(&mut m, t.as_str());
                self.set_notification(m, now);
                self.tags = Vec::new();
            },
            None => {},
        }
    }
}

/// The dispatch that Confirm asks for, from the form's parts.
fn dispatch_request(
    fields: &Vec<UIWorkflowInputField>,
    repo_name: &String,
    workflow_id: &String,
    action_name: &String,
    is_confirmation: bool,
    default_branch: &String,
) -> (r: DispatchRequest)
    ensures
        r.spec_view() == (
            repo_name@,
            workflow_id@,
            action_name@,
            ref_of(fields_view(fields@), default_branch@),
            dispatch_inputs(fields_view(fields@)),
            !(is_confirmation || dispatch_inputs(fields_view(fields@)).len() == 0),
        ),
{
    let ghost fv = fields_view(fields@);
    assert(fv.len() == fields@.len());
    // The "ref" input.
    let mut k: usize = 0;
    let mut found = false;
    while k < fields.len()
        invariant_except_break
            !found,
            first_named(fv.take(k as int), "ref"@) is None,
        invariant
            k <= fields@.len(),
            fv == fields_view(fields@),
            fv.len() == fields@.len(),
        ensures
            found ==> k < fields@.len() && first_named(fv, "ref"@) == Some(k as int),
            !found ==> first_named(fv.take(k as int), "ref"@) is None && k == fields@.len(),
        decreases fields@.len() - k,
    {
        assert(fv.take(k + 1).drop_last() == fv.take(k as int));
        assert(fv[k as int] == fields@[k as int]@);
        if str_eq(fields[k].name.as_str(), "ref") {
            found = true;
            proof {
                lemma_first_named_prefix(fv, "ref"@, (k + 1) as int);
            }
            break;
        }
        k = k + 1;
    }
    proof {
        if !found {
            assert(fv.take(fields@.len() as int) == fv);
        }
    }
    let git_ref = if found {
        assert(fv[k as int] == fields@[k as int]@);
        fields[k].value.clone()
    } else {
        default_branch.clone()
    };
    // The other inputs.
    let ghost keep = |f: FieldView| f.name != "ref"@;
    let ghost pair = |f: FieldView| (f.name, f.value);
    let ghost pview = |p: (String, String)| (p.0@, p.1@);
    let mut inputs: Vec<(String, String)> = Vec::new();
    let mut j: usize = 0;
    while j < fields.len()
        invariant
            j <= fields@.len(),
            fv == fields_view(fields@),
            fv.len() == fields@.len(),
            keep == (|f: FieldView| f.name != "ref"@),
            pair == (|f: FieldView| (f.name, f.value)),
            pview == (|p: (String, String)| (p.0@, p.1@)),
            inputs@.map_values(pview) == fv.take(j as int).filter(keep).map_values(pair),
        decreases fields@.len() - j,
    {
        proof {
            fv.take(j as int).lemma_filter_push(fv[j as int], keep);
            assert(fv.take(j + 1) == fv.take(j as int).push(fv[j as int]));
            assert(fv[j as int] == fields@[j as int]@);
        }
        let ghost before = inputs@;
        if !str_eq(fields[j].name.as_str(), "ref") {
            inputs.push((fields[j].name.clone(), fields[j].value.clone()));
            assert(inputs@.map_values(pview) =~= before.map_values(pview).push(pair(fv[j as int])));
            assert(fv.take(j + 1).filter(keep).map_values(pair) =~= fv.take(j as int).filter(keep).map_values(pair).push(pair(fv[j as int])));
        } else {
            assert(inputs@ == before);
        }
        j = j + 1;
    }
    assert(fv.take(fields@.len() as int) == fv);
    let with_inputs = !(is_confirmation || inputs.len() == 0);
    assert(inputs@.map_values(pview).len() == inputs@.len());
    let r = DispatchRequest {
        repo_name: repo_name.clone(),
        workflow_id: workflow_id.clone(),
        action_name: action_name.clone(),
        git_ref,
        inputs,
        with_inputs,
    };
    assert(r.spec_view().4 == dispatch_inputs(fv));
    r
}

/// Extending a prefix whose last input is the first one named `name`.
proof fn lemma_first_named_prefix(fv: Seq<FieldView>, name: Seq<char>, n: int)
    requires
        0 < n <= fv.len(),
        first_named(fv.take(n - 1), name) is None,
        fv[n - 1].name == name,
    ensures
        first_named(fv, name) == Some(n - 1),
    decreases fv.len(),
{
    assert(fv.take(n).drop_last() == fv.take(n - 1));
    assert(first_named(fv.take(n), name) == Some(n - 1));
    if n < fv.len() {
        assert(fv.drop_last().take(n) == fv.take(n));
        assert(fv.drop_last().take(n - 1) == fv.take(n - 1));
        lemma_first_named_prefix(fv.drop_last(), name, n);
    } else {
        assert(fv.take(n) == fv);
    }
}

} // verus!
