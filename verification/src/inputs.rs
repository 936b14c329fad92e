//! Workflow inputs as the dispatch dialog shows them: which widget each
//! input gets, and its initial value.

use vstd::prelude::*;

use crate::api::{copy_opt, copy_strings, WorkflowInputField};
use crate::text::{contains_str, has_substring, lowercase, str_eq, to_lowercase};

verus! {

/// The widget used to edit an input.
#[derive(Debug, Clone)]
pub enum InputType {
    Text,
    Dropdown { options: Vec<String>, selected: usize },
    Choice { options: Vec<String>, selected: usize },
    Boolean { value: bool },
}

/// The widget of an input as mathematical values.
pub enum InputKind {
    Text,
    Dropdown(Seq<Seq<char>>, nat),
    Choice(Seq<Seq<char>>, nat),
    Boolean(bool),
}

impl View for InputType {
    type V = InputKind;

    open spec fn view(&self) -> InputKind {
        match self {
            InputType::Text => InputKind::Text,
            InputType::Dropdown { options, selected } => InputKind::Dropdown(
                options.deep_view(),
                *selected as nat,
            ),
            InputType::Choice { options, selected } => InputKind::Choice(
                options.deep_view(),
                *selected as nat,
            ),
            InputType::Boolean { value } => InputKind::Boolean(*value),
        }
    }
}

impl InputType {
    /// A copy of the widget.
    pub fn copy(&self) -> (r: InputType)
        ensures
            r@ == self@,
    {
        match self {
            InputType::Text => InputType::Text,
            InputType::Dropdown { options, selected } => InputType::Dropdown {
                options: copy_strings(options),
                selected: *selected,
            },
            InputType::Choice { options, selected } => InputType::Choice {
                options: copy_strings(options),
                selected: *selected,
            },
            InputType::Boolean { value } => InputType::Boolean { value: *value },
        }
    }
}

/// An input of the dispatch dialog.
#[derive(Debug, Clone)]
pub struct UIWorkflowInputField {
    pub name: String,
    pub value: String,
    pub required: bool,
    pub description: Option<String>,
    pub input_type: InputType,
}

impl UIWorkflowInputField {
    /// A copy of the input.
    pub fn copy(&self) -> (r: UIWorkflowInputField)
        ensures
            r.name == self.name,
            r.value == self.value,
            r.required == self.required,
            r.description == self.description,
            r.input_type@ == self.input_type@,
    {
        UIWorkflowInputField {
            name: self.name.clone(),
            value: self.value.clone(),
            required: self.required,
            description: copy_opt(&self.description),
            input_type: self.input_type.copy(),
        }
    }
}

/// Whether a lowercased input name hints at a version, tag or ref.
pub open spec fn names_a_version(lower_name: Seq<char>) -> bool {
    has_substring(lower_name, "version"@) || has_substring(lower_name, "tag"@) || has_substring(
        lower_name,
        "ref"@,
    )
}

/// The widget for an input, given its lowercased name and lowercased
/// default. A declared boolean gets a checkbox, checked when the default
/// is "true"; a declared choice or environment with options gets those
/// options; otherwise an input whose name mentions a version, tag or ref
/// gets the available tags as a dropdown, and any other input a text box.
pub open spec fn input_kind(
    field: WorkflowInputField,
    lower_name: Seq<char>,
    lower_default: Option<Seq<char>>,
    tags: Seq<Seq<char>>,
) -> InputKind {
    let declared = field.input_type;
    if declared is Some && declared->0@ == "boolean"@ {
        InputKind::Boolean(lower_default == Some("true"@))
    } else if declared is Some && (declared->0@ == "choice"@ || declared->0@ == "environment"@)
        && field.options is Some {
        InputKind::Choice(field.options->0.deep_view(), 0)
    } else if names_a_version(lower_name) && tags.len() > 0 {
        InputKind::Dropdown(tags, 0)
    } else {
        InputKind::Text
    }
}

/// The lowercased default of an input, if it has one.
pub open spec fn lower_default(field: WorkflowInputField) -> Option<Seq<char>> {
    match field.default {
        Some(d) => Some(lowercase(d@)),
        None => None,
    }
}

/// The widget for an input, given its lowercased name and default.
pub fn input_type_from_lowered(
    field: &WorkflowInputField,
    lower_name: &str,
    lower_default: Option<&str>,
    available_tags: &[String],
) -> (r: InputType)
    ensures
        r@ == input_kind(
            *field,
            lower_name@,
            match lower_default {
                Some(d) => Some(d@),
                None => None,
            },
            available_tags.deep_view(),
        ),
{
    if let Some(input_type) = &field.input_type {
        if str_eq(input_type.as_str(), "boolean") {
            let value = match lower_default {
                Some(d) => str_eq(d, "true"),
                None => false,
            };
            proof {
                reveal_strlit("true");
            }
            return InputType::Boolean { value };
        }
        if str_eq(input_type.as_str(), "choice") || str_eq(input_type.as_str(), "environment") {
            if let Some(options) = &field.options {
                return InputType::Choice { options: copy_strings(options), selected: 0 };
            }
        }
    }
    if (contains_str(lower_name, "version") || contains_str(lower_name, "tag") || contains_str(
        lower_name,
        "ref",
    )) && available_tags.len() > 0 {
        return InputType::Dropdown { options: copy_strings(available_tags), selected: 0 };
    }
    InputType::Text
}

/// Chooses the widget for an input from its declared type, falling back
/// on its name.
pub fn determine_input_type(field: &WorkflowInputField, available_tags: &[String]) -> (r: InputType)
    ensures
        r@ == input_kind(*field, lowercase(field.name@), lower_default(*field), available_tags.deep_view()),
{
    let lower_name = to_lowercase(field.name.as_str());
    let lower_default = match &field.default {
        Some(d) => Some(to_lowercase(d.as_str())),
        None => None,
    };
    let lowered: Option<&str> = match &lower_default {
        Some(d) => Some(d.as_str()),
        None => None,
    };
    input_type_from_lowered(field, lower_name.as_str(), lowered, available_tags)
}

/// The index of the first option equal to `value`, or 0.
pub open spec fn option_position(options: Seq<Seq<char>>, value: Seq<char>) -> nat {
    match options.index_of_first(value) {
        Some(i) => i as nat,
        None => 0,
    }
}

/// The dialog input made from a workflow input whose widget is `kind`:
/// choices become dropdowns selecting the default (or the first option),
/// whose value is the selected option.
pub open spec fn converted(kind: InputKind, default: Seq<char>) -> (InputKind, Seq<char>) {
    match kind {
        InputKind::Dropdown(options, _) | InputKind::Choice(options, _) => {
            let selected = if default.len() > 0 { option_position(options, default) } else { 0 };
            let value = if options.len() > 0 { options[selected as int] } else { default };
            (InputKind::Dropdown(options, selected), value)
        },
        InputKind::Boolean(b) => (InputKind::Boolean(b), default),
        InputKind::Text => (InputKind::Text, default),
    }
}

/// The index of the first option equal to `value`, or 0.
pub fn position_of(options: &Vec<String>, value: &str) -> (r: usize)
    ensures
        r == option_position(options.deep_view(), value@),
{
    let ghost dv = options.deep_view();
    proof {
        dv.index_of_first_ensures(value@);
    }
    let mut i: usize = 0;
    while i < options.len()
        invariant
            i <= options@.len(),
            dv == options.deep_view(),
            dv.len() == options@.len(),
            forall|j: int| 0 <= j < i ==> dv[j] != value@,
        decreases options@.len() - i,
    {
        assert(dv[i as int] == options@[i as int]@);
        if str_eq(options[i].as_str(), value) {
            proof {
                dv.index_of_first_ensures(value@);
                let k = dv.index_of_first(value@).unwrap();
                if k < i {
                } else if k > i {
                }
            }
            return i;
        }
        i = i + 1;
    }
    proof {
        dv.index_of_first_ensures(value@);
        assert(!dv.contains(value@));
    }
    0
}

/// Converts a workflow input into an input of the dispatch dialog.
pub fn convert_workflow_input_field(input: WorkflowInputField, available_tags: &[String]) -> (r:
    UIWorkflowInputField)
    ensures
        r.name == input.name,
        r.required == input.required,
        r.description == input.description,
        (r.input_type@, r.value@) == converted(
            input_kind(input, lowercase(input.name@), lower_default(input), available_tags.deep_view()),
            match input.default {
                Some(d) => d@,
                None => Seq::<char>::empty(),
            },
        ),
{
    let input_type = determine_input_type(&input, available_tags);
    let default_value = match &input.default {
        Some(d) => d.clone(),
        None => String::new(),
    };
    let (final_input_type, final_value) = match input_type {
        InputType::Dropdown { options, .. } | InputType::Choice { options, .. } => {
            let selected = if default_value.as_str().unicode_len() > 0 {
                position_of(&options, default_value.as_str())
            } else {
                0
            };
            proof {
                options.deep_view().index_of_first_ensures(default_value@);
            }
            let value = if options.len() > 0 {
                assert(options.deep_view()[selected as int] == options@[selected as int]@);
                options[selected].clone()
            } else {
                default_value
            };
            (InputType::Dropdown { options, selected }, value)
        },
        InputType::Boolean { value } => (InputType::Boolean { value }, default_value),
        InputType::Text => (InputType::Text, default_value),
    };
    UIWorkflowInputField {
        name: input.name,
        value: final_value,
        required: input.required,
        description: input.description,
        input_type: final_input_type,
    }
}

} // verus!
