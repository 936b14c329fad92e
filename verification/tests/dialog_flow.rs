use houston::api::{ProviderError, WorkflowInputField};
use houston::app_state::AppState;
use houston::dialog::{DialogFocus, DialogType};
use houston::inputs::{convert_workflow_input_field, InputType, UIWorkflowInputField};

fn field(name: &str, value: &str, input_type: InputType) -> UIWorkflowInputField {
    UIWorkflowInputField { name: name.to_string(), value: value.to_string(), required: false, description: None, input_type }
}

fn app_with_form() -> AppState {
    let mut a = AppState::new(vec!["acme/api".to_string()]);
    a.open_dialog(vec![
        field(
            "ref",
            "main",
            InputType::Dropdown { options: vec!["main".to_string(), "develop".to_string(), "tags/v1".to_string()], selected: 0 },
        ),
        field("dry_run", "false", InputType::Boolean { value: false }),
        field("note", "", InputType::Text),
    ]);
    if let Some(d) = &mut a.dialog {
        if let DialogType::Input { repo_name, action_name, workflow_id, .. } = &mut d.dialog_type {
            *repo_name = "acme/api".to_string();
            *action_name = "Deploy".to_string();
            *workflow_id = "deploy.yml".to_string();
        }
    }
    a
}

fn focus(a: &AppState) -> DialogFocus {
    match &a.dialog.as_ref().unwrap().dialog_type {
        DialogType::Input { focus, .. } => *focus,
        _ => panic!("expected the form"),
    }
}

fn value(a: &AppState, i: usize) -> String {
    match &a.dialog.as_ref().unwrap().dialog_type {
        DialogType::Input { fields, .. } => fields[i].value.clone(),
        _ => panic!("expected the form"),
    }
}

#[test]
fn tab_cycles_fields_then_buttons() {
    let mut a = app_with_form();
    assert_eq!(focus(&a), DialogFocus::Field(0));
    a.dialog_next_field();
    a.dialog_next_field();
    assert_eq!(focus(&a), DialogFocus::Field(2));
    a.dialog_next_field();
    assert_eq!(focus(&a), DialogFocus::ConfirmButton);
    a.dialog_next_field();
    assert_eq!(focus(&a), DialogFocus::CancelButton);
    a.dialog_next_field();
    assert_eq!(focus(&a), DialogFocus::Field(0));
    a.dialog_prev_field();
    assert_eq!(focus(&a), DialogFocus::CancelButton);
}

#[test]
fn typing_edits_text_fields_and_space_toggles_booleans() {
    let mut a = app_with_form();
    a.dialog_next_field();
    a.dialog_toggle_boolean();
    assert_eq!(value(&a, 1), "true");
    a.dialog_toggle_boolean();
    assert_eq!(value(&a, 1), "false");
    a.dialog_next_field();
    a.dialog_input_char('h');
    a.dialog_input_char('i');
    assert_eq!(value(&a, 2), "hi");
    a.dialog_backspace();
    assert_eq!(value(&a, 2), "h");
}

#[test]
fn dropdown_search_select_and_cancel() {
    let mut a = app_with_form();
    a.dialog_open_dropdown();
    match &a.dialog.as_ref().unwrap().dialog_type {
        DialogType::DropdownSelection { filtered_options, .. } => assert_eq!(filtered_options.len(), 3),
        _ => panic!("expected the option list"),
    }
    a.dialog_search_char('D');
    match &a.dialog.as_ref().unwrap().dialog_type {
        DialogType::DropdownSelection { filtered_options, search_query, .. } => {
            assert_eq!(search_query, "D");
            assert_eq!(filtered_options, &vec!["develop".to_string()]);
        }
        _ => panic!("expected the option list"),
    }
    assert!(a.submit_dialog_step().is_none());
    assert_eq!(value(&a, 0), "develop");
    a.dialog_open_dropdown();
    a.cancel_dropdown_selection();
    assert_eq!(value(&a, 0), "develop");
    assert_eq!(focus(&a), DialogFocus::Field(0));
}

#[test]
fn confirm_dispatches_with_the_ref_and_other_inputs() {
    let mut a = app_with_form();
    a.dialog_next_field();
    a.dialog_toggle_boolean();
    assert!(a.submit_dialog_step().is_none());
    assert_eq!(focus(&a), DialogFocus::ConfirmButton);
    let request = a.submit_dialog_step().unwrap();
    assert_eq!(request.repo_name, "acme/api");
    assert_eq!(request.workflow_id, "deploy.yml");
    assert_eq!(request.action_name, "Deploy");
    assert_eq!(request.git_ref, "main");
    assert_eq!(request.inputs, vec![("dry_run".to_string(), "true".to_string()), ("note".to_string(), String::new())]);
    assert!(request.with_inputs);
    a.finish_dispatch(&request, Ok(()), 100);
    assert!(a.dialog.is_none());
    assert_eq!(a.notification.as_deref(), Some("Triggered Deploy on acme/api @ main"));
}

#[test]
fn a_failed_dispatch_is_reported() {
    let mut a = app_with_form();
    a.dialog_next_field();
    a.dialog_next_field();
    a.dialog_next_field();
    let request = a.submit_dialog_step().unwrap();
    a.finish_dispatch(&request, Err(ProviderError::Network("offline".to_string())), 100);
    assert_eq!(a.notification.as_deref(), Some("Failed: Network error: offline"));
    assert!(a.dialog.is_none());
}

#[test]
fn cancel_button_closes_the_form() {
    let mut a = app_with_form();
    a.dialog_prev_field();
    assert_eq!(focus(&a), DialogFocus::CancelButton);
    assert!(a.submit_dialog_step().is_none());
    assert!(a.dialog.is_none());
}

#[test]
fn converted_fields_take_their_defaults() {
    let input = WorkflowInputField {
        name: "environment".to_string(),
        required: true,
        description: None,
        default: Some("prod".to_string()),
        input_type: Some("choice".to_string()),
        options: Some(vec!["dev".to_string(), "prod".to_string()]),
    };
    let f = convert_workflow_input_field(input, &[]);
    assert_eq!(f.value, "prod");
    match f.input_type {
        InputType::Dropdown { selected, .. } => assert_eq!(selected, 1),
        _ => panic!("expected a dropdown"),
    }
    let flag = WorkflowInputField {
        name: "verbose".to_string(),
        required: false,
        description: None,
        default: Some("TRUE".to_string()),
        input_type: Some("boolean".to_string()),
        options: None,
    };
    let b = convert_workflow_input_field(flag, &[]);
    assert_eq!(b.value, "TRUE");
    match b.input_type {
        InputType::Boolean { value } => assert!(value),
        _ => panic!("expected a boolean"),
    }
}

#[test]
fn provider_errors_read_like_their_kind() {
    assert_eq!(ProviderError::Api("x".to_string()).message(), "API error: x");
    assert_eq!(ProviderError::NotFound("y".to_string()).message(), "Not found: y");
    assert_eq!(ProviderError::Unknown("z".to_string()).message(), "Unknown error: z");
}

#[test]
fn typing_then_erasing_a_search_restores_it() {
    let mut a = app_with_form();
    a.dialog_open_dropdown();
    a.dialog_search_char('T');
    a.dialog_search_char('x');
    a.dialog_backspace();
    match &a.dialog.as_ref().unwrap().dialog_type {
        DialogType::DropdownSelection { filtered_options, search_query, selected, scroll_offset, .. } => {
            assert_eq!(search_query, "T");
            assert_eq!(filtered_options, &vec!["tags/v1".to_string()]);
            assert_eq!((*selected, *scroll_offset), (0, 0));
        }
        _ => panic!("expected the option list"),
    }
    a.dialog_backspace();
    match &a.dialog.as_ref().unwrap().dialog_type {
        DialogType::DropdownSelection { filtered_options, search_query, .. } => {
            assert_eq!(search_query, "");
            assert_eq!(filtered_options.len(), 3);
        }
        _ => panic!("expected the option list"),
    }
}
