use houston::api::WorkflowInputField;
use houston::inputs::{determine_input_type, InputType};

#[test]
fn test_determine_input_type_boolean() {
    let field = WorkflowInputField {
        name: "debug".to_string(),
        required: false,
        description: Some("Enable debug mode".to_string()),
        default: Some("false".to_string()),
        input_type: Some("boolean".to_string()),
        options: None,
    };

    let input_type = determine_input_type(&field, &[]);
    match input_type {
        InputType::Boolean { value } => {
            assert_eq!(value, false);
        }
        _ => panic!("Expected Boolean type for boolean field"),
    }
}

#[test]
fn test_determine_input_type_choice() {
    let field = WorkflowInputField {
        name: "environment".to_string(),
        required: true,
        description: Some("Deploy environment".to_string()),
        default: Some("staging".to_string()),
        input_type: Some("choice".to_string()),
        options: Some(vec!["dev".to_string(), "staging".to_string(), "prod".to_string()]),
    };

    let input_type = determine_input_type(&field, &[]);
    match input_type {
        InputType::Choice { options, .. } => {
            assert_eq!(options, vec!["dev", "staging", "prod"]);
        }
        _ => panic!("Expected Choice type for choice field"),
    }
}

#[test]
fn test_determine_input_type_environment_with_options() {
    let field = WorkflowInputField {
        name: "env".to_string(),
        required: true,
        description: Some("Environment to deploy to".to_string()),
        default: None,
        input_type: Some("environment".to_string()),
        options: Some(vec!["dev".to_string(), "staging".to_string(), "prod".to_string()]),
    };

    let input_type = determine_input_type(&field, &[]);
    match input_type {
        InputType::Choice { options, .. } => {
            assert_eq!(options, vec!["dev", "staging", "prod"]);
        }
        _ => panic!("Expected Choice type for environment field with options"),
    }
}

#[test]
fn test_determine_input_type_environment_without_options() {
    let field = WorkflowInputField {
        name: "environment".to_string(),
        required: true,
        description: Some("Environment to deploy to".to_string()),
        default: None,
        input_type: Some("environment".to_string()),
        options: None,
    };

    let input_type = determine_input_type(&field, &[]);
    match input_type {
        InputType::Text => {}
        _ => panic!("Expected Text type for environment field without options"),
    }
}

#[test]
fn test_determine_input_type_version_with_tags() {
    let field = WorkflowInputField {
        name: "version".to_string(),
        required: true,
        description: Some("Version to deploy".to_string()),
        default: None,
        input_type: Some("string".to_string()),
        options: None,
    };

    let tags = vec!["v1.0.0".to_string(), "v1.1.0".to_string(), "v2.0.0".to_string()];
    let input_type = determine_input_type(&field, &tags);
    match input_type {
        InputType::Dropdown { options, .. } => {
            assert_eq!(options, tags);
        }
        _ => panic!("Expected Dropdown type for version field with tags"),
    }
}

#[test]
fn test_determine_input_type_text_fallback() {
    let field = WorkflowInputField {
        name: "message".to_string(),
        required: false,
        description: Some("Commit message".to_string()),
        default: None,
        input_type: Some("string".to_string()),
        options: None,
    };

    let input_type = determine_input_type(&field, &[]);
    match input_type {
        InputType::Text => {}
        _ => panic!("Expected Text type for generic string field"),
    }
}

#[test]
fn test_determine_input_type_legacy_fallback() {
    let field = WorkflowInputField {
        name: "enable_feature".to_string(),
        required: false,
        description: None,
        default: None,
        input_type: None, // No type specified in YAML
        options: None,
    };

    let input_type = determine_input_type(&field, &[]);
    match input_type {
        InputType::Text => {}
        _ => panic!("Expected Text type for field without type specification"),
    }
}
