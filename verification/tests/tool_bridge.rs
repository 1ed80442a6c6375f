use pi_lynx_sdk::tool_bridge::{
    error_details_with, host_tool_request, tool_output_from, validate_definition,
};
use pi_lynx_sdk::{
    ContentBlock, EmbedErrorKind, HostToolDefinition, HostToolError, HostToolErrorKind,
    HostToolKind, HostToolOutput, RuntimeMetadata, ToolPolicy, plan_tool_registry,
};
use serde_json::Value;

fn object(pairs: &[(&str, Value)]) -> Value {
    let mut map = serde_json::Map::new();
    for (k, v) in pairs {
        map.insert((*k).to_string(), v.clone());
    }
    Value::Object(map)
}

fn definition(name: &str, label: &str, description: &str, parameters: Value) -> HostToolDefinition {
    HostToolDefinition {
        name: name.to_string(),
        label: label.to_string(),
        description: description.to_string(),
        parameters,
    }
}

fn object_schema() -> Value {
    object(&[("type", Value::String("object".to_string()))])
}

#[test]
fn build_tool_registry_translates_requests_and_streaming_updates() {
    let read = definition(
        "read",
        "Read",
        "Read through the host.",
        object(&[
            ("type", Value::String("object".to_string())),
            (
                "properties",
                object(&[("path", object(&[("type", Value::String("string".to_string()))]))]),
            ),
        ]),
    );
    let tools = vec![(HostToolKind::Read, read.clone())];
    let plan = plan_tool_registry(&ToolPolicy::default(), &tools).expect("registry");
    assert_eq!(plan, vec![0]);

    let metadata = RuntimeMetadata {
        conversation_id: Some("conv-1".to_string()),
        turn_id: Some("turn-1".to_string()),
        ..RuntimeMetadata::default()
    };
    let input = object(&[("path", Value::String("README.md".to_string()))]);
    let request = host_tool_request("call-1", &read, HostToolKind::Read, input.clone(), &metadata);
    assert_eq!(request.tool_call_id, "call-1");
    assert_eq!(request.tool_name, "read");
    assert_eq!(request.kind, HostToolKind::Read);
    assert_eq!(request.input, input);
    assert_eq!(request.runtime_metadata.conversation_id.as_deref(), Some("conv-1"));

    let details = object(&[("lines", Value::from(1))]);
    let output = tool_output_from(Ok(HostToolOutput {
        content: vec![ContentBlock::Text { text: "done".to_string() }],
        details: Some(details.clone()),
        is_error: false,
    }));
    assert_eq!(output.details, Some(details));
    assert!(!output.is_error);
}

#[test]
fn denied_host_tool_becomes_error_output() {
    let error = HostToolError::denied_with_details(
        "approval required".to_string(),
        object(&[("approvalState", Value::String("missing".to_string()))]),
    );
    assert_eq!(error.kind(), HostToolErrorKind::Denied);
    let output = tool_output_from(Err(error));

    assert!(output.is_error);
    assert_eq!(
        output.details.as_ref().and_then(|d| d.get("hostToolErrorKind")).and_then(Value::as_str),
        Some("denied")
    );
    assert_eq!(
        output.details.as_ref().and_then(|d| d.get("approvalState")).and_then(Value::as_str),
        Some("missing")
    );
    assert!(matches!(
        output.content.as_slice(),
        [ContentBlock::Text { text }] if text.contains("Denied: approval required")
    ));
}

#[test]
fn failed_host_tool_becomes_error_output() {
    let error = HostToolError::failed_with_details(
        "index backend unavailable".to_string(),
        object(&[("retryable", Value::Bool(true))]),
    );
    let output = error.into_tool_output();

    assert!(output.is_error);
    assert_eq!(
        output.details.as_ref().and_then(|d| d.get("hostToolErrorKind")).and_then(Value::as_str),
        Some("failed")
    );
    assert!(matches!(
        output.content.as_slice(),
        [ContentBlock::Text { text }] if text.contains("Error: index backend unavailable")
    ));
}

#[test]
fn build_tool_registry_filters_tools_disallowed_by_policy() {
    let tools = vec![
        (HostToolKind::Read, definition("read", "Read", "Read through host.", object_schema())),
        (HostToolKind::Write, definition("write", "Write", "Write through host.", object_schema())),
    ];
    let plan = plan_tool_registry(&ToolPolicy::default(), &tools).expect("registry");
    assert_eq!(plan, vec![0]);
}

#[test]
fn build_tool_registry_skips_disabled_tools_before_validation() {
    let tools = vec![
        (HostToolKind::Write, definition("", "", "", Value::String("invalid".to_string()))),
        (HostToolKind::Read, definition("read", "Read", "Read through host.", object_schema())),
    ];
    let plan = plan_tool_registry(&ToolPolicy::default(), &tools)
        .expect("disabled invalid tool should be skipped");
    assert_eq!(plan, vec![1]);
}

#[test]
fn registry_rejects_duplicate_names_and_invalid_definitions() {
    let tools = vec![
        (HostToolKind::Read, definition("read", "Read", "Read.", object_schema())),
        (HostToolKind::Search, definition("read", "Search", "Search.", object_schema())),
    ];
    let error = plan_tool_registry(&ToolPolicy::default(), &tools).expect_err("duplicate");
    assert_eq!(error.kind(), EmbedErrorKind::InvalidConfig);
    assert_eq!(
        error.to_string(),
        "Invalid embed configuration during tool_bridge::build_tool_registry: duplicate host tool name 'read'"
    );

    let tools = vec![(HostToolKind::List, definition("list", "List", "List.", Value::Bool(true)))];
    let error = plan_tool_registry(&ToolPolicy::default(), &tools).expect_err("schema");
    assert!(error.to_string().ends_with("host tool 'list' parameters must be a JSON object schema"));

    let error = validate_definition(&definition(" ", "x", "y", object_schema()), HostToolKind::Search)
        .expect_err("blank name");
    assert!(error.to_string().ends_with("host tool definition for Search is missing a name"));
    let error = validate_definition(&definition("n", " ", "y", object_schema()), HostToolKind::Search)
        .expect_err("blank label");
    assert!(error.to_string().ends_with("host tool 'n' is missing a label"));
}

#[test]
fn error_details_wrap_non_object_payloads() {
    let plain = HostToolError::failed("boom".to_string()).into_tool_output();
    let details = plain.details.expect("details");
    assert_eq!(details.get("hostToolErrorKind").and_then(Value::as_str), Some("failed"));
    assert_eq!(details.as_object().map(|m| m.len()), Some(1));

    let wrapped = HostToolError::denied_with_details("no".to_string(), Value::from(7))
        .into_tool_output();
    let details = wrapped.details.expect("details");
    assert_eq!(details.get("hostToolErrorKind").and_then(Value::as_str), Some("denied"));
    assert_eq!(details.get("hostToolDetails"), Some(&Value::from(7)));

    let kept = HostToolError::denied_with_details(
        "no".to_string(),
        object(&[("hostToolErrorKind", Value::String("custom".to_string()))]),
    )
    .into_tool_output();
    assert_eq!(
        kept.details.as_ref().and_then(|d| d.get("hostToolErrorKind")).and_then(Value::as_str),
        Some("custom")
    );
    let error = HostToolError::denied("x".to_string());
    assert_eq!(error.message(), "x");
    assert!(error.details().is_none());
}

#[test]
fn error_details_keys_follow_the_payload_shape() {
    let none = error_details_with(HostToolErrorKind::Failed, None);
    assert_eq!(none.len(), 1);
    assert_eq!(none.get("hostToolErrorKind"), Some(&Value::String("failed".to_string())));

    let mut map = serde_json::Map::new();
    map.insert("reason".to_string(), Value::from(3));
    let merged = error_details_with(HostToolErrorKind::Denied, Some(Ok(map)));
    assert_eq!(merged.len(), 2);
    assert_eq!(merged.get("reason"), Some(&Value::from(3)));
    assert_eq!(merged.get("hostToolErrorKind"), Some(&Value::String("denied".to_string())));

    let other = error_details_with(HostToolErrorKind::Denied, Some(Err(Value::Bool(true))));
    assert_eq!(other.len(), 2);
    assert_eq!(other.get("hostToolDetails"), Some(&Value::Bool(true)));
}
