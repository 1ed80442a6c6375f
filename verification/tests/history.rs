use pi_lynx_sdk::{
    ContentBlock, EmbedErrorKind, HistoryWarningKind, HostContentBlock, HostTranscriptEntry,
    HostTranscriptRole, Message, StopReason, UserContent, reconstruct_history,
};
use serde_json::Value;

fn object(pairs: &[(&str, Value)]) -> Value {
    let mut map = serde_json::Map::new();
    for (k, v) in pairs {
        map.insert((*k).to_string(), v.clone());
    }
    Value::Object(map)
}

fn path_args() -> Value {
    object(&[("path", Value::String("README.md".to_string()))])
}

fn entry(
    role: HostTranscriptRole,
    message_id: Option<&str>,
    content: Vec<HostContentBlock>,
    timestamp_ms: i64,
) -> HostTranscriptEntry {
    HostTranscriptEntry {
        role,
        message_id: message_id.map(str::to_string),
        tool_call_id: None,
        tool_name: None,
        custom_type: None,
        content,
        is_error: false,
        timestamp_ms: Some(timestamp_ms),
    }
}

fn text(t: &str) -> HostContentBlock {
    HostContentBlock::Text { text: t.to_string() }
}

fn call(id: &str, name: &str) -> HostContentBlock {
    HostContentBlock::ToolCall {
        tool_call_id: id.to_string(),
        tool_name: name.to_string(),
        arguments: path_args(),
    }
}

fn assistant_tool_call_entry(
    message_id: &str,
    tool_call_id: &str,
    tool_name: &str,
    timestamp_ms: i64,
) -> HostTranscriptEntry {
    entry(
        HostTranscriptRole::Assistant,
        Some(message_id),
        vec![call(tool_call_id, tool_name)],
        timestamp_ms,
    )
}

fn tool_result_entry(
    message_id: &str,
    tool_call_id: &str,
    tool_name: &str,
    body: &str,
    timestamp_ms: i64,
) -> HostTranscriptEntry {
    HostTranscriptEntry {
        role: HostTranscriptRole::ToolResult,
        message_id: Some(message_id.to_string()),
        tool_call_id: Some(tool_call_id.to_string()),
        tool_name: Some(tool_name.to_string()),
        custom_type: None,
        content: vec![text(body)],
        is_error: false,
        timestamp_ms: Some(timestamp_ms),
    }
}

#[test]
fn reconstruct_history_preserves_tool_ordering() {
    let transcript = vec![
        entry(HostTranscriptRole::User, Some("u1"), vec![text("inspect README")], 1),
        entry(
            HostTranscriptRole::Assistant,
            Some("a1"),
            vec![text("I'll read that."), call("call_1", "read")],
            2,
        ),
        tool_result_entry("t1", "call_1", "read", "README contents", 3),
        entry(HostTranscriptRole::Assistant, Some("a2"), vec![text("Done.")], 4),
    ];

    let result = reconstruct_history(&transcript).expect("history reconstructs");

    assert_eq!(result.warnings.len(), 0);
    assert_eq!(result.messages.len(), 4);
    assert!(matches!(
        &result.messages[0],
        Message::User { content: UserContent::Text(text), .. } if text == "inspect README"
    ));
    assert!(matches!(
        &result.messages[1],
        Message::Assistant { content, .. }
            if matches!(&content[1], ContentBlock::ToolCall { id, name, .. }
                if id == "call_1" && name == "read")
    ));
    assert!(matches!(
        &result.messages[2],
        Message::ToolResult { tool_call_id, tool_name, .. }
            if tool_call_id == "call_1" && tool_name == "read"
    ));
}

#[test]
fn reconstruct_history_rejects_unknown_tool_result() {
    let transcript = vec![tool_result_entry("t1", "missing", "read", "README contents", 1)];

    let error = reconstruct_history(&transcript).expect_err("unknown tool result must fail");
    assert_eq!(error.kind(), EmbedErrorKind::InvalidTranscript);
    assert!(error.to_string().contains("unknown tool_call_id 'missing'"));
}

#[test]
fn reconstruct_history_rejects_non_tool_entries_with_unresolved_tool_calls() {
    let transcript = vec![
        assistant_tool_call_entry("a1", "call_1", "read", 1),
        entry(HostTranscriptRole::User, Some("u2"), vec![text("try again")], 2),
    ];

    let error = reconstruct_history(&transcript).expect_err("unresolved tool calls must fail");

    assert_eq!(error.kind(), EmbedErrorKind::InvalidTranscript);
    assert!(error.to_string().contains("unresolved"));
    assert!(error.to_string().contains("call_1"));
}

#[test]
fn reconstruct_history_rejects_transcript_ending_with_unresolved_tool_calls() {
    let transcript = vec![assistant_tool_call_entry("a1", "call_1", "read", 1)];

    let error =
        reconstruct_history(&transcript).expect_err("unfinished tool-use transcript must fail");

    assert_eq!(error.kind(), EmbedErrorKind::InvalidTranscript);
    assert!(error.to_string().contains("transcript ended with unresolved assistant"));
    assert!(error.to_string().contains("call_1"));
}

#[test]
fn reconstruct_history_warns_when_custom_blocks_are_dropped() {
    let transcript = vec![HostTranscriptEntry {
        role: HostTranscriptRole::Custom,
        message_id: Some("c1".to_string()),
        tool_call_id: None,
        tool_name: None,
        custom_type: Some("lynx_note".to_string()),
        content: vec![
            text("note"),
            HostContentBlock::Image { mime_type: "image/png".to_string(), data: vec![1, 2, 3] },
        ],
        is_error: false,
        timestamp_ms: Some(1),
    }];

    let result = reconstruct_history(&transcript).expect("custom transcript reconstructs");

    assert_eq!(result.warnings.len(), 1);
    assert_eq!(result.warnings[0].kind, HistoryWarningKind::CustomContentBlockDropped);
    assert!(matches!(
        &result.messages[0],
        Message::Custom { content, custom_type, .. } if content == "note" && custom_type == "lynx_note"
    ));
}

#[test]
fn continue_turn_rejects_out_of_order_multi_tool_replay_before_execution() {
    let transcript = vec![
        entry(
            HostTranscriptRole::Assistant,
            Some("a1"),
            vec![call("call_1", "read"), call("call_2", "search")],
            1,
        ),
        tool_result_entry("t2", "call_2", "search", "search output", 2),
    ];

    let error = reconstruct_history(&transcript).expect_err("out-of-order transcript must fail");

    assert_eq!(error.kind(), EmbedErrorKind::InvalidTranscript);
    assert!(error.to_string().contains("expected 'call_1'"));
    assert_eq!(
        error.to_string(),
        "Transcript reconstruction failed: message_id t2: tool result for tool_call_id 'call_2' is out of order; expected 'call_1' next to match the assistant tool-call replay order"
    );
}

#[test]
fn continue_turn_rejects_unresolved_tool_call_transcript_before_execution() {
    let transcript = vec![assistant_tool_call_entry("a1", "call_1", "read", 1)];

    let error = reconstruct_history(&transcript).expect_err("unresolved tool transcript must fail");

    assert_eq!(error.kind(), EmbedErrorKind::InvalidTranscript);
    assert!(error.to_string().contains("unresolved assistant tool_call_id"));
    assert_eq!(
        error.to_string(),
        "Transcript reconstruction failed: transcript ended with unresolved assistant tool_call_id(s): call_1"
    );
}

#[test]
fn history_encodes_images_as_standard_base64() {
    let transcript = vec![entry(
        HostTranscriptRole::User,
        Some("u1"),
        vec![
            text("look"),
            HostContentBlock::Image { mime_type: "image/png".to_string(), data: vec![1, 2, 3] },
        ],
        7,
    )];

    let result = reconstruct_history(&transcript).expect("user image reconstructs");
    match &result.messages[0] {
        Message::User { content: UserContent::Blocks(blocks), timestamp } => {
            assert_eq!(*timestamp, 7);
            assert_eq!(blocks.len(), 2);
            assert!(matches!(&blocks[1], ContentBlock::Image { data, mime_type }
                if data == "AQID" && mime_type == "image/png"));
        }
        other => panic!("unexpected message {other:?}"),
    }
}

#[test]
fn history_replays_multi_tool_batch_in_order() {
    let transcript = vec![
        entry(
            HostTranscriptRole::Assistant,
            Some("a1"),
            vec![call(" call_1 ", " read "), call("call_2", "search")],
            1,
        ),
        tool_result_entry("t1", "call_1", "read", "one", 2),
        tool_result_entry("t2", "call_2", "search", "two", 3),
        entry(HostTranscriptRole::User, None, vec![text("thanks")], 4),
    ];

    let result = reconstruct_history(&transcript).expect("ordered batch reconstructs");
    assert_eq!(result.messages.len(), 4);
    match &result.messages[0] {
        Message::Assistant { content, stop_reason, error_message, .. } => {
            assert_eq!(*stop_reason, StopReason::ToolUse);
            assert!(error_message.is_none());
            assert!(matches!(&content[0], ContentBlock::ToolCall { id, name, arguments }
                if id == "call_1" && name == "read" && *arguments == path_args()));
        }
        other => panic!("unexpected message {other:?}"),
    }
}

#[test]
fn history_rejects_duplicate_tool_result() {
    let transcript = vec![
        assistant_tool_call_entry("a1", "call_1", "read", 1),
        tool_result_entry("t1", "call_1", "read", "one", 2),
        tool_result_entry("t2", "call_1", "read", "again", 3),
    ];
    let error = reconstruct_history(&transcript).expect_err("duplicate result must fail");
    assert_eq!(
        error.to_string(),
        "Transcript reconstruction failed: message_id t2: duplicate tool result for tool_call_id 'call_1'"
    );
}

#[test]
fn history_rejects_duplicate_tool_call_ids() {
    let transcript = vec![entry(
        HostTranscriptRole::Assistant,
        None,
        vec![call("call_1", "read"), call("call_1", "read")],
        1,
    )];
    let error = reconstruct_history(&transcript).expect_err("duplicate call must fail");
    assert_eq!(
        error.to_string(),
        "Transcript reconstruction failed: role Assistant: duplicate tool_call_id 'call_1' in assistant history"
    );
}

#[test]
fn history_rejects_tool_name_mismatch() {
    let transcript = vec![
        assistant_tool_call_entry("a1", "call_1", "read", 1),
        tool_result_entry("t1", "call_1", "search", "one", 2),
    ];
    let error = reconstruct_history(&transcript).expect_err("name mismatch must fail");
    assert!(error
        .to_string()
        .contains("tool result tool_name 'search' does not match assistant tool call 'read'"));
}

#[test]
fn history_rejects_tool_calls_outside_assistant_entries() {
    let transcript = vec![entry(HostTranscriptRole::User, Some("u1"), vec![call("c", "read")], 1)];
    let error = reconstruct_history(&transcript).expect_err("user tool call must fail");
    assert!(error
        .to_string()
        .contains("message_id u1: tool call blocks are only valid inside assistant transcript entries"));
}

#[test]
fn history_rejects_blank_tool_call_identifiers() {
    let transcript =
        vec![entry(HostTranscriptRole::Assistant, Some("a1"), vec![call("  ", "read")], 1)];
    let error = reconstruct_history(&transcript).expect_err("blank id must fail");
    assert!(error.to_string().contains("assistant tool call block is missing tool_call_id"));
}

#[test]
fn history_rejects_tool_result_without_identifier() {
    let mut result = tool_result_entry("t1", "x", "read", "one", 1);
    result.tool_call_id = None;
    let error = reconstruct_history(&[result]).expect_err("missing id must fail");
    assert!(error.to_string().contains("tool result entry is missing tool_call_id"));
}

#[test]
fn history_warns_on_empty_content_and_marks_errors() {
    let mut assistant = entry(HostTranscriptRole::Assistant, Some("a1"), Vec::new(), 5);
    assistant.is_error = true;
    let custom = HostTranscriptEntry {
        role: HostTranscriptRole::Custom,
        message_id: None,
        tool_call_id: None,
        tool_name: None,
        custom_type: None,
        content: vec![text("a"), text("b")],
        is_error: false,
        timestamp_ms: None,
    };
    let result = reconstruct_history(&[assistant, custom]).expect("reconstructs");
    assert_eq!(result.warnings.len(), 1);
    assert_eq!(result.warnings[0].detail, "Transcript entry 'a1' reconstructed to an empty content list");
    match &result.messages[0] {
        Message::Assistant { stop_reason, error_message, .. } => {
            assert_eq!(*stop_reason, StopReason::Error);
            assert_eq!(
                error_message.as_deref(),
                Some("host transcript marked reconstructed assistant message as error")
            );
        }
        other => panic!("unexpected message {other:?}"),
    }
    assert!(matches!(&result.messages[1], Message::Custom { content, custom_type, timestamp }
        if content == "a\nb" && custom_type == "host_custom" && *timestamp == 0));
}

#[test]
fn history_pads_partial_base64_groups() {
    let image = |bytes: &[u8]| HostContentBlock::Image {
        mime_type: "image/gif".to_string(),
        data: bytes.to_vec(),
    };
    let transcript = vec![entry(
        HostTranscriptRole::User,
        Some("u1"),
        vec![image(b"M"), image(b"Ma"), image(b"Man!")],
        1,
    )];
    let result = reconstruct_history(&transcript).expect("images reconstruct");
    let expected = ["TQ==", "TWE=", "TWFuIQ=="];
    match &result.messages[0] {
        Message::User { content: UserContent::Blocks(blocks), .. } => {
            assert_eq!(blocks.len(), 3);
            for (block, want) in blocks.iter().zip(expected) {
                assert!(matches!(block, ContentBlock::Image { data, .. } if data == want));
            }
        }
        other => panic!("unexpected message {other:?}"),
    }
}
