use pi_lynx_sdk::runtime::{request_capture_events, unix_timestamp_ms};
use pi_lynx_sdk::{
    AgentEventSummary, AssistantUpdate, BridgeEmission, EmbedError, EmbedErrorKind,
    EventBridgeState, ExecutionMode, RuntimeFailure, SessionMode, StopReason, TurnTerminal,
    finalize_runtime_error, finalize_success,
};

fn tool_start(id: &str) -> AgentEventSummary {
    AgentEventSummary::ToolExecutionStart { tool_call_id: id.to_string(), tool_name: "bash".to_string() }
}

fn tool_end(id: &str, is_error: bool) -> AgentEventSummary {
    AgentEventSummary::ToolExecutionEnd {
        tool_call_id: id.to_string(),
        tool_name: "bash".to_string(),
        is_error,
    }
}

#[test]
fn run_turn_with_artifacts_emits_message_events_and_result_metadata() {
    let mut bridge = EventBridgeState::new();
    let emitted = bridge.handle_agent_event(AgentEventSummary::MessageUpdate {
        update: AssistantUpdate::TextDelta { delta: "hello from embed".to_string() },
    });
    assert_eq!(
        emitted,
        vec![
            BridgeEmission::ProviderEvent,
            BridgeEmission::MessageDelta { text: "hello from embed".to_string() }
        ]
    );
    assert!(bridge.handle_agent_event(AgentEventSummary::MessageEnd { is_user_message: true }).is_empty());
    assert_eq!(
        bridge.handle_agent_event(AgentEventSummary::MessageEnd { is_user_message: false }),
        vec![BridgeEmission::MessageCompleted]
    );

    let (terminal, result) =
        finalize_success(&mut bridge, "scripted", "scripted-model", &SessionMode::InMemory, StopReason::Stop, None);
    assert_eq!(terminal, Some(TurnTerminal::Completed));
    let metadata = result.expect("turn result");
    assert_eq!(metadata.provider_id, "scripted");
    assert_eq!(metadata.model_id, "scripted-model");
    assert_eq!(metadata.tool_calls_executed, 0);
    assert!(!metadata.had_errors);
    assert!(!metadata.aborted);
    assert_eq!(metadata.session_mode, SessionMode::InMemory);
}

#[test]
fn run_turn_with_artifacts_converts_provider_stream_failure_into_error() {
    let mut bridge = EventBridgeState::new();
    let (terminal, error) = finalize_runtime_error(
        &mut bridge,
        "scripted",
        "scripted-model",
        RuntimeFailure::Provider { text: "scripted: stream exploded".to_string() },
    );
    assert_eq!(error.kind(), EmbedErrorKind::ProviderStreamFailed);
    assert!(error.to_string().contains("stream exploded"));
    assert_eq!(terminal, Some(TurnTerminal::Failed { error: EmbedErrorKind::ProviderStreamFailed }));

    let mut bridge = EventBridgeState::new();
    let (terminal, result) = finalize_success(
        &mut bridge,
        "scripted",
        "scripted-model",
        &SessionMode::InMemory,
        StopReason::Error,
        Some("stream exploded".to_string()),
    );
    let error = result.expect_err("provider failure");
    assert_eq!(error.kind(), EmbedErrorKind::ProviderStreamFailed);
    assert_eq!(
        error.to_string(),
        "Provider execution failed for scripted/scripted-model: stream exploded"
    );
    assert_eq!(terminal, Some(TurnTerminal::Failed { error: EmbedErrorKind::ProviderStreamFailed }));
    assert!(bridge.had_errors);
}

#[test]
fn runtime_handles_tool_failures_and_abort_paths() {
    let mut bridge = EventBridgeState::new();
    bridge.handle_agent_event(tool_start("call_1"));
    bridge.handle_agent_event(tool_end("call_1", true));
    let (terminal, result) =
        finalize_success(&mut bridge, "p", "m", &SessionMode::InMemory, StopReason::Stop, None);
    let metadata = result.expect("tool failure stays in-band");
    assert!(metadata.had_errors);
    assert_eq!(metadata.tool_calls_executed, 1);
    assert_eq!(terminal, Some(TurnTerminal::Completed));

    let mut bridge = EventBridgeState::new();
    bridge.handle_agent_event(AgentEventSummary::MessageUpdate { update: AssistantUpdate::Other });
    let (terminal, result) =
        finalize_success(&mut bridge, "p", "m", &SessionMode::InMemory, StopReason::Aborted, None);
    let metadata = result.expect("abort returns partial result");
    assert!(metadata.aborted);
    assert!(metadata.had_errors);
    assert_eq!(terminal, Some(TurnTerminal::Failed { error: EmbedErrorKind::Cancelled }));

    let (terminal, error) =
        finalize_runtime_error(&mut bridge, "p", "m", RuntimeFailure::Aborted);
    assert_eq!(terminal, None);
    assert_eq!(error, EmbedError::Aborted);
}

#[test]
fn runtime_counts_only_started_tools_in_aborted_multi_tool_batches() {
    let mut bridge = EventBridgeState::new();
    assert_eq!(
        bridge.handle_agent_event(tool_start("call_1")),
        vec![BridgeEmission::ToolStarted { tool_call_id: "call_1".to_string(), tool_name: "bash".to_string() }]
    );
    assert_eq!(
        bridge.handle_agent_event(AgentEventSummary::ToolExecutionUpdate { tool_call_id: "call_1".to_string() }),
        vec![BridgeEmission::ToolUpdate { tool_call_id: "call_1".to_string() }]
    );
    assert_eq!(
        bridge.handle_agent_event(tool_end("call_1", true)),
        vec![BridgeEmission::ToolCompleted {
            tool_call_id: "call_1".to_string(),
            tool_name: "bash".to_string(),
            is_error: true,
            executed: true,
        }]
    );
    assert_eq!(
        bridge.handle_agent_event(tool_end("call_2", true)),
        vec![BridgeEmission::ToolCompleted {
            tool_call_id: "call_2".to_string(),
            tool_name: "bash".to_string(),
            is_error: true,
            executed: false,
        }]
    );
    let (_, result) =
        finalize_success(&mut bridge, "p", "m", &SessionMode::InMemory, StopReason::Aborted, None);
    let metadata = result.expect("partial result");
    assert!(metadata.aborted);
    assert_eq!(metadata.tool_calls_executed, 1);
    assert!(metadata.had_errors);
}

#[test]
fn bridge_emits_one_terminal_event() {
    let mut bridge = EventBridgeState::new();
    assert!(bridge.emit_turn_completed());
    assert!(!bridge.emit_turn_failed());
    assert!(!bridge.emit_turn_completed());
    assert!(bridge.had_errors);
    assert!(bridge.terminal_emitted);
}

#[test]
fn finished_streams_flag_errors() {
    let mut bridge = EventBridgeState::new();
    bridge.handle_agent_event(AgentEventSummary::MessageUpdate {
        update: AssistantUpdate::Finished { reason: StopReason::Stop },
    });
    assert!(!bridge.had_errors);
    assert_eq!(
        bridge.handle_agent_event(AgentEventSummary::MessageUpdate {
            update: AssistantUpdate::Finished { reason: StopReason::Aborted },
        }),
        vec![BridgeEmission::ProviderEvent]
    );
    assert!(bridge.had_errors);
    assert!(bridge.handle_agent_event(AgentEventSummary::Other).is_empty());
}

#[test]
fn runtime_failures_map_to_error_kinds() {
    let cases = vec![
        (RuntimeFailure::Auth { text: "bad key".to_string() }, EmbedErrorKind::ProviderStreamFailed),
        (RuntimeFailure::Api { text: "500".to_string() }, EmbedErrorKind::ProviderStreamFailed),
        (
            RuntimeFailure::Tool { tool: "read".to_string(), message: "gone".to_string() },
            EmbedErrorKind::ToolFailed,
        ),
        (RuntimeFailure::Io { text: "disk".to_string() }, EmbedErrorKind::Internal),
        (RuntimeFailure::Validation { message: "bad".to_string() }, EmbedErrorKind::Internal),
    ];
    for (failure, kind) in cases {
        let mut bridge = EventBridgeState::new();
        let (terminal, error) = finalize_runtime_error(&mut bridge, "p", "m", failure);
        assert_eq!(error.kind(), kind);
        assert_eq!(terminal, Some(TurnTerminal::Failed { error: kind }));
    }
    let mut bridge = EventBridgeState::new();
    let (_, error) = finalize_runtime_error(
        &mut bridge,
        "p",
        "m",
        RuntimeFailure::Sqlite { text: "locked".to_string() },
    );
    assert_eq!(error.to_string(), "Session setup failed during runtime::execute_turn: locked");
    let (_, error) = finalize_runtime_error(
        &mut bridge,
        "p",
        "m",
        RuntimeFailure::Tool { tool: "read".to_string(), message: "gone".to_string() },
    );
    assert_eq!(error.to_string(), "Tool 'read' failed: gone");
}

#[test]
fn run_turn_with_artifacts_skips_event_capture_when_not_requested() {
    assert!(!request_capture_events(&ExecutionMode::Prompt {
        prompt: "say hello".to_string(),
        capture_events: false,
    }));
    assert!(request_capture_events(&ExecutionMode::Continue { capture_events: true }));
}

#[test]
fn timestamps_saturate() {
    assert_eq!(unix_timestamp_ms(1_700_000_000_000), 1_700_000_000_000);
    assert_eq!(unix_timestamp_ms(u128::MAX), i64::MAX);
}
