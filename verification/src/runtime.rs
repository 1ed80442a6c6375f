//! The decisions that end an embedded turn: which terminal event is
//! emitted, what result or error the host receives, and how runtime
//! failures are classified.

use vstd::prelude::*;
use crate::errors::{EmbedError, EmbedErrorKind};
use crate::event_bridge::{BridgeView, EventBridgeState};
use crate::model::StopReason;
use crate::types::{SessionMode, TurnResultMetadata};

verus! {

/// How a turn is driven: by a new prompt, or by continuing the history.
#[derive(Debug, Clone, PartialEq, Eq)]
pub enum ExecutionMode {
    /// Run a new user prompt.
    Prompt { prompt: String, capture_events: bool },
    /// Continue from the reconstructed history.
    Continue { capture_events: bool },
}

/// Whether the host asked for the turn's events to be recorded.
pub fn request_capture_events(execution_mode: &ExecutionMode) -> (r: bool)
    ensures
        r == match execution_mode {
            ExecutionMode::Prompt { capture_events, .. } => *capture_events,
            ExecutionMode::Continue { capture_events } => *capture_events,
        },
{
    match execution_mode {
        ExecutionMode::Prompt { capture_events, .. } => *capture_events,
        ExecutionMode::Continue { capture_events } => *capture_events,
    }
}

/// Milliseconds since the Unix epoch as a timestamp, saturating at the
/// largest `i64`.
pub fn unix_timestamp_ms(elapsed_millis: u128) -> (r: i64)
    ensures
        elapsed_millis <= i64::MAX ==> r == elapsed_millis,
        elapsed_millis > i64::MAX ==> r == i64::MAX,
{
    if elapsed_millis <= 9_223_372_036_854_775_807u128 {
        elapsed_millis as i64
    } else {
        i64::MAX
    }
}

/// The terminal event that ends a turn.
#[derive(Debug, Clone, Copy, PartialEq, Eq, Structural)]
pub enum TurnTerminal {
    /// The turn completed.
    Completed,
    /// The turn failed with an error kind.
    Failed { error: EmbedErrorKind },
}

/// The text of a provider failure reported by a stream that ended in error.
pub open spec fn stream_failure_text(error_message: Option<Seq<char>>) -> Seq<char> {
    match error_message {
        Some(m) => m,
        None => "provider stream failed"@,
    }
}

/// Whether a turn metadata value is the one owed for a finished turn.
pub open spec fn finished_metadata(
    m: TurnResultMetadata,
    bridge: BridgeView,
    provider_id: Seq<char>,
    model_id: Seq<char>,
    session_mode: SessionMode,
    stop_reason: StopReason,
) -> bool {
    &&& m.provider_id@ == provider_id
    &&& m.model_id@ == model_id
    &&& m.tool_calls_executed == bridge.tool_calls_executed
    &&& m.had_errors == (bridge.had_errors || stop_reason == StopReason::Error)
    &&& m.aborted == (stop_reason == StopReason::Aborted)
    &&& m.session_mode == session_mode
}

/// A copy of a session mode.
fn clone_session_mode(m: &SessionMode) -> (r: SessionMode)
    ensures
        r == *m,
{
    match m {
        SessionMode::InMemory => SessionMode::InMemory,
        SessionMode::DebugFile(p) => SessionMode::DebugFile(p.clone()),
        SessionMode::Persistent(p) => SessionMode::Persistent(p.clone()),
    }
}

/// Finish a turn whose agent run returned a final assistant message.
///
/// An aborted message fails the turn as cancelled but still yields the
/// partial result; a message that ended in error fails the turn with a
/// provider failure; any other stop completes the turn. The returned
/// terminal event is the one to emit, if the bridge had not emitted one.
pub fn finalize_success(
    bridge: &mut EventBridgeState,
    provider_id: &str,
    model_id: &str,
    session_mode: &SessionMode,
    stop_reason: StopReason,
    error_message: Option<String>,
) -> (r: (Option<TurnTerminal>, Result<TurnResultMetadata, EmbedError>))
    ensures
        final(bridge)@.terminal_emitted,
        final(bridge)@.tool_calls_executed == old(bridge)@.tool_calls_executed,
        final(bridge)@.started == old(bridge)@.started,
        match stop_reason {
            StopReason::Aborted => {
                &&& final(bridge)@.had_errors
                &&& r.0 == if old(bridge)@.terminal_emitted {
                    None
                } else {
                    Some(TurnTerminal::Failed { error: EmbedErrorKind::Cancelled })
                }
                &&& r.1 is Ok
                &&& finished_metadata(
                    r.1->Ok_0,
                    final(bridge)@,
                    provider_id@,
                    model_id@,
                    *session_mode,
                    stop_reason,
                )
            },
            StopReason::Error => {
                &&& final(bridge)@.had_errors
                &&& r.0 == if old(bridge)@.terminal_emitted {
                    None
                } else {
                    Some(TurnTerminal::Failed { error: EmbedErrorKind::ProviderStreamFailed })
                }
                &&& r.1 is Err
                &&& r.1->Err_0 matches EmbedError::Provider { provider_id: p, model_id: m, source_message: s }
                    && p@ == provider_id@ && m@ == model_id@ && s@ == stream_failure_text(
                    error_message.deep_view(),
                )
            },
            _ => {
                &&& final(bridge)@.had_errors == old(bridge)@.had_errors
                &&& r.0 == if old(bridge)@.terminal_emitted {
                    None
                } else {
                    Some(TurnTerminal::Completed)
                }
                &&& r.1 is Ok
                &&& finished_metadata(
                    r.1->Ok_0,
                    final(bridge)@,
                    provider_id@,
                    model_id@,
                    *session_mode,
                    stop_reason,
                )
            },
        },
{
    match stop_reason {
        StopReason::Aborted => {
            let emit = bridge.emit_turn_failed();
            let terminal = if emit {
                Some(TurnTerminal::Failed { error: EmbedErrorKind::Cancelled })
            } else {
                None
            };
            let metadata = TurnResultMetadata {
                provider_id: String::from_str(provider_id),
                model_id: String::from_str(model_id),
                tool_calls_executed: bridge.tool_calls_executed,
                had_errors: bridge.had_errors,
                aborted: true,
                session_mode: clone_session_mode(session_mode),
            };
            (terminal, Ok(metadata))
        },
        StopReason::Error => {
            let message = match error_message {
                Some(m) => m,
                None => String::from_str("provider stream failed"),
            };
            let error = EmbedError::provider(
                String::from_str(provider_id),
                String::from_str(model_id),
                message,
            );
            let emit = bridge.emit_turn_failed();
            let terminal = if emit {
                Some(TurnTerminal::Failed { error: error.kind() })
            } else {
                None
            };
            (terminal, Err(error))
        },
        _ => {
            let emit = bridge.emit_turn_completed();
            let terminal = if emit {
                Some(TurnTerminal::Completed)
            } else {
                None
            };
            let metadata = TurnResultMetadata {
                provider_id: String::from_str(provider_id),
                model_id: String::from_str(model_id),
                tool_calls_executed: bridge.tool_calls_executed,
                had_errors: bridge.had_errors,
                aborted: false,
                session_mode: clone_session_mode(session_mode),
            };
            (terminal, Ok(metadata))
        },
    }
}

/// A failure raised by the agent runtime while a turn ran, with the text it
/// displays.
#[derive(Debug, Clone, PartialEq, Eq)]
pub enum RuntimeFailure {
    Aborted,
    Provider { text: String },
    Auth { text: String },
    Api { text: String },
    Tool { tool: String, message: String },
    Session { text: String },
    SessionNotFound { text: String },
    Io { text: String },
    Json { text: String },
    Sqlite { text: String },
    Config { message: String },
    Validation { message: String },
    Extension { message: String },
}

/// The host-facing error for a runtime failure.
pub open spec fn runtime_error_spec(
    failure: RuntimeFailure,
    provider_id: Seq<char>,
    model_id: Seq<char>,
    e: EmbedError,
) -> bool {
    match failure {
        RuntimeFailure::Aborted => e == EmbedError::Aborted,
        RuntimeFailure::Provider { text } | RuntimeFailure::Auth { text } | RuntimeFailure::Api {
            text,
        } => e matches EmbedError::Provider { provider_id: p, model_id: m, source_message: s }
            && p@ == provider_id && m@ == model_id && s@ == text@,
        RuntimeFailure::Tool { tool, message } => e matches EmbedError::Tool {
            tool_name: t,
            message: msg,
            source_message: src,
        } && t@ == tool@ && msg@ == message@ && src is None,
        RuntimeFailure::Session { text }
        | RuntimeFailure::SessionNotFound { text }
        | RuntimeFailure::Io { text }
        | RuntimeFailure::Json { text }
        | RuntimeFailure::Sqlite { text } => e matches EmbedError::Session {
            operation: o,
            source_message: s,
        } && o@ == "runtime::execute_turn"@ && s@ == text@,
        RuntimeFailure::Config { message }
        | RuntimeFailure::Validation { message }
        | RuntimeFailure::Extension { message } => e matches EmbedError::Internal { message: m }
            && m@ == message@,
    }
}

/// Classify a runtime failure, fail the turn on the bridge, and return the
/// terminal event to emit (if none was emitted before) with the error.
pub fn finalize_runtime_error(
    bridge: &mut EventBridgeState,
    provider_id: &str,
    model_id: &str,
    failure: RuntimeFailure,
) -> (r: (Option<TurnTerminal>, EmbedError))
    ensures
        runtime_error_spec(failure, provider_id@, model_id@, r.1),
        final(bridge)@ == (BridgeView { terminal_emitted: true, had_errors: true, ..old(bridge)@ }),
        r.0 == if old(bridge)@.terminal_emitted {
            None
        } else {
            Some(TurnTerminal::Failed { error: r.1.spec_kind() })
        },
{
    let error = match failure {
        RuntimeFailure::Aborted => EmbedError::Aborted,
        RuntimeFailure::Provider { text } | RuntimeFailure::Auth { text } | RuntimeFailure::Api {
            text,
        } => EmbedError::provider(String::from_str(provider_id), String::from_str(model_id), text),
        RuntimeFailure::Tool { tool, message } => EmbedError::tool_failed(tool, message, None),
        RuntimeFailure::Session { text }
        | RuntimeFailure::SessionNotFound { text }
        | RuntimeFailure::Io { text }
        | RuntimeFailure::Json { text }
        | RuntimeFailure::Sqlite { text } => EmbedError::session("runtime::execute_turn", text),
        RuntimeFailure::Config { message }
        | RuntimeFailure::Validation { message }
        | RuntimeFailure::Extension { message } => EmbedError::internal(message),
    };
    let emit = bridge.emit_turn_failed();
    let terminal = if emit {
        Some(TurnTerminal::Failed { error: error.kind() })
    } else {
        None
    };
    (terminal, error)
}

} // verus!
