//! Embedding surface for the Pi agent runtime: explicit contract types,
//! provider resolution, transcript reconstruction, tool policy and the
//! decisions that drive one embedded turn.
//!
//! The host remains the source of truth for persistence, permissions and
//! tool routing; this crate states and checks what the embed layer does with
//! what the host hands it.

pub mod bootstrap;
pub mod encoding;
pub mod errors;
pub mod event_bridge;
pub mod history;
pub mod json;
pub mod model;
pub mod provider_factory;
pub mod runtime;
pub mod text;
pub mod tool_bridge;
pub mod types;

pub use crate::bootstrap::{compose_system_prompt, validate_config, validate_config_with};
pub use crate::errors::{EmbedError, EmbedErrorKind};
pub use crate::event_bridge::{AgentEventSummary, AssistantUpdate, BridgeEmission, EventBridgeState};
pub use crate::history::reconstruct_history;
pub use crate::model::{ContentBlock, Message, QueueMode, StopReason, ThinkingLevel, UserContent};
pub use crate::provider_factory::{
    ModelEntry, RoutingDefaults, StreamSettings, build_stream_options, resolve_model_entry,
};
pub use crate::runtime::{ExecutionMode, RuntimeFailure, TurnTerminal, finalize_runtime_error, finalize_success};
pub use crate::tool_bridge::{
    HostToolDefinition, HostToolError, HostToolErrorKind, HostToolOutput, HostToolRequest,
    HostToolUpdate, ToolOutput, plan_tool_registry,
};
pub use crate::types::{
    HistoryConversionResult, HistoryWarning, HistoryWarningKind, HostContentBlock, HostToolKind,
    HostTranscriptEntry, HostTranscriptRole, LynxEmbedConfig, LynxEmbedConfigBuilder,
    ProviderSelection, ProviderStreamOverride, QueueModeConfig, RuntimeMetadata, SessionMode,
    ToolPolicy, TurnResultMetadata,
};
