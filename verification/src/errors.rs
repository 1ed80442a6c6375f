//! Error boundary for the embedding layer.

use vstd::prelude::*;

verus! {

/// Stable machine-readable failure classes exposed to hosts.
#[derive(Debug, Clone, Copy, PartialEq, Eq, Structural)]
pub enum EmbedErrorKind {
    InvalidConfig,
    InvalidTranscript,
    ProviderUnavailable,
    ProviderStreamFailed,
    ToolDenied,
    ToolFailed,
    Cancelled,
    Internal,
}

/// Host-facing error boundary for embedding operations.
///
/// Failures raised by the agent runtime are carried by the text that they
/// display (`source_message`).
#[derive(Debug, Clone, PartialEq, Eq)]
pub enum EmbedError {
    /// Embed configuration was invalid before execution could start.
    Config { operation: String, message: String },
    /// Runtime assembly failed before the agent loop began.
    Bootstrap {
        operation: String,
        provider_id: Option<String>,
        model_id: Option<String>,
        source_message: String,
    },
    /// Host transcript could not be converted into message history.
    Transcript { message: String },
    /// Provider creation or streaming failed.
    Provider { provider_id: String, model_id: String, source_message: String },
    /// Tool execution was denied by host policy.
    ToolDenied { tool_name: String, message: String },
    /// Tool execution failed after it was accepted.
    Tool { tool_name: String, message: String, source_message: Option<String> },
    /// Session state could not be created or updated.
    Session { operation: String, source_message: String },
    /// Event translation or delivery failed.
    EventBridge { message: String },
    /// Host or user cancellation stopped the turn.
    Aborted,
    /// Unexpected invariant breakage inside the embed layer.
    Internal { message: String },
}

impl EmbedError {
    /// The stable kind of each failure.
    pub open spec fn spec_kind(&self) -> EmbedErrorKind {
        match self {
            EmbedError::Config { .. } => EmbedErrorKind::InvalidConfig,
            EmbedError::Transcript { .. } => EmbedErrorKind::InvalidTranscript,
            EmbedError::Bootstrap { .. } => EmbedErrorKind::ProviderUnavailable,
            EmbedError::Provider { .. } => EmbedErrorKind::ProviderStreamFailed,
            EmbedError::ToolDenied { .. } => EmbedErrorKind::ToolDenied,
            EmbedError::Tool { .. } => EmbedErrorKind::ToolFailed,
            EmbedError::Aborted => EmbedErrorKind::Cancelled,
            EmbedError::Session { .. } => EmbedErrorKind::Internal,
            EmbedError::EventBridge { .. } => EmbedErrorKind::Internal,
            EmbedError::Internal { .. } => EmbedErrorKind::Internal,
        }
    }

    /// The human-readable text of each failure.
    pub open spec fn display_text(&self) -> Seq<char> {
        match self {
            EmbedError::Config { operation, message } => "Invalid embed configuration during "@
                + operation@ + ": "@ + message@,
            EmbedError::Bootstrap { operation, source_message, .. } => "Bootstrap failed during "@
                + operation@ + ": "@ + source_message@,
            EmbedError::Transcript { message } => "Transcript reconstruction failed: "@ + message@,
            EmbedError::Provider { provider_id, model_id, source_message } =>
                "Provider execution failed for "@ + provider_id@ + "/"@ + model_id@ + ": "@
                + source_message@,
            EmbedError::ToolDenied { tool_name, message } => "Tool '"@ + tool_name@
                + "' was denied: "@ + message@,
            EmbedError::Tool { tool_name, message, .. } => "Tool '"@ + tool_name@ + "' failed: "@
                + message@,
            EmbedError::Session { operation, source_message } => "Session setup failed during "@
                + operation@ + ": "@ + source_message@,
            EmbedError::EventBridge { message } => "Event bridge failed: "@ + message@,
            EmbedError::Aborted => "Embed turn aborted"@,
            EmbedError::Internal { message } => "Internal embed runtime error: "@ + message@,
        }
    }

    /// Whether this is a transcript failure with the given message text.
    pub open spec fn is_transcript_error(&self, message: Seq<char>) -> bool {
        &&& self matches EmbedError::Transcript { message: m }
        &&& m@ == message
    }

    /// Whether this is a configuration failure raised during `operation` with
    /// the given message text.
    pub open spec fn is_config_error(&self, operation: Seq<char>, message: Seq<char>) -> bool {
        &&& self matches EmbedError::Config { operation: o, message: m }
        &&& o@ == operation
        &&& m@ == message
    }

    /// Construct an invalid-config error with operation context.
    pub fn config(operation: &str, message: String) -> (r: Self)
        ensures
            r.is_config_error(operation@, message@),
    {
        EmbedError::Config { operation: String::from_str(operation), message }
    }

    /// Construct a bootstrap failure with provider/model context when known.
    pub fn bootstrap(
        operation: &str,
        provider_id: Option<String>,
        model_id: Option<String>,
        source_message: String,
    ) -> (r: Self)
        ensures
            r matches EmbedError::Bootstrap { operation: o, provider_id: p, model_id: m, source_message: s }
                && o@ == operation@ && p == provider_id && m == model_id && s == source_message,
    {
        EmbedError::Bootstrap {
            operation: String::from_str(operation),
            provider_id,
            model_id,
            source_message,
        }
    }

    /// Construct a transcript reconstruction error.
    pub fn transcript(message: String) -> (r: Self)
        ensures
            r.is_transcript_error(message@),
    {
        EmbedError::Transcript { message }
    }

    /// Construct a provider failure with provider/model context.
    pub fn provider(provider_id: String, model_id: String, source_message: String) -> (r: Self)
        ensures
            r == (EmbedError::Provider { provider_id, model_id, source_message }),
    {
        EmbedError::Provider { provider_id, model_id, source_message }
    }

    /// Construct a tool-denied failure.
    pub fn tool_denied(tool_name: String, message: String) -> (r: Self)
        ensures
            r == (EmbedError::ToolDenied { tool_name, message }),
    {
        EmbedError::ToolDenied { tool_name, message }
    }

    /// Construct a tool execution failure.
    pub fn tool_failed(tool_name: String, message: String, source_message: Option<String>) -> (r:
        Self)
        ensures
            r == (EmbedError::Tool { tool_name, message, source_message }),
    {
        EmbedError::Tool { tool_name, message, source_message }
    }

    /// Construct a session failure.
    pub fn session(operation: &str, source_message: String) -> (r: Self)
        ensures
            r matches EmbedError::Session { operation: o, source_message: s } && o@ == operation@
                && s == source_message,
    {
        EmbedError::Session { operation: String::from_str(operation), source_message }
    }

    /// Construct an event bridge failure.
    pub fn event_bridge(message: String) -> (r: Self)
        ensures
            r == (EmbedError::EventBridge { message }),
    {
        EmbedError::EventBridge { message }
    }

    /// Construct an internal failure.
    pub fn internal(message: String) -> (r: Self)
        ensures
            r == (EmbedError::Internal { message }),
    {
        EmbedError::Internal { message }
    }

    /// Return the stable machine-readable error kind for this failure.
    pub fn kind(&self) -> (r: EmbedErrorKind)
        ensures
            r == self.spec_kind(),
    {
        match self {
            EmbedError::Config { .. } => EmbedErrorKind::InvalidConfig,
            EmbedError::Transcript { .. } => EmbedErrorKind::InvalidTranscript,
            EmbedError::Bootstrap { .. } => EmbedErrorKind::ProviderUnavailable,
            EmbedError::Provider { .. } => EmbedErrorKind::ProviderStreamFailed,
            EmbedError::ToolDenied { .. } => EmbedErrorKind::ToolDenied,
            EmbedError::Tool { .. } => EmbedErrorKind::ToolFailed,
            EmbedError::Aborted => EmbedErrorKind::Cancelled,
            EmbedError::Session { .. } | EmbedError::EventBridge { .. } | EmbedError::Internal {
                ..
            } => EmbedErrorKind::Internal,
        }
    }

    /// The human-readable description of this failure.
    pub fn to_string(&self) -> (r: String)
        ensures
            r@ == self.display_text(),
    {
        match self {
            EmbedError::Config { operation, message } => {
                let r = String::from_str("Invalid embed configuration during ");
                let r = r.concat(operation.as_str());
                let r = r.concat(": ");
                r.concat(message.as_str())
            },
            EmbedError::Bootstrap { operation, source_message, .. } => {
                let r = String::from_str("Bootstrap failed during ");
                let r = r.concat(operation.as_str());
                let r = r.concat(": ");
                r.concat(source_message.as_str())
            },
            EmbedError::Transcript { message } => {
                let r = String::from_str("Transcript reconstruction failed: ");
                r.concat(message.as_str())
            },
            EmbedError::Provider { provider_id, model_id, source_message } => {
                let r = String::from_str("Provider execution failed for ");
                let r = r.concat(provider_id.as_str());
                let r = r.concat("/");
                let r = r.concat(model_id.as_str());
                let r = r.concat(": ");
                r.concat(source_message.as_str())
            },
            EmbedError::ToolDenied { tool_name, message } => {
                let r = String::from_str("Tool '");
                let r = r.concat(tool_name.as_str());
                let r = r.concat("' was denied: ");
                r.concat(message.as_str())
            },
            EmbedError::Tool { tool_name, message, .. } => {
                let r = String::from_str("Tool '");
                let r = r.concat(tool_name.as_str());
                let r = r.concat("' failed: ");
                r.concat(message.as_str())
            },
            EmbedError::Session { operation, source_message } => {
                let r = String::from_str("Session setup failed during ");
                let r = r.concat(operation.as_str());
                let r = r.concat(": ");
                r.concat(source_message.as_str())
            },
            EmbedError::EventBridge { message } => {
                let r = String::from_str("Event bridge failed: ");
                r.concat(message.as_str())
            },
            EmbedError::Aborted => String::from_str("Embed turn aborted"),
            EmbedError::Internal { message } => {
                let r = String::from_str("Internal embed runtime error: ");
                r.concat(message.as_str())
            },
        }
    }
}

} // verus!
