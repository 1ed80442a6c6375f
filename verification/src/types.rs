//! Shared embed-facing request, response, policy and transcript types.

use vstd::prelude::*;
use crate::model::{Message, MessageView, QueueMode, ThinkingLevel, messages_view};

verus! {

/// Host-routed tool capabilities surfaced to the embed runtime.
#[derive(Debug, Clone, Copy, PartialEq, Eq, Structural)]
pub enum HostToolKind {
    /// Read file contents.
    Read,
    /// Search file contents.
    Search,
    /// List directories or files.
    List,
    /// Execute processes through host policy.
    Exec,
    /// Edit files through host policy.
    Edit,
    /// Write files through host policy.
    Write,
}

impl HostToolKind {
    /// Tool kinds that only read workspace state.
    pub open spec fn spec_is_read_only(self) -> bool {
        self == HostToolKind::Read || self == HostToolKind::Search || self == HostToolKind::List
    }

    /// Tool kinds that mutate workspace state.
    pub open spec fn spec_is_mutating(self) -> bool {
        self == HostToolKind::Edit || self == HostToolKind::Write
    }

    /// Tool kinds that may execute subprocesses.
    pub open spec fn spec_is_exec(self) -> bool {
        self == HostToolKind::Exec
    }

    /// Return whether the tool kind is safe to run in parallel.
    pub fn is_read_only(self) -> (r: bool)
        ensures
            r == self.spec_is_read_only(),
    {
        match self {
            HostToolKind::Read | HostToolKind::Search | HostToolKind::List => true,
            _ => false,
        }
    }

    /// Return whether the tool kind mutates workspace state.
    pub fn is_mutating(self) -> (r: bool)
        ensures
            r == self.spec_is_mutating(),
    {
        match self {
            HostToolKind::Edit | HostToolKind::Write => true,
            _ => false,
        }
    }

    /// Return whether the tool kind may execute subprocesses.
    pub fn is_exec(self) -> (r: bool)
        ensures
            r == self.spec_is_exec(),
    {
        match self {
            HostToolKind::Exec => true,
            _ => false,
        }
    }
}

/// Every tool kind is exactly one of read-only, mutating or exec-capable.
pub proof fn lemma_tool_kind_classes_partition(kind: HostToolKind)
    ensures
        kind.spec_is_read_only() || kind.spec_is_mutating() || kind.spec_is_exec(),
        !(kind.spec_is_read_only() && kind.spec_is_mutating()),
        !(kind.spec_is_read_only() && kind.spec_is_exec()),
        !(kind.spec_is_mutating() && kind.spec_is_exec()),
{
}

/// Policy describing which host-routed tools are exposed.
#[derive(Debug, Clone, PartialEq, Eq)]
pub struct ToolPolicy {
    /// Whitelisted host-routed tool kinds.
    pub allowed_tools: Vec<HostToolKind>,
    /// Whether file mutations are allowed at all.
    pub allow_mutations: bool,
    /// Whether exec-capable tools are allowed at all.
    pub allow_exec: bool,
}

impl ToolPolicy {
    /// Whether the policy permits a tool kind: it is whitelisted, and mutating
    /// and exec-capable kinds additionally need their flag.
    pub open spec fn spec_allows(&self, tool: HostToolKind) -> bool {
        &&& self.allowed_tools@.contains(tool)
        &&& (!tool.spec_is_mutating() || self.allow_mutations)
        &&& (!tool.spec_is_exec() || self.allow_exec)
    }

    /// Return whether a specific host-routed tool kind is permitted.
    pub fn allows(&self, tool: HostToolKind) -> (r: bool)
        ensures
            r == self.spec_allows(tool),
    {
        let mut found = false;
        let mut i: usize = 0;
        while i < self.allowed_tools.len()
            invariant
                i <= self.allowed_tools@.len(),
                found == (exists|k: int| 0 <= k < i && self.allowed_tools@[k] == tool),
            decreases self.allowed_tools@.len() - i,
        {
            if self.allowed_tools[i] == tool {
                found = true;
            }
            i = i + 1;
        }
        proof {
            if found {
                let k = choose|k: int| 0 <= k < i && self.allowed_tools@[k] == tool;
                assert(self.allowed_tools@.contains(tool));
            }
        }
        found && (!tool.is_mutating() || self.allow_mutations) && (!tool.is_exec()
            || self.allow_exec)
    }
}

impl Default for ToolPolicy {
    /// Read, search and list; no mutations and no exec.
    fn default() -> (r: Self)
        ensures
            r.allowed_tools@ == seq![HostToolKind::Read, HostToolKind::Search, HostToolKind::List],
            !r.allow_mutations,
            !r.allow_exec,
    {
        ToolPolicy {
            allowed_tools: vec![HostToolKind::Read, HostToolKind::Search, HostToolKind::List],
            allow_mutations: false,
            allow_exec: false,
        }
    }
}

/// A policy never permits a mutating tool without `allow_mutations`, nor an
/// exec-capable tool without `allow_exec`, nor any kind it does not list.
pub proof fn lemma_policy_never_widens(policy: ToolPolicy, tool: HostToolKind)
    ensures
        policy.spec_allows(tool) ==> policy.allowed_tools@.contains(tool),
        tool.spec_is_mutating() && !policy.allow_mutations ==> !policy.spec_allows(tool),
        tool.spec_is_exec() && !policy.allow_exec ==> !policy.spec_allows(tool),
        tool.spec_is_read_only() ==> (policy.spec_allows(tool) <==> policy.allowed_tools@.contains(
            tool,
        )),
{
}

/// Session persistence mode for embed execution.
#[derive(Debug, Clone, PartialEq, Eq)]
pub enum SessionMode {
    /// Purely in-memory session execution.
    InMemory,
    /// Optional file-backed mode reserved for diagnostics.
    DebugFile(String),
    /// Optional persistent mode reserved for future expansion.
    Persistent(String),
}

/// Structured metadata passed through embed runtime assembly.
#[derive(Debug, Clone, PartialEq, Eq)]
pub struct RuntimeMetadata {
    /// Host conversation identifier.
    pub conversation_id: Option<String>,
    /// Host turn identifier.
    pub turn_id: Option<String>,
    /// Optional workspace root visible to the host.
    pub workspace_root: Option<String>,
    /// Optional user identifier for audit/tracing.
    pub user_id: Option<String>,
    /// Arbitrary host-provided tags, in ascending key order.
    pub tags: Vec<(String, String)>,
}

impl Default for RuntimeMetadata {
    /// No identifiers, no workspace root, no tags.
    fn default() -> (r: Self)
        ensures
            r.conversation_id is None,
            r.turn_id is None,
            r.workspace_root is None,
            r.user_id is None,
            r.tags@.len() == 0,
    {
        RuntimeMetadata {
            conversation_id: None,
            turn_id: None,
            workspace_root: None,
            user_id: None,
            tags: Vec::new(),
        }
    }
}

/// Conservative host overrides for provider stream behavior.
///
/// The temperature override is a float; it is checked and applied by the host
/// side of the crate.
#[derive(Debug, Clone, PartialEq, Eq)]
pub struct ProviderStreamOverride {
    /// Optional max-token override.
    pub max_tokens: Option<u32>,
    /// Optional extra headers to attach per request, in ascending name order.
    pub headers: Vec<(String, String)>,
    /// Optional uniform reasoning-budget override in tokens.
    pub reasoning_budget_tokens: Option<u32>,
}

/// Host-controlled provider/model/auth selection.
#[derive(Debug, Clone, PartialEq, Eq)]
pub struct ProviderSelection {
    /// Provider identifier or alias.
    pub provider_id: String,
    /// Provider-native model identifier.
    pub model_id: String,
    /// Optional API key override supplied directly by the host.
    pub api_key: Option<String>,
    /// Optional reasoning/thinking preference.
    pub thinking: Option<ThinkingLevel>,
    /// Optional per-request stream overrides.
    pub stream_options_override: Option<ProviderStreamOverride>,
}

/// Explicit queue mode choices for embed turns.
#[derive(Debug, Clone, Copy, PartialEq, Eq, Structural)]
pub struct QueueModeConfig {
    /// Delivery mode for steering messages.
    pub steering: QueueMode,
    /// Delivery mode for follow-up messages.
    pub follow_up: QueueMode,
}

impl Default for QueueModeConfig {
    /// One message at a time for both queues.
    fn default() -> (r: Self)
        ensures
            r.steering == QueueMode::OneAtATime,
            r.follow_up == QueueMode::OneAtATime,
    {
        QueueModeConfig { steering: QueueMode::OneAtATime, follow_up: QueueMode::OneAtATime }
    }
}


/// Top-level runtime configuration for embedding, generic over the host tool
/// adapters that it carries.
#[derive(Debug, Clone)]
pub struct LynxEmbedConfig<Tool> {
    /// Explicit provider/model/auth selection controlled by the host.
    pub provider: ProviderSelection,
    /// Optional system prompt that replaces the defaults.
    pub system_prompt: Option<String>,
    /// Optional system prompt suffix appended after `system_prompt`.
    pub append_system_prompt: Option<String>,
    /// Maximum number of tool loops permitted for the turn.
    pub max_tool_iterations: usize,
    /// Queue-drain behavior for steering and follow-up messages.
    pub queue_mode: QueueModeConfig,
    /// Whether runtime extensions may participate in embed mode.
    pub enable_extensions: bool,
    /// Session persistence mode for embed execution.
    pub session_mode: SessionMode,
    /// Tool exposure policy enforced by the embed layer.
    pub tool_policy: ToolPolicy,
    /// Host-routed tools available for embed execution.
    pub host_tools: Vec<Tool>,
    /// Opaque host metadata forwarded through runtime assembly.
    pub runtime_metadata: RuntimeMetadata,
}

/// The iteration limit of a fresh configuration.
pub const DEFAULT_MAX_TOOL_ITERATIONS: usize = 50;

impl<Tool> LynxEmbedConfig<Tool> {
    /// Start building an embed config from a required provider selection.
    pub fn builder(provider: ProviderSelection) -> (b: LynxEmbedConfigBuilder<Tool>)
        ensures
            b.inner.provider == provider,
            b.inner.system_prompt is None,
            b.inner.append_system_prompt is None,
            b.inner.max_tool_iterations == DEFAULT_MAX_TOOL_ITERATIONS,
            b.inner.queue_mode == (QueueModeConfig {
                steering: QueueMode::OneAtATime,
                follow_up: QueueMode::OneAtATime,
            }),
            !b.inner.enable_extensions,
            b.inner.session_mode == SessionMode::InMemory,
            b.inner.tool_policy.allowed_tools@ == seq![
                HostToolKind::Read,
                HostToolKind::Search,
                HostToolKind::List,
            ],
            !b.inner.tool_policy.allow_mutations,
            !b.inner.tool_policy.allow_exec,
            b.inner.host_tools@.len() == 0,
            b.inner.runtime_metadata.conversation_id is None,
            b.inner.runtime_metadata.turn_id is None,
            b.inner.runtime_metadata.workspace_root is None,
            b.inner.runtime_metadata.user_id is None,
            b.inner.runtime_metadata.tags@.len() == 0,
    {
        LynxEmbedConfigBuilder {
            inner: LynxEmbedConfig {
                provider,
                system_prompt: None,
                append_system_prompt: None,
                max_tool_iterations: DEFAULT_MAX_TOOL_ITERATIONS,
                queue_mode: QueueModeConfig::default(),
                enable_extensions: false,
                session_mode: SessionMode::InMemory,
                tool_policy: ToolPolicy::default(),
                host_tools: Vec::new(),
                runtime_metadata: RuntimeMetadata::default(),
            },
        }
    }
}

/// Builder for [`LynxEmbedConfig`].
#[derive(Debug, Clone)]
pub struct LynxEmbedConfigBuilder<Tool> {
    /// The configuration built so far.
    pub inner: LynxEmbedConfig<Tool>,
}

impl<Tool> LynxEmbedConfigBuilder<Tool> {
    /// Set the base system prompt.
    pub fn system_prompt(self, prompt: String) -> (r: Self)
        ensures
            r.inner == (LynxEmbedConfig { system_prompt: Some(prompt), ..self.inner }),
    {
        let mut s = self;
        s.inner.system_prompt = Some(prompt);
        s
    }

    /// Set the appended system prompt suffix.
    pub fn append_system_prompt(self, prompt: String) -> (r: Self)
        ensures
            r.inner == (LynxEmbedConfig { append_system_prompt: Some(prompt), ..self.inner }),
    {
        let mut s = self;
        s.inner.append_system_prompt = Some(prompt);
        s
    }

    /// Override the tool-iteration limit.
    pub fn max_tool_iterations(self, max_tool_iterations: usize) -> (r: Self)
        ensures
            r.inner == (LynxEmbedConfig { max_tool_iterations, ..self.inner }),
    {
        let mut s = self;
        s.inner.max_tool_iterations = max_tool_iterations;
        s
    }

    /// Override queue delivery behavior.
    pub fn queue_mode(self, queue_mode: QueueModeConfig) -> (r: Self)
        ensures
            r.inner == (LynxEmbedConfig { queue_mode, ..self.inner }),
    {
        let mut s = self;
        s.inner.queue_mode = queue_mode;
        s
    }

    /// Enable or disable runtime extensions for embed mode.
    pub fn enable_extensions(self, enable_extensions: bool) -> (r: Self)
        ensures
            r.inner == (LynxEmbedConfig { enable_extensions, ..self.inner }),
    {
        let mut s = self;
        s.inner.enable_extensions = enable_extensions;
        s
    }

    /// Override the embed session mode.
    pub fn session_mode(self, session_mode: SessionMode) -> (r: Self)
        ensures
            r.inner == (LynxEmbedConfig { session_mode, ..self.inner }),
    {
        let mut s = self;
        s.inner.session_mode = session_mode;
        s
    }

    /// Override the tool policy.
    pub fn tool_policy(self, tool_policy: ToolPolicy) -> (r: Self)
        ensures
            r.inner == (LynxEmbedConfig { tool_policy, ..self.inner }),
    {
        let mut s = self;
        s.inner.tool_policy = tool_policy;
        s
    }

    /// Replace the host-routed tool set.
    pub fn host_tools(self, host_tools: Vec<Tool>) -> (r: Self)
        ensures
            r.inner == (LynxEmbedConfig { host_tools, ..self.inner }),
    {
        let mut s = self;
        s.inner.host_tools = host_tools;
        s
    }

    /// Append a single host-routed tool adapter.
    pub fn push_host_tool(self, host_tool: Tool) -> (r: Self)
        ensures
            r.inner.host_tools@ == self.inner.host_tools@.push(host_tool),
            r.inner == (LynxEmbedConfig { host_tools: r.inner.host_tools, ..self.inner }),
    {
        let mut s = self;
        s.inner.host_tools.push(host_tool);
        s
    }

    /// Attach structured host metadata.
    pub fn runtime_metadata(self, runtime_metadata: RuntimeMetadata) -> (r: Self)
        ensures
            r.inner == (LynxEmbedConfig { runtime_metadata, ..self.inner }),
    {
        let mut s = self;
        s.inner.runtime_metadata = runtime_metadata;
        s
    }

    /// Finalize the embed configuration.
    pub fn build(self) -> (r: LynxEmbedConfig<Tool>)
        ensures
            r == self.inner,
    {
        self.inner
    }
}

/// Host-owned transcript role.
#[derive(Debug, Clone, Copy, PartialEq, Eq, Structural)]
pub enum HostTranscriptRole {
    /// User-authored message.
    User,
    /// Assistant-authored message.
    Assistant,
    /// Tool-result message.
    ToolResult,
    /// Host-defined message type.
    Custom,
}

/// Host-supplied content block used for transcript reconstruction.
#[derive(Debug, Clone, PartialEq)]
pub enum HostContentBlock {
    /// Plain text content.
    Text { text: String },
    /// Inline image bytes.
    Image { mime_type: String, data: Vec<u8> },
    /// Reasoning/thinking content.
    Thinking { text: String },
    /// Tool call emitted by a prior assistant message.
    ToolCall { tool_call_id: String, tool_name: String, arguments: serde_json::Value },
}

/// The mathematical value of a host content block.
pub enum HostContentBlockView {
    Text { text: Seq<char> },
    Image { mime_type: Seq<char>, data: Seq<u8> },
    Thinking { text: Seq<char> },
    ToolCall { tool_call_id: Seq<char>, tool_name: Seq<char>, arguments: serde_json::Value },
}

impl View for HostContentBlock {
    type V = HostContentBlockView;

    open spec fn view(&self) -> HostContentBlockView {
        match self {
            HostContentBlock::Text { text } => HostContentBlockView::Text { text: text@ },
            HostContentBlock::Image { mime_type, data } => HostContentBlockView::Image {
                mime_type: mime_type@,
                data: data@,
            },
            HostContentBlock::Thinking { text } => HostContentBlockView::Thinking { text: text@ },
            HostContentBlock::ToolCall { tool_call_id, tool_name, arguments } =>
                HostContentBlockView::ToolCall {
                tool_call_id: tool_call_id@,
                tool_name: tool_name@,
                arguments: *arguments,
            },
        }
    }
}

/// Host-owned transcript entry reconstructed before each turn.
#[derive(Debug, Clone, PartialEq)]
pub struct HostTranscriptEntry {
    /// Host-defined message role.
    pub role: HostTranscriptRole,
    /// Optional host message identifier.
    pub message_id: Option<String>,
    /// Optional tool call identifier used by tool-result entries.
    pub tool_call_id: Option<String>,
    /// Optional tool name used by tool-result entries.
    pub tool_name: Option<String>,
    /// Optional custom type for `Custom` role entries.
    pub custom_type: Option<String>,
    /// Structured content blocks for the entry.
    pub content: Vec<HostContentBlock>,
    /// Whether the transcript entry semantically represents an error.
    pub is_error: bool,
    /// Optional wall-clock timestamp in milliseconds.
    pub timestamp_ms: Option<i64>,
}

/// The mathematical value of a transcript entry.
pub struct HostTranscriptEntryView {
    pub role: HostTranscriptRole,
    pub message_id: Option<Seq<char>>,
    pub tool_call_id: Option<Seq<char>>,
    pub tool_name: Option<Seq<char>>,
    pub custom_type: Option<Seq<char>>,
    pub content: Seq<HostContentBlockView>,
    pub is_error: bool,
    pub timestamp_ms: Option<i64>,
}

impl View for HostTranscriptEntry {
    type V = HostTranscriptEntryView;

    open spec fn view(&self) -> HostTranscriptEntryView {
        HostTranscriptEntryView {
            role: self.role,
            message_id: self.message_id.deep_view(),
            tool_call_id: self.tool_call_id.deep_view(),
            tool_name: self.tool_name.deep_view(),
            custom_type: self.custom_type.deep_view(),
            content: self.content@.map_values(|b: HostContentBlock| b@),
            is_error: self.is_error,
            timestamp_ms: self.timestamp_ms,
        }
    }
}

/// The views of a transcript.
pub open spec fn transcript_view(entries: Seq<HostTranscriptEntry>) -> Seq<HostTranscriptEntryView> {
    entries.map_values(|e: HostTranscriptEntry| e@)
}

/// Stable warning kinds returned by transcript reconstruction.
#[derive(Debug, Clone, Copy, PartialEq, Eq, Structural)]
pub enum HistoryWarningKind {
    /// Non-text custom content was dropped because custom messages are text-only.
    CustomContentBlockDropped,
}

/// Recoverable warning encountered during transcript reconstruction.
#[derive(Debug, Clone, PartialEq, Eq)]
pub struct HistoryWarning {
    /// Stable warning category.
    pub kind: HistoryWarningKind,
    /// Host message identifier when available.
    pub message_id: Option<String>,
    /// Human-readable warning detail for diagnostics.
    pub detail: String,
}

/// The mathematical value of a warning.
pub struct HistoryWarningView {
    pub kind: HistoryWarningKind,
    pub message_id: Option<Seq<char>>,
    pub detail: Seq<char>,
}

impl View for HistoryWarning {
    type V = HistoryWarningView;

    open spec fn view(&self) -> HistoryWarningView {
        HistoryWarningView {
            kind: self.kind,
            message_id: self.message_id.deep_view(),
            detail: self.detail@,
        }
    }
}

/// The views of a sequence of warnings.
pub open spec fn warnings_view(warnings: Seq<HistoryWarning>) -> Seq<HistoryWarningView> {
    warnings.map_values(|w: HistoryWarning| w@)
}

/// Transcript reconstruction output.
#[derive(Debug, Clone)]
pub struct HistoryConversionResult {
    /// Reconstructed messages in transcript order.
    pub messages: Vec<Message>,
    /// Recoverable warnings encountered during reconstruction.
    pub warnings: Vec<HistoryWarning>,
}

/// Structured metadata describing a completed turn.
#[derive(Debug, Clone, PartialEq, Eq)]
pub struct TurnResultMetadata {
    /// Provider used for the turn.
    pub provider_id: String,
    /// Model used for the turn.
    pub model_id: String,
    /// Number of host tools executed during the turn.
    pub tool_calls_executed: usize,
    /// Whether any errors were observed during the turn.
    pub had_errors: bool,
    /// Whether the turn ended due to cancellation.
    pub aborted: bool,
    /// Session mode used for the turn.
    pub session_mode: SessionMode,
}

} // verus!
