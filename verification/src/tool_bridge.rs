//! Host-routed tools: definitions, requests, outputs and failures, the
//! checks that decide which tools a turn exposes, and the conversion of host
//! failures into tool results.

use vstd::prelude::*;
use crate::errors::EmbedError;
use crate::json::{
    json_into_object, json_is_object, json_map_contains_key, json_map_insert,
    json_map_insert_string, json_map_keys, json_map_new, json_map_strings, json_map_values,
    json_object,
    json_object_map, json_value_is_object,
};
use crate::model::{ContentBlock, ContentBlockView, blocks_view};
use crate::text::{str_trim, trim_seq};
use crate::types::{HostToolKind, RuntimeMetadata, ToolPolicy};

verus! {

/// Stable description of a host-routed tool exposed to the model.
#[derive(Debug, Clone)]
pub struct HostToolDefinition {
    /// Stable tool name visible to the model.
    pub name: String,
    /// Human-facing label used in UI/event surfaces.
    pub label: String,
    /// Tool purpose and usage guidance.
    pub description: String,
    /// JSON Schema parameters accepted by the tool.
    pub parameters: serde_json::Value,
}

/// Host-owned tool request normalized by the embed bridge.
#[derive(Debug, Clone)]
pub struct HostToolRequest {
    /// Provider-supplied tool call identifier.
    pub tool_call_id: String,
    /// Stable tool name visible to the model.
    pub tool_name: String,
    /// Host tool capability kind enforced by policy.
    pub kind: HostToolKind,
    /// Raw JSON arguments emitted by the model.
    pub input: serde_json::Value,
    /// Opaque host metadata forwarded from embed config.
    pub runtime_metadata: RuntimeMetadata,
}

/// Build the request handed to a host tool for one call.
pub fn host_tool_request(
    tool_call_id: &str,
    definition: &HostToolDefinition,
    kind: HostToolKind,
    input: serde_json::Value,
    runtime_metadata: &RuntimeMetadata,
) -> (r: HostToolRequest)
    ensures
        r.tool_call_id@ == tool_call_id@,
        r.tool_name@ == definition.name@,
        r.kind == kind,
        r.input == input,
        same_metadata(r.runtime_metadata, *runtime_metadata),
{
    HostToolRequest {
        tool_call_id: String::from_str(tool_call_id),
        tool_name: definition.name.clone(),
        kind,
        input,
        runtime_metadata: clone_runtime_metadata(runtime_metadata),
    }
}

/// Whether two runtime metadata values hold the same identifiers and tags.
pub open spec fn same_metadata(a: RuntimeMetadata, b: RuntimeMetadata) -> bool {
    &&& a.conversation_id == b.conversation_id
    &&& a.turn_id == b.turn_id
    &&& a.workspace_root == b.workspace_root
    &&& a.user_id == b.user_id
    &&& a.tags@ == b.tags@
}

/// A copy of runtime metadata.
pub fn clone_runtime_metadata(m: &RuntimeMetadata) -> (r: RuntimeMetadata)
    ensures
        same_metadata(r, *m),
{
    let mut tags: Vec<(String, String)> = Vec::new();
    let mut i: usize = 0;
    while i < m.tags.len()
        invariant
            i <= m.tags@.len(),
            tags@ == m.tags@.take(i as int),
        decreases m.tags@.len() - i,
    {
        let pair = (m.tags[i].0.clone(), m.tags[i].1.clone());
        assert(pair == m.tags@[i as int]);
        tags.push(pair);
        proof {
            assert(m.tags@.take(i + 1) =~= m.tags@.take(i as int).push(m.tags@[i as int]));
        }
        i = i + 1;
    }
    proof {
        assert(m.tags@.take(m.tags@.len() as int) =~= m.tags@);
    }
    RuntimeMetadata {
        conversation_id: crate::text::clone_opt_string(&m.conversation_id),
        turn_id: crate::text::clone_opt_string(&m.turn_id),
        workspace_root: crate::text::clone_opt_string(&m.workspace_root),
        user_id: crate::text::clone_opt_string(&m.user_id),
        tags,
    }
}

/// Host-owned tool output returned on successful execution.
#[derive(Debug, Clone)]
pub struct HostToolOutput {
    /// Content blocks to surface back into the transcript.
    pub content: Vec<ContentBlock>,
    /// Optional structured details payload.
    pub details: Option<serde_json::Value>,
    /// Whether the tool completed with a semantic error result.
    pub is_error: bool,
}

/// Incremental update emitted while a host tool is still running.
#[derive(Debug, Clone)]
pub struct HostToolUpdate {
    /// Partial content emitted by the host tool.
    pub content: Vec<ContentBlock>,
    /// Optional structured details payload.
    pub details: Option<serde_json::Value>,
}

/// The result of a tool call as the agent loop receives it.
#[derive(Debug, Clone)]
pub struct ToolOutput {
    /// Content blocks of the result.
    pub content: Vec<ContentBlock>,
    /// Optional structured details payload.
    pub details: Option<serde_json::Value>,
    /// Whether the result is an error.
    pub is_error: bool,
}

/// Stable classification for host-routed tool failures.
#[derive(Debug, Clone, Copy, PartialEq, Eq, Structural)]
pub enum HostToolErrorKind {
    /// Host policy denied execution after the model requested the tool.
    Denied,
    /// Host transport/execution/serialization failed after acceptance.
    Failed,
}

/// Structured host-routed tool failure returned by adapters.
#[derive(Debug, Clone)]
pub struct HostToolError {
    kind: HostToolErrorKind,
    message: String,
    details: Option<serde_json::Value>,
}

/// The prefix of a failure's text in its tool result.
pub open spec fn error_prefix(kind: HostToolErrorKind) -> Seq<char> {
    match kind {
        HostToolErrorKind::Denied => "Denied"@,
        HostToolErrorKind::Failed => "Error"@,
    }
}

/// The key under which a tool result's details name the failure kind.
pub open spec fn error_kind_key() -> Seq<char> {
    "hostToolErrorKind"@
}

/// The key under which a tool result's details keep a non-object payload.
pub open spec fn error_details_key() -> Seq<char> {
    "hostToolDetails"@
}

impl HostToolError {
    /// The failure classification.
    pub closed spec fn spec_kind(&self) -> HostToolErrorKind {
        self.kind
    }

    /// The human-facing failure text.
    pub closed spec fn spec_message(&self) -> Seq<char> {
        self.message@
    }

    /// The structured details payload.
    pub closed spec fn spec_details(&self) -> Option<serde_json::Value> {
        self.details
    }

    /// Construct a policy-denied host tool failure.
    pub fn denied(message: String) -> (r: Self)
        ensures
            r.spec_kind() == HostToolErrorKind::Denied,
            r.spec_message() == message@,
            r.spec_details() is None,
    {
        HostToolError { kind: HostToolErrorKind::Denied, message, details: None }
    }

    /// Construct a policy-denied host tool failure with structured details.
    pub fn denied_with_details(message: String, details: serde_json::Value) -> (r: Self)
        ensures
            r.spec_kind() == HostToolErrorKind::Denied,
            r.spec_message() == message@,
            r.spec_details() == Some(details),
    {
        HostToolError { kind: HostToolErrorKind::Denied, message, details: Some(details) }
    }

    /// Construct a host execution failure.
    pub fn failed(message: String) -> (r: Self)
        ensures
            r.spec_kind() == HostToolErrorKind::Failed,
            r.spec_message() == message@,
            r.spec_details() is None,
    {
        HostToolError { kind: HostToolErrorKind::Failed, message, details: None }
    }

    /// Construct a host execution failure with structured details.
    pub fn failed_with_details(message: String, details: serde_json::Value) -> (r: Self)
        ensures
            r.spec_kind() == HostToolErrorKind::Failed,
            r.spec_message() == message@,
            r.spec_details() == Some(details),
    {
        HostToolError { kind: HostToolErrorKind::Failed, message, details: Some(details) }
    }

    /// Return the stable failure classification.
    pub fn kind(&self) -> (r: HostToolErrorKind)
        ensures
            r == self.spec_kind(),
    {
        self.kind
    }

    /// Return the human-facing failure message.
    pub fn message(&self) -> (r: &str)
        ensures
            r@ == self.spec_message(),
    {
        self.message.as_str()
    }

    /// Return the optional structured details payload.
    pub fn details(&self) -> (r: Option<&serde_json::Value>)
        ensures
            match self.spec_details() {
                Some(d) => r == Some(&d),
                None => r is None,
            },
    {
        match &self.details {
            Some(d) => Some(d),
            None => None,
        }
    }

    /// The text of the failure's tool result: its prefix, a colon, its message.
    pub open spec fn output_text(&self) -> Seq<char> {
        error_prefix(self.spec_kind()) + ": "@ + self.spec_message()
    }

    /// The details object of the failure's tool result: the failure's own
    /// details object, or an object holding a non-object payload under
    /// `hostToolDetails`, in either case with the failure kind under
    /// `hostToolErrorKind` unless the object already names one.
    pub fn error_details(&self) -> (m: serde_json::Map<String, serde_json::Value>)
        ensures
            split_details(self.spec_kind(), payload_split(self.spec_details()), m),
    {
        let split = match &self.details {
            Some(d) => Some(json_into_object(d.clone())),
            None => None,
        };
        error_details_with(self.kind, split)
    }

    /// The tool result that stands for this failure: one text block with the
    /// failure's text, the details object, and the error flag set.
    pub fn into_tool_output(self) -> (r: ToolOutput)
        ensures
            error_output(self, r),
    {
        let details = self.error_details();
        let text = match self.kind {
            HostToolErrorKind::Denied => String::from_str("Denied"),
            HostToolErrorKind::Failed => String::from_str("Error"),
        };
        let text = text.concat(": ");
        let text = text.concat(self.message.as_str());
        let content = vec![ContentBlock::Text { text }];
        proof {
            assert(blocks_view(content@) =~= seq![
                ContentBlockView::Text { text: self.output_text() },
            ]);
        }
        ToolOutput { content, details: Some(json_object(details)), is_error: true }
    }
}

/// The label under which a failure kind appears in tool-result details.
pub open spec fn kind_label(kind: HostToolErrorKind) -> Seq<char> {
    match kind {
        HostToolErrorKind::Denied => "denied"@,
        HostToolErrorKind::Failed => "failed"@,
    }
}

/// A details payload split into an object's map (`Ok`) or another JSON
/// value (`Err`), or no payload.
pub open spec fn payload_split(payload: Option<serde_json::Value>) -> Option<
    Result<serde_json::Map<String, serde_json::Value>, serde_json::Value>,
> {
    match payload {
        None => None,
        Some(d) => if json_value_is_object(d) {
            Some(Ok(json_object_map(d)))
        } else {
            Some(Err(d))
        },
    }
}

/// Whether `m` is the details object of a failure of `kind` whose payload
/// splits as `split`: no payload gives just the kind label; an object keeps
/// its entries and gains the kind label unless it already holds that key; a
/// non-object payload is kept under `hostToolDetails` beside the kind label.
pub open spec fn split_details(
    kind: HostToolErrorKind,
    split: Option<Result<serde_json::Map<String, serde_json::Value>, serde_json::Value>>,
    m: serde_json::Map<String, serde_json::Value>,
) -> bool {
    match split {
        None => {
            &&& json_map_keys(m) == set![error_kind_key()]
            &&& json_map_strings(m) == map![error_kind_key() => kind_label(kind)]
        },
        Some(Ok(own)) => if json_map_keys(own).contains(error_kind_key()) {
            m == own
        } else {
            &&& json_map_keys(m) == json_map_keys(own).insert(error_kind_key())
            &&& json_map_strings(m) == json_map_strings(own).insert(error_kind_key(), kind_label(kind))
            &&& json_map_values(m).remove(error_kind_key()) == json_map_values(own)
        },
        Some(Err(v)) => {
            &&& json_map_keys(m) == set![error_kind_key(), error_details_key()]
            &&& json_map_strings(m).remove(error_details_key()) == map![error_kind_key() => kind_label(kind)]
            &&& json_map_values(m).dom().contains(error_details_key())
            &&& json_map_values(m)[error_details_key()] == v
        },
    }
}

/// Whether `r` is the tool result that stands for the failure `e`.
pub open spec fn error_output(e: HostToolError, r: ToolOutput) -> bool {
    &&& r.is_error
    &&& blocks_view(r.content@) == seq![ContentBlockView::Text { text: e.output_text() }]
    &&& r.details matches Some(v) && json_value_is_object(v) && split_details(
        e.spec_kind(),
        payload_split(e.spec_details()),
        json_object_map(v),
    )
}

/// The details object of a failure of `kind`, given its payload split into
/// an object's map (`Ok`) or another JSON value (`Err`), or no payload at
/// all. The failure kind is added under `hostToolErrorKind` unless the
/// object already holds that key; a non-object payload is kept under
/// `hostToolDetails`.
pub fn error_details_with(
    kind: HostToolErrorKind,
    split: Option<Result<serde_json::Map<String, serde_json::Value>, serde_json::Value>>,
) -> (m: serde_json::Map<String, serde_json::Value>)
    ensures
        split_details(kind, split, m),
{
    let label = match kind {
        HostToolErrorKind::Denied => String::from_str("denied"),
        HostToolErrorKind::Failed => String::from_str("failed"),
    };
    match split {
        Some(Ok(map)) => {
            let mut map = map;
            if !json_map_contains_key(&map, "hostToolErrorKind") {
                let ghost own = map;
                json_map_insert_string(&mut map, String::from_str("hostToolErrorKind"), label);
                proof {
                    assert(json_map_values(own).remove(error_kind_key()) =~= json_map_values(own));
                }
            }
            map
        },
        Some(Err(other)) => {
            let mut map = json_map_new();
            json_map_insert_string(&mut map, String::from_str("hostToolErrorKind"), label);
            let ghost with_label = map;
            json_map_insert(&mut map, String::from_str("hostToolDetails"), other);
            proof {
                reveal_strlit("hostToolErrorKind");
                reveal_strlit("hostToolDetails");
                assert(error_kind_key().len() != error_details_key().len());
                assert(json_map_keys(map) =~= set![error_kind_key(), error_details_key()]);
                assert(json_map_strings(with_label) =~= map![error_kind_key() => kind_label(kind)]);
                assert(json_map_strings(with_label).remove(error_details_key()) =~= json_map_strings(
                    with_label,
                ));
            }
            map
        },
        None => {
            let mut map = json_map_new();
            json_map_insert_string(&mut map, String::from_str("hostToolErrorKind"), label);
            proof {
                assert(json_map_keys(map) =~= set![error_kind_key()]);
                assert(json_map_strings(map) =~= map![error_kind_key() => kind_label(kind)]);
            }
            map
        },
    }
}

/// The tool result for what a host tool returned: its output as is, or the
/// result that stands for its failure.
pub fn tool_output_from(result: Result<HostToolOutput, HostToolError>) -> (r: ToolOutput)
    ensures
        match result {
            Ok(output) => r.content == output.content && r.details == output.details && r.is_error
                == output.is_error,
            Err(error) => error_output(error, r),
        },
{
    match result {
        Ok(output) => ToolOutput {
            content: output.content,
            details: output.details,
            is_error: output.is_error,
        },
        Err(error) => error.into_tool_output(),
    }
}


/// The debug name of a tool kind.
pub open spec fn kind_name(kind: HostToolKind) -> Seq<char> {
    match kind {
        HostToolKind::Read => "Read"@,
        HostToolKind::Search => "Search"@,
        HostToolKind::List => "List"@,
        HostToolKind::Exec => "Exec"@,
        HostToolKind::Edit => "Edit"@,
        HostToolKind::Write => "Write"@,
    }
}

fn kind_name_str(kind: HostToolKind) -> (r: &'static str)
    ensures
        r@ == kind_name(kind),
{
    match kind {
        HostToolKind::Read => "Read",
        HostToolKind::Search => "Search",
        HostToolKind::List => "List",
        HostToolKind::Exec => "Exec",
        HostToolKind::Edit => "Edit",
        HostToolKind::Write => "Write",
    }
}

/// The operation named by definition failures.
pub open spec fn validate_operation() -> Seq<char> {
    "tool_bridge::validate_definition"@
}

/// The operation named by registry failures.
pub open spec fn registry_operation() -> Seq<char> {
    "tool_bridge::build_tool_registry"@
}

/// The failure of a tool definition, if any, given whether its parameters
/// are a JSON object: name, label and description must not be blank, and
/// the parameters must be an object schema.
pub open spec fn definition_failure(
    name: Seq<char>,
    label: Seq<char>,
    description: Seq<char>,
    kind: HostToolKind,
    parameters_is_object: bool,
) -> Option<Seq<char>> {
    if trim_seq(name).len() == 0 {
        Some("host tool definition for "@ + kind_name(kind) + " is missing a name"@)
    } else if trim_seq(label).len() == 0 {
        Some("host tool '"@ + name + "' is missing a label"@)
    } else if trim_seq(description).len() == 0 {
        Some("host tool '"@ + name + "' is missing a description"@)
    } else if !parameters_is_object {
        Some("host tool '"@ + name + "' parameters must be a JSON object schema"@)
    } else {
        None
    }
}

/// Check a tool definition, given whether its parameters are a JSON object.
pub fn validate_definition_fields(
    definition: &HostToolDefinition,
    kind: HostToolKind,
    parameters_is_object: bool,
) -> (r: Result<(), EmbedError>)
    ensures
        match definition_failure(
            definition.name@,
            definition.label@,
            definition.description@,
            kind,
            parameters_is_object,
        ) {
            None => r is Ok,
            Some(m) => r is Err && r->Err_0.is_config_error(validate_operation(), m),
        },
{
    if str_trim(definition.name.as_str()).is_empty() {
        let m = String::from_str("host tool definition for ");
        let m = m.concat(kind_name_str(kind));
        let m = m.concat(" is missing a name");
        return Err(EmbedError::config("tool_bridge::validate_definition", m));
    }
    if str_trim(definition.label.as_str()).is_empty() {
        let m = String::from_str("host tool '");
        let m = m.concat(definition.name.as_str());
        let m = m.concat("' is missing a label");
        return Err(EmbedError::config("tool_bridge::validate_definition", m));
    }
    if str_trim(definition.description.as_str()).is_empty() {
        let m = String::from_str("host tool '");
        let m = m.concat(definition.name.as_str());
        let m = m.concat("' is missing a description");
        return Err(EmbedError::config("tool_bridge::validate_definition", m));
    }
    if !parameters_is_object {
        let m = String::from_str("host tool '");
        let m = m.concat(definition.name.as_str());
        let m = m.concat("' parameters must be a JSON object schema");
        return Err(EmbedError::config("tool_bridge::validate_definition", m));
    }
    Ok(())
}

/// Check a tool definition: its name, label and description must not be
/// blank and its parameters must be a JSON object.
pub fn validate_definition(definition: &HostToolDefinition, kind: HostToolKind) -> (r: Result<
    (),
    EmbedError,
>)
    ensures
        match definition_failure(
            definition.name@,
            definition.label@,
            definition.description@,
            kind,
            json_value_is_object(definition.parameters),
        ) {
            None => r is Ok,
            Some(m) => r is Err && r->Err_0.is_config_error(validate_operation(), m),
        },
{
    let is_object = json_is_object(&definition.parameters);
    let r = validate_definition_fields(definition, kind, is_object);
    assert(match definition_failure(
        definition.name@,
        definition.label@,
        definition.description@,
        kind,
        is_object,
    ) {
        None => r is Ok,
        Some(m) => r is Err && r->Err_0.is_config_error(validate_operation(), m),
    });
    r
}

/// A tool offered for a turn: its capability kind and definition.
pub type OfferedTool = (HostToolKind, HostToolDefinition);

/// The names of the tools exposed among the first `n` offered tools.
pub open spec fn exposed_names(tools: Seq<OfferedTool>, exposed: Seq<int>) -> Seq<Seq<char>> {
    exposed.map_values(|i: int| tools[i].1.name@)
}

/// The registry plan over the first `n` offered tools: the indices of the
/// tools exposed, in order, or the configuration failure. A tool that the
/// policy does not allow is skipped before it is checked; an allowed tool
/// must pass `definition_failure` (with `objects[i]` telling whether its
/// parameters are an object) and must not repeat the name of an exposed one.
pub open spec fn registry_plan_prefix(
    policy: ToolPolicy,
    tools: Seq<OfferedTool>,
    objects: Seq<bool>,
    n: nat,
) -> Result<Seq<int>, (Seq<char>, Seq<char>)>
    decreases n,
{
    if n == 0 {
        Ok(Seq::empty())
    } else {
        match registry_plan_prefix(policy, tools, objects, (n - 1) as nat) {
            Err(e) => Err(e),
            Ok(exposed) => {
                let i = n - 1;
                let (kind, def) = tools[i];
                if !policy.spec_allows(kind) {
                    Ok(exposed)
                } else {
                    match definition_failure(
                        def.name@,
                        def.label@,
                        def.description@,
                        kind,
                        objects[i],
                    ) {
                        Some(m) => Err((validate_operation(), m)),
                        None => if exposed_names(tools, exposed).contains(def.name@) {
                            Err(
                                (
                                    registry_operation(),
                                    "duplicate host tool name '"@ + def.name@ + "'"@,
                                ),
                            )
                        } else {
                            Ok(exposed.push(i))
                        },
                    }
                }
            },
        }
    }
}

/// The registry plan over all offered tools.
pub open spec fn registry_plan(policy: ToolPolicy, tools: Seq<OfferedTool>, objects: Seq<bool>) -> Result<
    Seq<int>,
    (Seq<char>, Seq<char>),
> {
    registry_plan_prefix(policy, tools, objects, tools.len())
}

/// Whether a plan outcome is what a function returned.
pub open spec fn plan_outcome_matches(
    r: Result<Vec<usize>, EmbedError>,
    plan: Result<Seq<int>, (Seq<char>, Seq<char>)>,
) -> bool {
    match plan {
        Ok(exposed) => r is Ok && r->Ok_0@.map_values(|i: usize| i as int) == exposed,
        Err((op, m)) => r is Err && r->Err_0.is_config_error(op, m),
    }
}

/// A failed plan stays failed on every longer prefix.
proof fn lemma_plan_error_persists(
    policy: ToolPolicy,
    tools: Seq<OfferedTool>,
    objects: Seq<bool>,
    n: nat,
    m: nat,
)
    requires
        n <= m,
        registry_plan_prefix(policy, tools, objects, n) is Err,
    ensures
        registry_plan_prefix(policy, tools, objects, m) == registry_plan_prefix(
            policy,
            tools,
            objects,
            n,
        ),
    decreases m - n,
{
    if n < m {
        lemma_plan_error_persists(policy, tools, objects, n, (m - 1) as nat);
    }
}

/// Whether a name is among the names of the exposed tools.
fn exposed_name_taken(tools: &Vec<OfferedTool>, exposed: &Vec<usize>, name: &String) -> (r: bool)
    requires
        forall|k: int| 0 <= k < exposed@.len() ==> exposed@[k] < tools@.len(),
    ensures
        r == exposed_names(tools@, exposed@.map_values(|i: usize| i as int)).contains(name@),
{
    let ghost names = exposed_names(tools@, exposed@.map_values(|i: usize| i as int));
    let mut k: usize = 0;
    while k < exposed.len()
        invariant
            k <= exposed@.len(),
            names == exposed_names(tools@, exposed@.map_values(|i: usize| i as int)),
            forall|j: int| 0 <= j < exposed@.len() ==> exposed@[j] < tools@.len(),
            forall|j: int| 0 <= j < k ==> names[j] != name@,
        decreases exposed@.len() - k,
    {
        if tools[exposed[k]].1.name == *name {
            proof {
                assert(names[k as int] == name@);
            }
            return true;
        }
        k = k + 1;
    }
    proof {
        if names.contains(name@) {
            let j = choose|j: int| 0 <= j < names.len() && names[j] == name@;
            assert(names[j] != name@);
        }
    }
    false
}

/// Decide which offered tools a turn exposes, given whether each tool's
/// parameters are a JSON object (`parameters_are_objects[i]`).
pub fn plan_tool_registry_with(
    policy: &ToolPolicy,
    tools: &Vec<OfferedTool>,
    parameters_are_objects: &Vec<bool>,
) -> (r: Result<Vec<usize>, EmbedError>)
    requires
        parameters_are_objects@.len() == tools@.len(),
    ensures
        plan_outcome_matches(r, registry_plan(*policy, tools@, parameters_are_objects@)),
{
    let mut exposed: Vec<usize> = Vec::new();
    let mut i: usize = 0;
    proof {
        assert(exposed@.map_values(|j: usize| j as int) =~= Seq::<int>::empty());
    }
    while i < tools.len()
        invariant
            i <= tools@.len(),
            parameters_are_objects@.len() == tools@.len(),
            forall|k: int| 0 <= k < exposed@.len() ==> exposed@[k] < i,
            registry_plan_prefix(*policy, tools@, parameters_are_objects@, i as nat) == Ok::<
                Seq<int>,
                (Seq<char>, Seq<char>),
            >(exposed@.map_values(|j: usize| j as int)),
        decreases tools@.len() - i,
    {
        let kind = tools[i].0;
        if policy.allows(kind) {
            match validate_definition_fields(&tools[i].1, kind, parameters_are_objects[i]) {
                Err(e) => {
                    proof {
                        lemma_plan_error_persists(
                            *policy,
                            tools@,
                            parameters_are_objects@,
                            (i + 1) as nat,
                            tools@.len() as nat,
                        );
                    }
                    return Err(e);
                },
                Ok(()) => {},
            }
            if exposed_name_taken(tools, &exposed, &tools[i].1.name) {
                let m = String::from_str("duplicate host tool name '");
                let m = m.concat(tools[i].1.name.as_str());
                let m = m.concat("'");
                proof {
                    lemma_plan_error_persists(
                        *policy,
                        tools@,
                        parameters_are_objects@,
                        (i + 1) as nat,
                        tools@.len() as nat,
                    );
                }
                return Err(EmbedError::config("tool_bridge::build_tool_registry", m));
            }
            let ghost before = exposed@;
            exposed.push(i);
            proof {
                assert(exposed@.map_values(|j: usize| j as int) =~= before.map_values(
                    |j: usize| j as int,
                ).push(i as int));
            }
        }
        i = i + 1;
    }
    Ok(exposed)
}

/// Whether each offered tool's parameters are a JSON object.
pub open spec fn parameters_objects(tools: Seq<OfferedTool>) -> Seq<bool> {
    Seq::new(tools.len(), |i: int| json_value_is_object(tools[i].1.parameters))
}

/// Decide which offered tools a turn exposes: the registry plan, with each
/// tool's parameters checked to be a JSON object.
pub fn plan_tool_registry(policy: &ToolPolicy, tools: &Vec<OfferedTool>) -> (r: Result<
    Vec<usize>,
    EmbedError,
>)
    ensures
        plan_outcome_matches(r, registry_plan(*policy, tools@, parameters_objects(tools@))),
{
    let mut objects: Vec<bool> = Vec::new();
    let mut i: usize = 0;
    while i < tools.len()
        invariant
            i <= tools@.len(),
            objects@ == parameters_objects(tools@).take(i as int),
        decreases tools@.len() - i,
    {
        objects.push(json_is_object(&tools[i].1.parameters));
        proof {
            assert(objects@ =~= parameters_objects(tools@).take(i + 1));
        }
        i = i + 1;
    }
    proof {
        assert(objects@ =~= parameters_objects(tools@));
    }
    let r = plan_tool_registry_with(policy, tools, &objects);
    r
}


/// The plan over a prefix exposes exactly the allowed tools of the prefix,
/// in order, with distinct names.
proof fn lemma_plan_prefix_shape(
    policy: ToolPolicy,
    tools: Seq<OfferedTool>,
    objects: Seq<bool>,
    n: nat,
)
    requires
        n <= tools.len(),
        registry_plan_prefix(policy, tools, objects, n) is Ok,
    ensures
        ({
            let exposed = registry_plan_prefix(policy, tools, objects, n)->Ok_0;
            &&& forall|k: int| 0 <= k < exposed.len() ==> 0 <= #[trigger] exposed[k] < n
            &&& forall|a: int, b: int| 0 <= a < b < exposed.len() ==> exposed[a] < exposed[b]
            &&& forall|i: int|
                0 <= i < n ==> (exposed.contains(i) <==> policy.spec_allows(#[trigger] tools[i].0))
            &&& forall|a: int, b: int|
                0 <= a < b < exposed.len() ==> tools[exposed[a]].1.name@ != tools[exposed[b]].1.name@
        }),
    decreases n,
{
    if n > 0 {
        let prev = registry_plan_prefix(policy, tools, objects, (n - 1) as nat);
        lemma_plan_prefix_shape(policy, tools, objects, (n - 1) as nat);
        let exposed_prev = prev->Ok_0;
        let exposed = registry_plan_prefix(policy, tools, objects, n)->Ok_0;
        let i = n - 1;
        if policy.spec_allows(tools[i].0) {
            assert(exposed == exposed_prev.push(i));
            assert forall|j: int| 0 <= j < n implies (exposed.contains(j) <==> policy.spec_allows(
                #[trigger] tools[j].0,
            )) by {
                if j < i {
                    if exposed.contains(j) {
                        let k = choose|k: int| 0 <= k < exposed.len() && exposed[k] == j;
                        if k < exposed_prev.len() {
                            assert(exposed_prev[k] == j);
                        }
                    }
                    if exposed_prev.contains(j) {
                        let k = choose|k: int| 0 <= k < exposed_prev.len() && exposed_prev[k] == j;
                        assert(exposed[k] == j);
                    }
                } else {
                    assert(exposed[exposed.len() - 1] == j);
                }
            }
            assert forall|a: int, b: int|
                0 <= a < b < exposed.len() implies tools[exposed[a]].1.name@
                != tools[exposed[b]].1.name@ by {
                if b == exposed.len() - 1 {
                    assert(exposed_names(tools, exposed_prev)[a] == tools[exposed[a]].1.name@);
                } else {
                    assert(exposed[a] == exposed_prev[a]);
                    assert(exposed[b] == exposed_prev[b]);
                }
            }
        } else {
            assert forall|j: int| 0 <= j < n implies (exposed.contains(j) <==> policy.spec_allows(
                #[trigger] tools[j].0,
            )) by {
                if j == i && exposed.contains(j) {
                    let k = choose|k: int| 0 <= k < exposed.len() && exposed[k] == j;
                    assert(exposed[k] < i);
                }
            }
        }
    }
}

/// Policy filtering decides what the model sees: a successful registry plan
/// exposes every offered tool that the policy allows and no other, in the
/// order offered, and no two exposed tools share a name.
pub proof fn lemma_registry_exposes_exactly_allowed_tools(
    policy: ToolPolicy,
    tools: Seq<OfferedTool>,
    objects: Seq<bool>,
)
    ensures
        registry_plan(policy, tools, objects) is Ok ==> {
            let exposed = registry_plan(policy, tools, objects)->Ok_0;
            &&& forall|a: int, b: int| 0 <= a < b < exposed.len() ==> exposed[a] < exposed[b]
            &&& forall|i: int|
                0 <= i < tools.len() ==> (exposed.contains(i) <==> policy.spec_allows(
                    #[trigger] tools[i].0,
                ))
            &&& forall|a: int, b: int|
                0 <= a < b < exposed.len() ==> tools[exposed[a]].1.name@ != tools[exposed[b]].1.name@
        },
{
    if registry_plan(policy, tools, objects) is Ok {
        lemma_plan_prefix_shape(policy, tools, objects, tools.len());
    }
}

/// An allowed tool with an invalid definition makes the plan fail: its
/// configuration failure, or one found before it, is reported.
pub proof fn lemma_allowed_invalid_tool_fails_plan(
    policy: ToolPolicy,
    tools: Seq<OfferedTool>,
    objects: Seq<bool>,
    i: int,
)
    requires
        0 <= i < tools.len(),
        objects.len() == tools.len(),
        policy.spec_allows(tools[i].0),
        definition_failure(
            tools[i].1.name@,
            tools[i].1.label@,
            tools[i].1.description@,
            tools[i].0,
            objects[i],
        ) is Some,
    ensures
        registry_plan(policy, tools, objects) is Err,
{
    assert(registry_plan_prefix(policy, tools, objects, (i + 1) as nat) is Err);
    lemma_plan_error_persists(policy, tools, objects, (i + 1) as nat, tools.len());
}

/// Two allowed tools of the same name make the plan fail.
pub proof fn lemma_allowed_duplicate_names_fail_plan(
    policy: ToolPolicy,
    tools: Seq<OfferedTool>,
    objects: Seq<bool>,
    i: int,
    j: int,
)
    requires
        0 <= i < j < tools.len(),
        objects.len() == tools.len(),
        policy.spec_allows(tools[i].0),
        policy.spec_allows(tools[j].0),
        tools[i].1.name@ == tools[j].1.name@,
    ensures
        registry_plan(policy, tools, objects) is Err,
{
    if registry_plan_prefix(policy, tools, objects, j as nat) is Err {
        lemma_plan_error_persists(policy, tools, objects, j as nat, tools.len());
    } else {
        lemma_plan_prefix_shape(policy, tools, objects, j as nat);
        let exposed = registry_plan_prefix(policy, tools, objects, j as nat)->Ok_0;
        assert(exposed.contains(i));
        let idx = choose|idx: int| 0 <= idx < exposed.len() && exposed[idx] == i;
        assert(exposed_names(tools, exposed)[idx] == tools[j].1.name@);
        assert(exposed_names(tools, exposed).contains(tools[j].1.name@));
        assert(registry_plan_prefix(policy, tools, objects, (j + 1) as nat) is Err);
        lemma_plan_error_persists(policy, tools, objects, (j + 1) as nat, tools.len());
    }
}

/// The plans over the first `n` tools agree when the two offers differ only
/// in the definition and object answer of a tool that the policy does not
/// allow.
proof fn lemma_disallowed_prefix_unchanged(
    policy: ToolPolicy,
    tools: Seq<OfferedTool>,
    objects: Seq<bool>,
    tools2: Seq<OfferedTool>,
    objects2: Seq<bool>,
    i: int,
    n: nat,
)
    requires
        0 <= i < tools.len(),
        n <= tools.len(),
        tools2.len() == tools.len(),
        !policy.spec_allows(tools[i].0),
        tools2[i].0 == tools[i].0,
        forall|j: int| 0 <= j < tools.len() && j != i ==> tools2[j] == tools[j] && objects2[j]
            == objects[j],
    ensures
        registry_plan_prefix(policy, tools2, objects2, n) == registry_plan_prefix(
            policy,
            tools,
            objects,
            n,
        ),
    decreases n,
{
    if n > 0 {
        let m = (n - 1) as nat;
        lemma_disallowed_prefix_unchanged(policy, tools, objects, tools2, objects2, i, m);
        if registry_plan_prefix(policy, tools, objects, m) is Ok && m != i {
            lemma_plan_prefix_shape(policy, tools, objects, m);
            let exposed = registry_plan_prefix(policy, tools, objects, m)->Ok_0;
            assert(exposed_names(tools2, exposed) =~= exposed_names(tools, exposed)) by {
                assert forall|k: int| 0 <= k < exposed.len() implies exposed_names(tools2, exposed)[k]
                    == exposed_names(tools, exposed)[k] by {
                    let idx = exposed[k];
                    assert(0 <= idx < m);
                    if idx == i {
                        assert(exposed.contains(i));
                    }
                }
            }
            assert(tools2[m as int] == tools[m as int]);
        }
    }
}

/// A tool that the policy does not allow is never checked: whatever its
/// definition and whether or not its parameters are an object, the plan is
/// the same, so a disallowed invalid tool never makes the plan fail.
pub proof fn lemma_disallowed_tools_never_checked(
    policy: ToolPolicy,
    tools: Seq<OfferedTool>,
    objects: Seq<bool>,
    i: int,
    definition: HostToolDefinition,
    is_object: bool,
)
    requires
        0 <= i < tools.len(),
        objects.len() == tools.len(),
        !policy.spec_allows(tools[i].0),
    ensures
        registry_plan(
            policy,
            tools.update(i, (tools[i].0, definition)),
            objects.update(i, is_object),
        ) == registry_plan(policy, tools, objects),
{
    lemma_disallowed_prefix_unchanged(
        policy,
        tools,
        objects,
        tools.update(i, (tools[i].0, definition)),
        objects.update(i, is_object),
        i,
        tools.len(),
    );
}

/// A definition passes its checks exactly when its trimmed name, label and
/// description are all non-blank and its parameters are a JSON object.
pub proof fn lemma_definition_checks(
    name: Seq<char>,
    label: Seq<char>,
    description: Seq<char>,
    kind: HostToolKind,
    parameters_is_object: bool,
)
    ensures
        definition_failure(name, label, description, kind, parameters_is_object) is None <==> {
            &&& trim_seq(name).len() > 0
            &&& trim_seq(label).len() > 0
            &&& trim_seq(description).len() > 0
            &&& parameters_is_object
        },
{
}

/// Whether an offered tool passes its definition checks.
pub open spec fn definition_passes(tools: Seq<OfferedTool>, objects: Seq<bool>, i: int) -> bool {
    definition_failure(
        tools[i].1.name@,
        tools[i].1.label@,
        tools[i].1.description@,
        tools[i].0,
        objects[i],
    ) is None
}

/// Every tool exposed by a plan over a prefix passed its definition checks.
proof fn lemma_plan_prefix_checked(
    policy: ToolPolicy,
    tools: Seq<OfferedTool>,
    objects: Seq<bool>,
    n: nat,
)
    requires
        n <= tools.len(),
        registry_plan_prefix(policy, tools, objects, n) is Ok,
    ensures
        forall|k: int|
            0 <= k < registry_plan_prefix(policy, tools, objects, n)->Ok_0.len()
                ==> definition_passes(
                tools,
                objects,
                #[trigger] registry_plan_prefix(policy, tools, objects, n)->Ok_0[k],
            ),
    decreases n,
{
    if n > 0 {
        let m = (n - 1) as nat;
        lemma_plan_prefix_checked(policy, tools, objects, m);
        let before = registry_plan_prefix(policy, tools, objects, m)->Ok_0;
        let after = registry_plan_prefix(policy, tools, objects, n)->Ok_0;
        assert forall|k: int| 0 <= k < after.len() implies definition_passes(
            tools,
            objects,
            #[trigger] after[k],
        ) by {
            if k < before.len() {
                assert(after[k] == before[k]);
            }
        }
    }
}

/// A successful registry plan exposes only tools whose trimmed name, label
/// and description are non-blank and whose parameters are a JSON object.
pub proof fn lemma_exposed_tools_are_complete(
    policy: ToolPolicy,
    tools: Seq<OfferedTool>,
    objects: Seq<bool>,
)
    ensures
        registry_plan(policy, tools, objects) is Ok ==> forall|k: int|
            0 <= k < registry_plan(policy, tools, objects)->Ok_0.len() ==> {
                let i = #[trigger] registry_plan(policy, tools, objects)->Ok_0[k];
                &&& trim_seq(tools[i].1.name@).len() > 0
                &&& trim_seq(tools[i].1.label@).len() > 0
                &&& trim_seq(tools[i].1.description@).len() > 0
                &&& objects[i]
            },
{
    if registry_plan(policy, tools, objects) is Ok {
        lemma_plan_prefix_checked(policy, tools, objects, tools.len());
        let exposed = registry_plan(policy, tools, objects)->Ok_0;
        assert forall|k: int| 0 <= k < exposed.len() implies {
            let i = #[trigger] exposed[k];
            &&& trim_seq(tools[i].1.name@).len() > 0
            &&& trim_seq(tools[i].1.label@).len() > 0
            &&& trim_seq(tools[i].1.description@).len() > 0
            &&& objects[i]
        } by {
            let i = exposed[k];
            assert(definition_passes(tools, objects, i));
            lemma_definition_checks(
                tools[i].1.name@,
                tools[i].1.label@,
                tools[i].1.description@,
                tools[i].0,
                objects[i],
            );
        }
    }
}

} // verus!
