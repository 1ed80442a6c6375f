//! Transcript reconstruction: host-owned transcript entries become the
//! runtime's message history, with tool calls and tool results checked to
//! replay in order.

use vstd::prelude::*;
use crate::encoding::{base64_encode, base64_standard};
use crate::errors::EmbedError;
use crate::model::{
    ContentBlock, ContentBlockView, Message, MessageView, StopReason, UserContent,
    UserContentView, blocks_view, messages_view,
};
use crate::text::{join_strings, seq_join, str_trim, strings_view, trim_seq};
use crate::types::{
    HistoryConversionResult, HistoryWarning, HistoryWarningKind, HistoryWarningView,
    HostContentBlock, HostContentBlockView, HostTranscriptEntry, HostTranscriptEntryView,
    HostTranscriptRole, transcript_view, warnings_view,
};

verus! {

// ---------------------------------------------------------------------------
// Specification
// ---------------------------------------------------------------------------

/// A tool call of the current batch: its identifier and tool name.
pub type CallRef = (Seq<char>, Seq<char>);

/// The role under which a transcript entry's blocks are converted.
#[derive(Debug, Clone, Copy, PartialEq, Eq, Structural)]
pub enum TranscriptRole {
    User,
    Assistant,
    ToolResult,
}

/// The debug name of a transcript role.
pub open spec fn role_name(role: HostTranscriptRole) -> Seq<char> {
    match role {
        HostTranscriptRole::User => "User"@,
        HostTranscriptRole::Assistant => "Assistant"@,
        HostTranscriptRole::ToolResult => "ToolResult"@,
        HostTranscriptRole::Custom => "Custom"@,
    }
}

/// A failure message placed in the context of its entry: by message id when
/// the entry has one, by role otherwise.
pub open spec fn entry_context(e: HostTranscriptEntryView, message: Seq<char>) -> Seq<char> {
    match e.message_id {
        Some(mid) => "message_id "@ + mid + ": "@ + message,
        None => "role "@ + role_name(e.role) + ": "@ + message,
    }
}

/// The identifiers of a sequence of tool calls.
pub open spec fn call_ids(calls: Seq<CallRef>) -> Seq<Seq<char>> {
    calls.map_values(|c: CallRef| c.0)
}

/// The identifiers of unresolved tool calls, as listed in failure messages.
pub open spec fn unresolved_list(calls: Seq<CallRef>) -> Seq<char> {
    seq_join(call_ids(calls), ", "@)
}

/// The failure for a non-tool entry met while tool calls remain unresolved.
pub open spec fn unresolved_message(e: HostTranscriptEntryView, pending: Seq<CallRef>) -> Seq<
    char,
> {
    entry_context(
        e,
        "encountered "@ + role_name(e.role)
            + " transcript entry while assistant tool_call_id(s) remain unresolved: "@
            + unresolved_list(pending),
    )
}

/// The failure for a transcript that ends while tool calls remain unresolved.
pub open spec fn ended_unresolved_message(pending: Seq<CallRef>) -> Seq<char> {
    "transcript ended with unresolved assistant tool_call_id(s): "@ + unresolved_list(pending)
}

/// How an entry is named in warnings.
pub open spec fn message_id_label(e: HostTranscriptEntryView) -> Seq<char> {
    match e.message_id {
        Some(mid) => mid,
        None => "<unknown>"@,
    }
}

/// The warning for an entry whose content converted to nothing.
pub open spec fn empty_content_warning(e: HostTranscriptEntryView) -> HistoryWarningView {
    HistoryWarningView {
        kind: HistoryWarningKind::CustomContentBlockDropped,
        message_id: e.message_id,
        detail: "Transcript entry '"@ + message_id_label(e)
            + "' reconstructed to an empty content list"@,
    }
}

/// The warning for a non-text block dropped from a custom entry.
pub open spec fn dropped_block_warning(e: HostTranscriptEntryView) -> HistoryWarningView {
    HistoryWarningView {
        kind: HistoryWarningKind::CustomContentBlockDropped,
        message_id: e.message_id,
        detail: "Dropped non-text custom content block while reconstructing message '"@
            + message_id_label(e) + "'"@,
    }
}

/// Converts one host block under a role.
pub open spec fn convert_block(
    e: HostTranscriptEntryView,
    role: TranscriptRole,
    b: HostContentBlockView,
) -> Result<ContentBlockView, Seq<char>> {
    match b {
        HostContentBlockView::Text { text } => Ok(ContentBlockView::Text { text }),
        HostContentBlockView::Image { mime_type, data } => Ok(
            ContentBlockView::Image { data: base64_standard(data), mime_type },
        ),
        HostContentBlockView::Thinking { text } => Ok(ContentBlockView::Thinking { thinking: text }),
        HostContentBlockView::ToolCall { tool_call_id, tool_name, arguments } => {
            if role != TranscriptRole::Assistant {
                Err(
                    entry_context(
                        e,
                        "tool call blocks are only valid inside assistant transcript entries"@,
                    ),
                )
            } else if trim_seq(tool_call_id).len() == 0 {
                Err(entry_context(e, "assistant tool call block is missing tool_call_id"@))
            } else if trim_seq(tool_name).len() == 0 {
                Err(entry_context(e, "assistant tool call block is missing tool_name"@))
            } else {
                Ok(
                    ContentBlockView::ToolCall {
                        id: trim_seq(tool_call_id),
                        name: trim_seq(tool_name),
                        arguments,
                    },
                )
            }
        },
    }
}

/// Converts the first `n` blocks of an entry, stopping at the first failure.
pub open spec fn convert_blocks_prefix(
    e: HostTranscriptEntryView,
    role: TranscriptRole,
    n: nat,
) -> Result<Seq<ContentBlockView>, Seq<char>>
    decreases n,
{
    if n == 0 {
        Ok(Seq::empty())
    } else {
        match convert_blocks_prefix(e, role, (n - 1) as nat) {
            Err(m) => Err(m),
            Ok(blocks) => match convert_block(e, role, e.content[n - 1]) {
                Err(m) => Err(m),
                Ok(b) => Ok(blocks.push(b)),
            },
        }
    }
}

/// Converts all blocks of an entry.
pub open spec fn convert_blocks_spec(e: HostTranscriptEntryView, role: TranscriptRole) -> Result<
    Seq<ContentBlockView>,
    Seq<char>,
> {
    convert_blocks_prefix(e, role, e.content.len())
}

/// The warnings produced by converting a user or assistant entry.
pub open spec fn conversion_warnings(
    e: HostTranscriptEntryView,
    role: TranscriptRole,
    blocks: Seq<ContentBlockView>,
) -> Seq<HistoryWarningView> {
    if blocks.len() == 0 && role != TranscriptRole::ToolResult {
        seq![empty_content_warning(e)]
    } else {
        Seq::empty()
    }
}

/// The tool calls among converted blocks, in order.
pub open spec fn tool_calls_in(blocks: Seq<ContentBlockView>) -> Seq<CallRef>
    decreases blocks.len(),
{
    if blocks.len() == 0 {
        Seq::empty()
    } else {
        let rest = tool_calls_in(blocks.drop_last());
        match blocks.last() {
            ContentBlockView::ToolCall { id, name, .. } => rest.push((id, name)),
            _ => rest,
        }
    }
}

/// The identifier of the first tool call that repeats an earlier one.
pub open spec fn first_duplicate_id(calls: Seq<CallRef>) -> Option<Seq<char>>
    decreases calls.len(),
{
    if calls.len() == 0 {
        None
    } else {
        match first_duplicate_id(calls.drop_last()) {
            Some(d) => Some(d),
            None => if call_ids(calls.drop_last()).contains(calls.last().0) {
                Some(calls.last().0)
            } else {
                None
            },
        }
    }
}

/// The name recorded for a tool call identifier in the current batch.
pub open spec fn find_call(calls: Seq<CallRef>, id: Seq<char>) -> Option<Seq<char>>
    decreases calls.len(),
{
    if calls.len() == 0 {
        None
    } else if calls[0].0 == id {
        Some(calls[0].1)
    } else {
        find_call(calls.drop_first(), id)
    }
}

/// The content of a reconstructed user message: a lone text block becomes
/// plain text.
pub open spec fn user_content_of(blocks: Seq<ContentBlockView>) -> UserContentView {
    if blocks.len() == 1 && blocks[0] is Text {
        UserContentView::Text(blocks[0]->Text_text)
    } else {
        UserContentView::Blocks(blocks)
    }
}

/// The stop reason of a reconstructed assistant message.
pub open spec fn assistant_stop_reason(blocks: Seq<ContentBlockView>, is_error: bool) -> StopReason {
    if tool_calls_in(blocks).len() > 0 {
        StopReason::ToolUse
    } else if is_error {
        StopReason::Error
    } else {
        StopReason::Stop
    }
}

/// The error text of a reconstructed assistant message.
pub open spec fn assistant_error_message(is_error: bool) -> Option<Seq<char>> {
    if is_error {
        Some("host transcript marked reconstructed assistant message as error"@)
    } else {
        None
    }
}

/// The timestamp of a reconstructed message.
pub open spec fn timestamp_of(e: HostTranscriptEntryView) -> i64 {
    match e.timestamp_ms {
        Some(t) => t,
        None => 0,
    }
}

/// The texts among the first `n` blocks of a custom entry.
pub open spec fn custom_texts(content: Seq<HostContentBlockView>, n: nat) -> Seq<Seq<char>>
    decreases n,
{
    if n == 0 {
        Seq::empty()
    } else {
        let rest = custom_texts(content, (n - 1) as nat);
        match content[n - 1] {
            HostContentBlockView::Text { text } => rest.push(text),
            _ => rest,
        }
    }
}

/// One warning for each non-text block among the first `n` blocks of a custom entry.
pub open spec fn custom_warnings(e: HostTranscriptEntryView, n: nat) -> Seq<HistoryWarningView>
    decreases n,
{
    if n == 0 {
        Seq::empty()
    } else {
        let rest = custom_warnings(e, (n - 1) as nat);
        match e.content[n - 1] {
            HostContentBlockView::Text { .. } => rest,
            _ => rest.push(dropped_block_warning(e)),
        }
    }
}

/// The state of reconstruction between entries.
pub struct HistoryState {
    /// Messages reconstructed so far.
    pub messages: Seq<MessageView>,
    /// Warnings raised so far.
    pub warnings: Seq<HistoryWarningView>,
    /// The tool calls of the current batch.
    pub active: Seq<CallRef>,
    /// The tool calls of the batch still awaiting a result, in replay order.
    pub pending: Seq<CallRef>,
    /// The identifiers of the batch's tool calls that have a result.
    pub completed: Seq<Seq<char>>,
}

/// The state before any entry.
pub open spec fn initial_history_state() -> HistoryState {
    HistoryState {
        messages: Seq::empty(),
        warnings: Seq::empty(),
        active: Seq::empty(),
        pending: Seq::empty(),
        completed: Seq::empty(),
    }
}

/// The failure text for a result whose tool call is already resolved.
pub open spec fn duplicate_result_message(id: Seq<char>) -> Seq<char> {
    "duplicate tool result for tool_call_id '"@ + id + "'"@
}

/// The failure text for a result whose tool call is unknown.
pub open spec fn unknown_result_message(id: Seq<char>) -> Seq<char> {
    "tool result references unknown tool_call_id '"@ + id + "'"@
}

/// The failure text for a result that arrives when nothing is pending.
pub open spec fn nothing_pending_message(id: Seq<char>) -> Seq<char> {
    "tool result for tool_call_id '"@ + id
        + "' is out of order; all assistant tool calls must be resolved before the next non-tool transcript entry"@
}

/// The failure text for a result that is not the next one expected.
pub open spec fn out_of_order_message(id: Seq<char>, expected: Seq<char>) -> Seq<char> {
    "tool result for tool_call_id '"@ + id + "' is out of order; expected '"@ + expected
        + "' next to match the assistant tool-call replay order"@
}

/// The failure text for a result whose tool name differs from its call.
pub open spec fn assistant_name_mismatch_message(name: Seq<char>, expected: Seq<char>) -> Seq<char> {
    "tool result tool_name '"@ + name + "' does not match assistant tool call '"@ + expected + "'"@
}

/// The failure text for a result whose tool name differs from the pending call.
pub open spec fn pending_name_mismatch_message(name: Seq<char>, expected: Seq<char>) -> Seq<char> {
    "tool result tool_name '"@ + name + "' does not match pending assistant tool call '"@
        + expected + "'"@
}

/// The failure text for a repeated tool call identifier in assistant history.
pub open spec fn duplicate_call_message(id: Seq<char>) -> Seq<char> {
    "duplicate tool_call_id '"@ + id + "' in assistant history"@
}

/// Reconstruction of one user entry.
pub open spec fn user_step(st: HistoryState, e: HostTranscriptEntryView) -> Result<
    HistoryState,
    Seq<char>,
> {
    if st.pending.len() > 0 {
        Err(unresolved_message(e, st.pending))
    } else {
        match convert_blocks_spec(e, TranscriptRole::User) {
            Err(m) => Err(m),
            Ok(blocks) => Ok(
                HistoryState {
                    messages: st.messages.push(
                        MessageView::User {
                            content: user_content_of(blocks),
                            timestamp: timestamp_of(e),
                        },
                    ),
                    warnings: st.warnings + conversion_warnings(e, TranscriptRole::User, blocks),
                    active: Seq::empty(),
                    pending: Seq::empty(),
                    completed: Seq::empty(),
                },
            ),
        }
    }
}

/// Reconstruction of one assistant entry.
pub open spec fn assistant_step(st: HistoryState, e: HostTranscriptEntryView) -> Result<
    HistoryState,
    Seq<char>,
> {
    if st.pending.len() > 0 {
        Err(unresolved_message(e, st.pending))
    } else {
        match convert_blocks_spec(e, TranscriptRole::Assistant) {
            Err(m) => Err(m),
            Ok(blocks) => match first_duplicate_id(tool_calls_in(blocks)) {
                Some(d) => Err(entry_context(e, duplicate_call_message(d))),
                None => Ok(
                    HistoryState {
                        messages: st.messages.push(
                            MessageView::Assistant {
                                content: blocks,
                                stop_reason: assistant_stop_reason(blocks, e.is_error),
                                error_message: assistant_error_message(e.is_error),
                                timestamp: timestamp_of(e),
                            },
                        ),
                        warnings: st.warnings + conversion_warnings(
                            e,
                            TranscriptRole::Assistant,
                            blocks,
                        ),
                        active: tool_calls_in(blocks),
                        pending: tool_calls_in(blocks),
                        completed: Seq::empty(),
                    },
                ),
            },
        }
    }
}

/// Reconstruction of one tool-result entry.
pub open spec fn tool_result_step(st: HistoryState, e: HostTranscriptEntryView) -> Result<
    HistoryState,
    Seq<char>,
> {
    match e.tool_call_id {
        None => Err(entry_context(e, "tool result entry is missing tool_call_id"@)),
        Some(id) => match e.tool_name {
            None => Err(entry_context(e, "tool result entry is missing tool_name"@)),
            Some(name) => match find_call(st.active, id) {
                None => Err(
                    entry_context(
                        e,
                        if st.completed.contains(id) {
                            duplicate_result_message(id)
                        } else {
                            unknown_result_message(id)
                        },
                    ),
                ),
                Some(expected) => if st.pending.len() == 0 {
                    Err(
                        entry_context(
                            e,
                            if st.completed.contains(id) {
                                duplicate_result_message(id)
                            } else {
                                nothing_pending_message(id)
                            },
                        ),
                    )
                } else if st.pending[0].0 != id {
                    Err(entry_context(e, out_of_order_message(id, st.pending[0].0)))
                } else if expected != name {
                    Err(entry_context(e, assistant_name_mismatch_message(name, expected)))
                } else if st.pending[0].1 != name {
                    Err(entry_context(e, pending_name_mismatch_message(name, st.pending[0].1)))
                } else if st.completed.contains(id) {
                    Err(entry_context(e, duplicate_result_message(id)))
                } else {
                    match convert_blocks_spec(e, TranscriptRole::ToolResult) {
                        Err(m) => Err(m),
                        Ok(blocks) => Ok(
                            HistoryState {
                                messages: st.messages.push(
                                    MessageView::ToolResult {
                                        tool_call_id: id,
                                        tool_name: name,
                                        content: blocks,
                                        is_error: e.is_error,
                                        timestamp: timestamp_of(e),
                                    },
                                ),
                                warnings: st.warnings,
                                active: st.active,
                                pending: st.pending.drop_first(),
                                completed: st.completed.push(id),
                            },
                        ),
                    }
                },
            },
        },
    }
}

/// Reconstruction of one custom entry: its texts joined by newlines, one
/// warning per dropped non-text block.
pub open spec fn custom_step(st: HistoryState, e: HostTranscriptEntryView) -> Result<
    HistoryState,
    Seq<char>,
> {
    if st.pending.len() > 0 {
        Err(unresolved_message(e, st.pending))
    } else {
        Ok(
            HistoryState {
                messages: st.messages.push(
                    MessageView::Custom {
                        content: seq_join(custom_texts(e.content, e.content.len()), "\n"@),
                        custom_type: match e.custom_type {
                            Some(t) => t,
                            None => "host_custom"@,
                        },
                        timestamp: timestamp_of(e),
                    },
                ),
                warnings: st.warnings + custom_warnings(e, e.content.len()),
                ..st
            },
        )
    }
}

/// Reconstruction of one entry.
pub open spec fn history_step(st: HistoryState, e: HostTranscriptEntryView) -> Result<
    HistoryState,
    Seq<char>,
> {
    match e.role {
        HostTranscriptRole::User => user_step(st, e),
        HostTranscriptRole::Assistant => assistant_step(st, e),
        HostTranscriptRole::ToolResult => tool_result_step(st, e),
        HostTranscriptRole::Custom => custom_step(st, e),
    }
}

/// Reconstruction of a sequence of entries, stopping at the first failure.
pub open spec fn history_run(entries: Seq<HostTranscriptEntryView>) -> Result<
    HistoryState,
    Seq<char>,
>
    decreases entries.len(),
{
    if entries.len() == 0 {
        Ok(initial_history_state())
    } else {
        match history_run(entries.drop_last()) {
            Err(m) => Err(m),
            Ok(st) => history_step(st, entries.last()),
        }
    }
}

/// The messages and warnings reconstructed from a transcript, or the
/// message of the transcript failure that rejects it.
pub open spec fn reconstruct_spec(entries: Seq<HostTranscriptEntryView>) -> Result<
    (Seq<MessageView>, Seq<HistoryWarningView>),
    Seq<char>,
> {
    match history_run(entries) {
        Err(m) => Err(m),
        Ok(st) => if st.pending.len() > 0 {
            Err(ended_unresolved_message(st.pending))
        } else {
            Ok((st.messages, st.warnings))
        },
    }
}


// ---------------------------------------------------------------------------
// Implementation
// ---------------------------------------------------------------------------

/// The views of a sequence of tool calls held as string pairs.
pub open spec fn calls_view(calls: Seq<(String, String)>) -> Seq<CallRef> {
    calls.map_values(|c: (String, String)| (c.0@, c.1@))
}

/// The running state of reconstruction.
pub struct ReconstructionState {
    pub messages: Vec<Message>,
    pub warnings: Vec<HistoryWarning>,
    pub active: Vec<(String, String)>,
    pub pending: Vec<(String, String)>,
    pub completed: Vec<String>,
}

impl View for ReconstructionState {
    type V = HistoryState;

    open spec fn view(&self) -> HistoryState {
        HistoryState {
            messages: messages_view(self.messages@),
            warnings: warnings_view(self.warnings@),
            active: calls_view(self.active@),
            pending: calls_view(self.pending@),
            completed: strings_view(self.completed@),
        }
    }
}

/// The debug name of a transcript role.
fn role_name_str(role: HostTranscriptRole) -> (r: &'static str)
    ensures
        r@ == role_name(role),
{
    match role {
        HostTranscriptRole::User => "User",
        HostTranscriptRole::Assistant => "Assistant",
        HostTranscriptRole::ToolResult => "ToolResult",
        HostTranscriptRole::Custom => "Custom",
    }
}

/// A transcript failure placed in the context of its entry.
pub fn transcript_error(e: &HostTranscriptEntry, message: String) -> (r: EmbedError)
    ensures
        r.is_transcript_error(entry_context(e@, message@)),
{
    let context = match &e.message_id {
        Some(mid) => {
            let c = String::from_str("message_id ");
            let c = c.concat(mid.as_str());
            let c = c.concat(": ");
            c.concat(message.as_str())
        },
        None => {
            let c = String::from_str("role ");
            let c = c.concat(role_name_str(e.role));
            let c = c.concat(": ");
            c.concat(message.as_str())
        },
    };
    EmbedError::transcript(context)
}

/// The identifiers of tool calls, joined by commas.
fn join_call_ids(calls: &Vec<(String, String)>) -> (r: String)
    ensures
        r@ == unresolved_list(calls_view(calls@)),
{
    let mut ids: Vec<String> = Vec::new();
    let mut i: usize = 0;
    while i < calls.len()
        invariant
            i <= calls@.len(),
            strings_view(ids@) =~= call_ids(calls_view(calls@)).take(i as int),
        decreases calls@.len() - i,
    {
        let ghost before = ids@;
        ids.push(calls[i].0.clone());
        proof {
            assert(ids@ == before.push(ids@.last()));
            assert(strings_view(ids@) =~= strings_view(before).push(calls@[i as int].0@));
            assert(call_ids(calls_view(calls@)).take(i + 1) =~= call_ids(calls_view(calls@)).take(
                i as int,
            ).push(calls@[i as int].0@));
        }
        i = i + 1;
    }
    proof {
        assert(call_ids(calls_view(calls@)).take(calls@.len() as int) =~= call_ids(
            calls_view(calls@),
        ));
    }
    join_strings(&ids, ", ")
}

/// Fails when tool calls of the current batch still await their results.
pub fn ensure_no_pending_tool_calls(e: &HostTranscriptEntry, pending: &Vec<(String, String)>) -> (r:
    Result<(), EmbedError>)
    ensures
        r is Ok <==> pending@.len() == 0,
        r is Err ==> r->Err_0.is_transcript_error(unresolved_message(e@, calls_view(pending@))),
{
    if pending.len() == 0 {
        return Ok(());
    }
    let unresolved = join_call_ids(pending);
    let m = String::from_str("encountered ");
    let m = m.concat(role_name_str(e.role));
    let m = m.concat(" transcript entry while assistant tool_call_id(s) remain unresolved: ");
    let m = m.concat(unresolved.as_str());
    Err(transcript_error(e, m))
}

/// Forgets the current batch of tool calls once none of them is pending.
pub fn clear_resolved_tool_batch(
    pending: &Vec<(String, String)>,
    active: &mut Vec<(String, String)>,
    completed: &mut Vec<String>,
)
    ensures
        pending@.len() == 0 ==> final(active)@.len() == 0 && final(completed)@.len() == 0,
        pending@.len() != 0 ==> *final(active) == *old(active) && *final(completed) == *old(
            completed,
        ),
{
    if pending.len() == 0 {
        active.clear();
        completed.clear();
    }
}

/// The name recorded for a tool call identifier in the current batch.
fn find_active_call(active: &Vec<(String, String)>, id: &String) -> (r: Option<String>)
    ensures
        r.deep_view() == find_call(calls_view(active@), id@),
{
    let ghost calls = calls_view(active@);
    assert(calls.skip(0) =~= calls);
    let mut i: usize = 0;
    while i < active.len()
        invariant
            i <= active@.len(),
            calls == calls_view(active@),
            find_call(calls, id@) == find_call(calls.skip(i as int), id@),
        decreases active@.len() - i,
    {
        proof {
            assert(calls.skip(i as int)[0] == calls[i as int]);
            assert(calls.skip(i as int).drop_first() =~= calls.skip(i + 1));
        }
        if active[i].0 == *id {
            return Some(active[i].1.clone());
        }
        i = i + 1;
    }
    proof {
        assert(calls.skip(i as int).len() == 0);
    }
    None
}

/// Whether a list of strings holds a string.
fn contains_string(list: &Vec<String>, s: &String) -> (r: bool)
    ensures
        r == strings_view(list@).contains(s@),
{
    let mut i: usize = 0;
    while i < list.len()
        invariant
            i <= list@.len(),
            forall|k: int| 0 <= k < i ==> list@[k]@ != s@,
        decreases list@.len() - i,
    {
        if list[i] == *s {
            proof {
                assert(strings_view(list@)[i as int] == s@);
            }
            return true;
        }
        i = i + 1;
    }
    proof {
        if strings_view(list@).contains(s@) {
            let k = choose|k: int| 0 <= k < strings_view(list@).len() && strings_view(list@)[k] == s@;
            assert(list@[k]@ == s@);
        }
    }
    false
}


/// How an entry is named in warnings.
fn message_id_label_string(e: &HostTranscriptEntry) -> (r: String)
    ensures
        r@ == message_id_label(e@),
{
    match &e.message_id {
        Some(mid) => mid.clone(),
        None => String::from_str("<unknown>"),
    }
}

/// The warning for an entry whose content converted to nothing.
fn empty_content_warning_of(e: &HostTranscriptEntry) -> (w: HistoryWarning)
    ensures
        w@ == empty_content_warning(e@),
{
    let label = message_id_label_string(e);
    let d = String::from_str("Transcript entry '");
    let d = d.concat(label.as_str());
    let d = d.concat("' reconstructed to an empty content list");
    HistoryWarning {
        kind: HistoryWarningKind::CustomContentBlockDropped,
        message_id: crate::text::clone_opt_string(&e.message_id),
        detail: d,
    }
}

/// The warning for a non-text block dropped from a custom entry.
fn dropped_block_warning_of(e: &HostTranscriptEntry) -> (w: HistoryWarning)
    ensures
        w@ == dropped_block_warning(e@),
{
    let label = message_id_label_string(e);
    let d = String::from_str("Dropped non-text custom content block while reconstructing message '");
    let d = d.concat(label.as_str());
    let d = d.concat("'");
    HistoryWarning {
        kind: HistoryWarningKind::CustomContentBlockDropped,
        message_id: crate::text::clone_opt_string(&e.message_id),
        detail: d,
    }
}

/// Converts one host block under a role.
fn convert_one_block(e: &HostTranscriptEntry, role: TranscriptRole, b: &HostContentBlock) -> (r:
    Result<ContentBlock, EmbedError>)
    ensures
        match convert_block(e@, role, b@) {
            Ok(v) => r is Ok && r->Ok_0@ == v,
            Err(m) => r is Err && r->Err_0.is_transcript_error(m),
        },
{
    match b {
        HostContentBlock::Text { text } => Ok(ContentBlock::Text { text: text.clone() }),
        HostContentBlock::Image { mime_type, data } => Ok(
            ContentBlock::Image { data: base64_encode(data), mime_type: mime_type.clone() },
        ),
        HostContentBlock::Thinking { text } => Ok(ContentBlock::Thinking { thinking: text.clone() }),
        HostContentBlock::ToolCall { tool_call_id, tool_name, arguments } => {
            if role != TranscriptRole::Assistant {
                return Err(
                    transcript_error(
                        e,
                        String::from_str(
                            "tool call blocks are only valid inside assistant transcript entries",
                        ),
                    ),
                );
            }
            let id = str_trim(tool_call_id.as_str());
            if id.is_empty() {
                return Err(
                    transcript_error(
                        e,
                        String::from_str("assistant tool call block is missing tool_call_id"),
                    ),
                );
            }
            let name = str_trim(tool_name.as_str());
            if name.is_empty() {
                return Err(
                    transcript_error(
                        e,
                        String::from_str("assistant tool call block is missing tool_name"),
                    ),
                );
            }
            Ok(
                ContentBlock::ToolCall {
                    id: String::from_str(id),
                    name: String::from_str(name),
                    arguments: arguments.clone(),
                },
            )
        },
    }
}

/// Converts all blocks of an entry; a user or assistant entry whose content
/// converts to nothing adds a warning.
pub fn convert_blocks(
    e: &HostTranscriptEntry,
    role: TranscriptRole,
    warnings: &mut Vec<HistoryWarning>,
) -> (r: Result<Vec<ContentBlock>, EmbedError>)
    ensures
        match convert_blocks_spec(e@, role) {
            Ok(bs) => {
                &&& r is Ok
                &&& blocks_view(r->Ok_0@) == bs
                &&& warnings_view(final(warnings)@) == warnings_view(old(warnings)@)
                    + conversion_warnings(e@, role, bs)
            },
            Err(m) => {
                &&& r is Err
                &&& r->Err_0.is_transcript_error(m)
                &&& final(warnings)@ == old(warnings)@
            },
        },
{
    let mut blocks: Vec<ContentBlock> = Vec::new();
    assert(blocks_view(blocks@) =~= Seq::<ContentBlockView>::empty());
    let mut i: usize = 0;
    while i < e.content.len()
        invariant
            i <= e.content@.len(),
            e.content@.len() == e@.content.len(),
            convert_blocks_prefix(e@, role, i as nat) == Ok::<Seq<ContentBlockView>, Seq<char>>(
                blocks_view(blocks@),
            ),
            warnings@ == old(warnings)@,
        decreases e.content@.len() - i,
    {
        let b = convert_one_block(e, role, &e.content[i]);
        proof {
            assert(e@.content[i as int] == e.content@[i as int]@);
        }
        match b {
            Err(err) => {
                proof {
                    lemma_convert_prefix_error_persists(e@, role, (i + 1) as nat, e@.content.len());
                }
                return Err(err);
            },
            Ok(block) => {
                let ghost before = blocks@;
                blocks.push(block);
                proof {
                    assert(blocks_view(blocks@) =~= blocks_view(before).push(blocks@.last()@));
                }
            },
        }
        i = i + 1;
    }
    if blocks.len() == 0 && role != TranscriptRole::ToolResult {
        let ghost before = warnings@;
        warnings.push(empty_content_warning_of(e));
        proof {
            assert(warnings_view(warnings@) =~= warnings_view(before) + seq![
                empty_content_warning(e@),
            ]);
        }
    } else {
        proof {
            assert(warnings_view(warnings@) =~= warnings_view(warnings@) + Seq::<
                HistoryWarningView,
            >::empty());
        }
    }
    Ok(blocks)
}

/// A failed prefix conversion stays failed, with the same message, on every
/// longer prefix.
proof fn lemma_convert_prefix_error_persists(
    e: HostTranscriptEntryView,
    role: TranscriptRole,
    n: nat,
    m: nat,
)
    requires
        n <= m,
        convert_blocks_prefix(e, role, n) is Err,
    ensures
        convert_blocks_prefix(e, role, m) == convert_blocks_prefix(e, role, n),
    decreases m - n,
{
    if n < m {
        lemma_convert_prefix_error_persists(e, role, n, (m - 1) as nat);
    }
}


/// The timestamp of a reconstructed message.
fn timestamp_from(e: &HostTranscriptEntry) -> (t: i64)
    ensures
        t == timestamp_of(e@),
{
    match e.timestamp_ms {
        Some(t) => t,
        None => 0,
    }
}

/// A tool call of the batch is found exactly when its identifier is listed.
proof fn lemma_find_call_some_iff_listed(calls: Seq<CallRef>, id: Seq<char>)
    ensures
        find_call(calls, id) is Some <==> call_ids(calls).contains(id),
    decreases calls.len(),
{
    if calls.len() > 0 {
        lemma_find_call_some_iff_listed(calls.drop_first(), id);
        assert(call_ids(calls.drop_first()) =~= call_ids(calls).drop_first());
        if call_ids(calls).contains(id) && calls[0].0 != id {
            let k = choose|k: int| 0 <= k < call_ids(calls).len() && call_ids(calls)[k] == id;
            assert(k > 0);
            assert(call_ids(calls.drop_first())[k - 1] == id);
        }
        if call_ids(calls.drop_first()).contains(id) {
            let k = choose|k: int|
                0 <= k < call_ids(calls.drop_first()).len() && call_ids(calls.drop_first())[k] == id;
            assert(call_ids(calls)[k + 1] == id);
        }
        if calls[0].0 == id {
            assert(call_ids(calls)[0] == id);
        }
    }
}

/// Reconstructs one user entry.
fn user_entry(st: &mut ReconstructionState, e: &HostTranscriptEntry) -> (r: Result<(), EmbedError>)
    ensures
        match user_step(old(st)@, e@) {
            Ok(s) => r is Ok && final(st)@ == s,
            Err(m) => r is Err && r->Err_0.is_transcript_error(m),
        },
{
    ensure_no_pending_tool_calls(e, &st.pending)?;
    clear_resolved_tool_batch(&st.pending, &mut st.active, &mut st.completed);
    let ghost old_messages = st.messages@;
    let blocks = convert_blocks(e, TranscriptRole::User, &mut st.warnings)?;
    let single_text: Option<String> = if blocks.len() == 1 {
        match &blocks[0] {
            ContentBlock::Text { text } => Some(text.clone()),
            _ => None,
        }
    } else {
        None
    };
    let ghost bv = blocks_view(blocks@);
    proof {
        if blocks@.len() == 1 {
            assert(bv[0] == blocks@[0]@);
        }
    }
    let content = match single_text {
        Some(t) => UserContent::Text(t),
        None => UserContent::Blocks(blocks),
    };
    assert(content@ == user_content_of(bv));
    let msg = Message::User { content, timestamp: timestamp_from(e) };
    st.messages.push(msg);
    proof {
        assert(messages_view(st.messages@) =~= messages_view(old_messages).push(msg@));
        assert(calls_view(st.active@) =~= Seq::<CallRef>::empty());
        assert(calls_view(st.pending@) =~= Seq::<CallRef>::empty());
        assert(strings_view(st.completed@) =~= Seq::<Seq<char>>::empty());
    }
    Ok(())
}


/// Reconstructs one assistant entry, registering its tool calls as the new
/// batch.
fn assistant_entry(st: &mut ReconstructionState, e: &HostTranscriptEntry) -> (r: Result<
    (),
    EmbedError,
>)
    ensures
        match assistant_step(old(st)@, e@) {
            Ok(s) => r is Ok && final(st)@ == s,
            Err(m) => r is Err && r->Err_0.is_transcript_error(m),
        },
{
    ensure_no_pending_tool_calls(e, &st.pending)?;
    clear_resolved_tool_batch(&st.pending, &mut st.active, &mut st.completed);
    let ghost old_messages = st.messages@;
    let content = convert_blocks(e, TranscriptRole::Assistant, &mut st.warnings)?;
    let ghost bv = blocks_view(content@);
    let ghost warnings_after = st.warnings@;
    proof {
        assert(calls_view(st.active@) =~= tool_calls_in(bv.take(0)));
        assert(calls_view(st.pending@) =~= tool_calls_in(bv.take(0)));
    }
    let mut has_call = false;
    let mut j: usize = 0;
    while j < content.len()
        invariant
            j <= content@.len(),
            bv == blocks_view(content@),
            convert_blocks_spec(e@, TranscriptRole::Assistant) == Ok::<
                Seq<ContentBlockView>,
                Seq<char>,
            >(bv),
            old(st)@.pending.len() == 0,
            st.messages@ == old_messages,
            st.warnings@ == warnings_after,
            st.completed@.len() == 0,
            calls_view(st.active@) == tool_calls_in(bv.take(j as int)),
            calls_view(st.pending@) == tool_calls_in(bv.take(j as int)),
            first_duplicate_id(tool_calls_in(bv.take(j as int))) is None,
            has_call == (tool_calls_in(bv.take(j as int)).len() > 0),
        decreases content@.len() - j,
    {
        let ghost calls = tool_calls_in(bv.take(j as int));
        proof {
            assert(bv.take(j + 1).drop_last() =~= bv.take(j as int));
            assert(bv.take(j + 1).last() == content@[j as int]@);
        }
        match &content[j] {
            ContentBlock::ToolCall { id, name, .. } => {
                proof {
                    assert(tool_calls_in(bv.take(j + 1)) == calls.push((id@, name@)));
                    lemma_find_call_some_iff_listed(calls, id@);
                    assert(calls.push((id@, name@)).drop_last() =~= calls);
                }
                if find_active_call(&st.active, id).is_some() {
                    let m = String::from_str("duplicate tool_call_id '");
                    let m = m.concat(id.as_str());
                    let m = m.concat("' in assistant history");
                    proof {
                        assert(bv[j as int] == content@[j as int]@);
                        assert(bv[j as int]->ToolCall_id == id@);
                        assert(call_ids(calls).contains(id@));
                        lemma_first_duplicate_prefix_of_take(bv, j as int, content@.len() as int);
                        assert(first_duplicate_id(tool_calls_in(bv)) == Some(id@));
                        assert(m@ == duplicate_call_message(id@));
                    }
                    let err = transcript_error(e, m);
                    assert(err.is_transcript_error(entry_context(e@, duplicate_call_message(id@))));
                    return Err(err);
                }
                let ghost active_before = st.active@;
                let ghost pending_before = st.pending@;
                st.active.push((id.clone(), name.clone()));
                st.pending.push((id.clone(), name.clone()));
                proof {
                    assert(calls_view(st.active@) =~= calls_view(active_before).push((id@, name@)));
                    assert(calls_view(st.pending@) =~= calls_view(pending_before).push(
                        (id@, name@),
                    ));
                }
                has_call = true;
            },
            _ => {
                proof {
                    assert(tool_calls_in(bv.take(j + 1)) == calls);
                }
            },
        }
        j = j + 1;
    }
    proof {
        assert(bv.take(content@.len() as int) =~= bv);
    }
    let stop_reason = if has_call {
        StopReason::ToolUse
    } else if e.is_error {
        StopReason::Error
    } else {
        StopReason::Stop
    };
    let error_message = if e.is_error {
        Some(String::from_str("host transcript marked reconstructed assistant message as error"))
    } else {
        None
    };
    let msg = Message::Assistant {
        content,
        stop_reason,
        error_message,
        timestamp: timestamp_from(e),
    };
    st.messages.push(msg);
    proof {
        assert(messages_view(st.messages@) =~= messages_view(old_messages).push(msg@));
        assert(strings_view(st.completed@) =~= Seq::<Seq<char>>::empty());
    }
    Ok(())
}

/// When the tool calls of the blocks before index `j` repeat nothing and
/// block `j` repeats one of them, that repetition is the first duplicate of
/// the whole conversion.
proof fn lemma_first_duplicate_prefix_of_take(bv: Seq<ContentBlockView>, j: int, n: int)
    requires
        0 <= j < n,
        n == bv.len(),
        first_duplicate_id(tool_calls_in(bv.take(j))) is None,
        bv[j] is ToolCall,
        call_ids(tool_calls_in(bv.take(j))).contains(bv[j]->ToolCall_id),
    ensures
        first_duplicate_id(tool_calls_in(bv)) == Some(bv[j]->ToolCall_id),
{
    assert(bv.take(j + 1).drop_last() =~= bv.take(j));
    assert(tool_calls_in(bv.take(j + 1)).drop_last() =~= tool_calls_in(bv.take(j)));
    assert(first_duplicate_id(tool_calls_in(bv.take(j + 1))) == Some(bv[j]->ToolCall_id));
    lemma_first_duplicate_extends(bv, j + 1, n);
    assert(bv.take(n) =~= bv);
}

/// Once the tool calls of a prefix hold a duplicate, every longer prefix has
/// the same first duplicate.
proof fn lemma_first_duplicate_extends(bv: Seq<ContentBlockView>, k: int, n: int)
    requires
        0 <= k <= n <= bv.len(),
        first_duplicate_id(tool_calls_in(bv.take(k))) is Some,
    ensures
        first_duplicate_id(tool_calls_in(bv.take(n))) == first_duplicate_id(
            tool_calls_in(bv.take(k)),
        ),
    decreases n - k,
{
    if k < n {
        lemma_first_duplicate_extends(bv, k, n - 1);
        assert(bv.take(n).drop_last() =~= bv.take(n - 1));
        let calls = tool_calls_in(bv.take(n));
        if calls.len() > 0 && calls.len() > tool_calls_in(bv.take(n - 1)).len() {
            assert(calls.drop_last() =~= tool_calls_in(bv.take(n - 1)));
        }
    }
}


/// The failure text for a result whose tool call is already resolved.
fn duplicate_result_string(id: &String) -> (r: String)
    ensures
        r@ == duplicate_result_message(id@),
{
    let m = String::from_str("duplicate tool result for tool_call_id '");
    let m = m.concat(id.as_str());
    m.concat("'")
}

/// Reconstructs one tool-result entry, resolving the next pending tool call.
fn tool_result_entry(st: &mut ReconstructionState, e: &HostTranscriptEntry) -> (r: Result<
    (),
    EmbedError,
>)
    ensures
        match tool_result_step(old(st)@, e@) {
            Ok(s) => r is Ok && final(st)@ == s,
            Err(m) => r is Err && r->Err_0.is_transcript_error(m),
        },
{
    let id = match &e.tool_call_id {
        Some(id) => id.clone(),
        None => {
            return Err(
                transcript_error(e, String::from_str("tool result entry is missing tool_call_id")),
            );
        },
    };
    let name = match &e.tool_name {
        Some(name) => name.clone(),
        None => {
            return Err(
                transcript_error(e, String::from_str("tool result entry is missing tool_name")),
            );
        },
    };
    let expected = match find_active_call(&st.active, &id) {
        Some(expected) => expected,
        None => {
            let m = if contains_string(&st.completed, &id) {
                duplicate_result_string(&id)
            } else {
                let m = String::from_str("tool result references unknown tool_call_id '");
                let m = m.concat(id.as_str());
                m.concat("'")
            };
            return Err(transcript_error(e, m));
        },
    };
    if st.pending.len() == 0 {
        let m = if contains_string(&st.completed, &id) {
            duplicate_result_string(&id)
        } else {
            let m = String::from_str("tool result for tool_call_id '");
            let m = m.concat(id.as_str());
            m.concat(
                "' is out of order; all assistant tool calls must be resolved before the next non-tool transcript entry",
            )
        };
        return Err(transcript_error(e, m));
    }
    proof {
        assert(old(st)@.pending[0] == (st.pending@[0].0@, st.pending@[0].1@));
    }
    if st.pending[0].0 != id {
        let m = String::from_str("tool result for tool_call_id '");
        let m = m.concat(id.as_str());
        let m = m.concat("' is out of order; expected '");
        let m = m.concat(st.pending[0].0.as_str());
        let m = m.concat("' next to match the assistant tool-call replay order");
        return Err(transcript_error(e, m));
    }
    if expected != name {
        let m = String::from_str("tool result tool_name '");
        let m = m.concat(name.as_str());
        let m = m.concat("' does not match assistant tool call '");
        let m = m.concat(expected.as_str());
        let m = m.concat("'");
        return Err(transcript_error(e, m));
    }
    if st.pending[0].1 != name {
        let m = String::from_str("tool result tool_name '");
        let m = m.concat(name.as_str());
        let m = m.concat("' does not match pending assistant tool call '");
        let m = m.concat(st.pending[0].1.as_str());
        let m = m.concat("'");
        return Err(transcript_error(e, m));
    }
    if contains_string(&st.completed, &id) {
        return Err(transcript_error(e, duplicate_result_string(&id)));
    }
    let ghost pending_before = st.pending@;
    let ghost completed_before = st.completed@;
    let ghost messages_before = st.messages@;
    st.pending.remove(0);
    st.completed.push(id.clone());
    let content = convert_blocks(e, TranscriptRole::ToolResult, &mut st.warnings)?;
    let msg = Message::ToolResult {
        tool_call_id: id,
        tool_name: name,
        content,
        is_error: e.is_error,
        timestamp: timestamp_from(e),
    };
    st.messages.push(msg);
    proof {
        assert(calls_view(st.pending@) =~= calls_view(pending_before).drop_first());
        assert(strings_view(st.completed@) =~= strings_view(completed_before).push(id@));
        assert(messages_view(st.messages@) =~= messages_view(messages_before).push(msg@));
        assert(warnings_view(st.warnings@) =~= warnings_view(old(st).warnings@));
    }
    Ok(())
}

/// Reconstructs one custom entry: its texts joined by newlines, one warning
/// for each non-text block that custom messages cannot hold.
fn custom_entry(st: &mut ReconstructionState, e: &HostTranscriptEntry) -> (r: Result<
    (),
    EmbedError,
>)
    ensures
        match custom_step(old(st)@, e@) {
            Ok(s) => r is Ok && final(st)@ == s,
            Err(m) => r is Err && r->Err_0.is_transcript_error(m),
        },
{
    ensure_no_pending_tool_calls(e, &st.pending)?;
    let ghost warnings_before = warnings_view(st.warnings@);
    let ghost messages_before = st.messages@;
    let mut texts: Vec<String> = Vec::new();
    let mut i: usize = 0;
    proof {
        assert(strings_view(texts@) =~= Seq::<Seq<char>>::empty());
        assert(warnings_view(st.warnings@) =~= warnings_before + Seq::<HistoryWarningView>::empty());
    }
    while i < e.content.len()
        invariant
            i <= e.content@.len(),
            e.content@.len() == e@.content.len(),
            st.messages@ == messages_before,
            st.active@ == old(st).active@,
            st.pending@ == old(st).pending@,
            st.completed@ == old(st).completed@,
            strings_view(texts@) == custom_texts(e@.content, i as nat),
            warnings_view(st.warnings@) == warnings_before + custom_warnings(e@, i as nat),
        decreases e.content@.len() - i,
    {
        proof {
            assert(e@.content[i as int] == e.content@[i as int]@);
        }
        match &e.content[i] {
            HostContentBlock::Text { text } => {
                let ghost before = texts@;
                texts.push(text.clone());
                proof {
                    assert(strings_view(texts@) =~= strings_view(before).push(text@));
                }
            },
            _ => {
                let ghost before = st.warnings@;
                st.warnings.push(dropped_block_warning_of(e));
                proof {
                    assert(warnings_view(st.warnings@) =~= warnings_view(before).push(
                        dropped_block_warning(e@),
                    ));
                    assert(warnings_before + custom_warnings(e@, (i + 1) as nat) =~= (
                    warnings_before + custom_warnings(e@, i as nat)).push(
                        dropped_block_warning(e@),
                    ));
                }
            },
        }
        i = i + 1;
    }
    let joined = join_strings(&texts, "\n");
    let custom_type = match &e.custom_type {
        Some(t) => t.clone(),
        None => String::from_str("host_custom"),
    };
    let msg = Message::Custom { content: joined, custom_type, timestamp: timestamp_from(e) };
    st.messages.push(msg);
    proof {
        assert(messages_view(st.messages@) =~= messages_view(messages_before).push(msg@));
    }
    Ok(())
}

/// Reconstructs one entry of any role.
fn apply_entry(st: &mut ReconstructionState, e: &HostTranscriptEntry) -> (r: Result<(), EmbedError>)
    ensures
        match history_step(old(st)@, e@) {
            Ok(s) => r is Ok && final(st)@ == s,
            Err(m) => r is Err && r->Err_0.is_transcript_error(m),
        },
{
    match e.role {
        HostTranscriptRole::User => user_entry(st, e),
        HostTranscriptRole::Assistant => assistant_entry(st, e),
        HostTranscriptRole::ToolResult => tool_result_entry(st, e),
        HostTranscriptRole::Custom => custom_entry(st, e),
    }
}

/// A failed run stays failed, with the same message, on every longer
/// transcript.
proof fn lemma_history_run_error_persists(entries: Seq<HostTranscriptEntryView>, n: int, m: int)
    requires
        0 <= n <= m <= entries.len(),
        history_run(entries.take(n)) is Err,
    ensures
        history_run(entries.take(m)) == history_run(entries.take(n)),
    decreases m - n,
{
    if n < m {
        lemma_history_run_error_persists(entries, n, m - 1);
        assert(entries.take(m).drop_last() =~= entries.take(m - 1));
    }
}

/// Reconstruct message history from host-owned transcript entries.
///
/// Messages come out in transcript order. Each assistant entry's tool calls
/// open a batch whose results must follow, in the order the calls were made,
/// before any other user, assistant or custom entry; a transcript that breaks
/// this, or ends with unresolved calls, is rejected with a transcript failure.
pub fn reconstruct_history(transcript: &[HostTranscriptEntry]) -> (r: Result<
    HistoryConversionResult,
    EmbedError,
>)
    ensures
        match reconstruct_spec(transcript_view(transcript@)) {
            Ok((messages, warnings)) => {
                &&& r is Ok
                &&& messages_view(r->Ok_0.messages@) == messages
                &&& warnings_view(r->Ok_0.warnings@) == warnings
            },
            Err(m) => r is Err && r->Err_0.is_transcript_error(m),
        },
{
    let ghost entries = transcript_view(transcript@);
    let mut st = ReconstructionState {
        messages: Vec::new(),
        warnings: Vec::new(),
        active: Vec::new(),
        pending: Vec::new(),
        completed: Vec::new(),
    };
    proof {
        assert(entries.take(0) =~= Seq::<HostTranscriptEntryView>::empty());
        assert(st@.messages =~= Seq::<MessageView>::empty());
        assert(st@.warnings =~= Seq::<HistoryWarningView>::empty());
        assert(st@.active =~= Seq::<CallRef>::empty());
        assert(st@.pending =~= Seq::<CallRef>::empty());
        assert(st@.completed =~= Seq::<Seq<char>>::empty());
        assert(st@ == initial_history_state());
    }
    let mut i: usize = 0;
    while i < transcript.len()
        invariant
            i <= transcript@.len(),
            entries == transcript_view(transcript@),
            history_run(entries.take(i as int)) == Ok::<HistoryState, Seq<char>>(st@),
        decreases transcript@.len() - i,
    {
        proof {
            assert(entries.take(i + 1).drop_last() =~= entries.take(i as int));
            assert(entries.take(i + 1).last() == transcript@[i as int]@);
        }
        match apply_entry(&mut st, &transcript[i]) {
            Err(err) => {
                proof {
                    lemma_history_run_error_persists(entries, i + 1, entries.len() as int);
                    assert(entries.take(entries.len() as int) =~= entries);
                }
                return Err(err);
            },
            Ok(()) => {},
        }
        i = i + 1;
    }
    proof {
        assert(entries.take(transcript@.len() as int) =~= entries);
    }
    if st.pending.len() > 0 {
        let unresolved = join_call_ids(&st.pending);
        let m = String::from_str("transcript ended with unresolved assistant tool_call_id(s): ");
        return Err(EmbedError::transcript(m.concat(unresolved.as_str())));
    }
    Ok(HistoryConversionResult { messages: st.messages, warnings: st.warnings })
}


// ---------------------------------------------------------------------------
// Laws
// ---------------------------------------------------------------------------

/// The transcript role that a reconstructed message stands for.
pub open spec fn message_role(m: MessageView) -> HostTranscriptRole {
    match m {
        MessageView::User { .. } => HostTranscriptRole::User,
        MessageView::Assistant { .. } => HostTranscriptRole::Assistant,
        MessageView::ToolResult { .. } => HostTranscriptRole::ToolResult,
        MessageView::Custom { .. } => HostTranscriptRole::Custom,
    }
}

/// The identifiers of the tool calls that a message makes.
pub open spec fn message_call_ids(m: MessageView) -> Seq<Seq<char>> {
    match m {
        MessageView::Assistant { content, .. } => call_ids(tool_calls_in(content)),
        _ => Seq::empty(),
    }
}

/// The identifier of the tool call that a message answers, if any.
pub open spec fn message_result_ids(m: MessageView) -> Seq<Seq<char>> {
    match m {
        MessageView::ToolResult { tool_call_id, .. } => seq![tool_call_id],
        _ => Seq::empty(),
    }
}

/// The identifiers of all tool calls made by a history, in order.
pub open spec fn history_call_ids(messages: Seq<MessageView>) -> Seq<Seq<char>>
    decreases messages.len(),
{
    if messages.len() == 0 {
        Seq::empty()
    } else {
        history_call_ids(messages.drop_last()) + message_call_ids(messages.last())
    }
}

/// The identifiers answered by all tool results of a history, in order.
pub open spec fn history_result_ids(messages: Seq<MessageView>) -> Seq<Seq<char>>
    decreases messages.len(),
{
    if messages.len() == 0 {
        Seq::empty()
    } else {
        history_result_ids(messages.drop_last()) + message_result_ids(messages.last())
    }
}

/// The warnings that one entry contributes when it reconstructs: an empty
/// user or assistant entry warns once, and a custom entry warns once per
/// dropped non-text block.
pub open spec fn entry_warnings(e: HostTranscriptEntryView) -> Seq<HistoryWarningView> {
    match e.role {
        HostTranscriptRole::User => match convert_blocks_spec(e, TranscriptRole::User) {
            Ok(bs) => conversion_warnings(e, TranscriptRole::User, bs),
            Err(_) => Seq::empty(),
        },
        HostTranscriptRole::Assistant => match convert_blocks_spec(e, TranscriptRole::Assistant) {
            Ok(bs) => conversion_warnings(e, TranscriptRole::Assistant, bs),
            Err(_) => Seq::empty(),
        },
        HostTranscriptRole::ToolResult => Seq::empty(),
        HostTranscriptRole::Custom => custom_warnings(e, e.content.len()),
    }
}

/// The warnings of a sequence of entries, entry by entry, in order.
pub open spec fn transcript_warnings(entries: Seq<HostTranscriptEntryView>) -> Seq<
    HistoryWarningView,
>
    decreases entries.len(),
{
    if entries.len() == 0 {
        Seq::empty()
    } else {
        transcript_warnings(entries.drop_last()) + entry_warnings(entries.last())
    }
}

/// Whether a reconstructed message is the one owed for a transcript entry:
/// same role and timestamp, content converted from the entry's blocks (a
/// lone user text becoming plain text), the assistant's stop reason and error
/// following from its blocks and error flag, a tool result carrying the
/// entry's call identifier, name and error flag, and a custom entry's texts
/// joined by newlines under its custom type.
pub open spec fn message_fits_entry(m: MessageView, e: HostTranscriptEntryView) -> bool {
    &&& message_role(m) == e.role
    &&& match m {
        MessageView::User { content, timestamp } => {
            &&& timestamp == timestamp_of(e)
            &&& convert_blocks_spec(e, TranscriptRole::User) matches Ok(bs)
            &&& content == user_content_of(bs)
        },
        MessageView::Assistant { content, stop_reason, error_message, timestamp } => {
            &&& timestamp == timestamp_of(e)
            &&& convert_blocks_spec(e, TranscriptRole::Assistant) == Ok::<
                Seq<ContentBlockView>,
                Seq<char>,
            >(content)
            &&& stop_reason == assistant_stop_reason(content, e.is_error)
            &&& error_message == assistant_error_message(e.is_error)
        },
        MessageView::ToolResult { tool_call_id, tool_name, content, is_error, timestamp } => {
            &&& timestamp == timestamp_of(e)
            &&& e.tool_call_id == Some(tool_call_id)
            &&& e.tool_name == Some(tool_name)
            &&& convert_blocks_spec(e, TranscriptRole::ToolResult) == Ok::<
                Seq<ContentBlockView>,
                Seq<char>,
            >(content)
            &&& is_error == e.is_error
        },
        MessageView::Custom { content, custom_type, timestamp } => {
            &&& timestamp == timestamp_of(e)
            &&& content == seq_join(custom_texts(e.content, e.content.len()), "\n"@)
            &&& custom_type == match e.custom_type {
                Some(t) => t,
                None => "host_custom"@,
            }
        },
    }
}

/// What holds of every state that reconstruction reaches: the results given
/// so far, followed by the calls still pending, are exactly the calls made.
pub open spec fn replay_invariant(st: HistoryState) -> bool {
    history_call_ids(st.messages) == history_result_ids(st.messages) + call_ids(st.pending)
}

/// One step adds exactly one message, of the entry's role, and keeps the
/// replay invariant.
proof fn lemma_history_step_shape(st: HistoryState, e: HostTranscriptEntryView)
    requires
        replay_invariant(st),
        history_step(st, e) is Ok,
    ensures
        ({
            let st2 = history_step(st, e)->Ok_0;
            &&& st2.messages.len() == st.messages.len() + 1
            &&& st2.messages.drop_last() == st.messages
            &&& message_role(st2.messages.last()) == e.role
            &&& message_fits_entry(st2.messages.last(), e)
            &&& st2.warnings == st.warnings + entry_warnings(e)
            &&& replay_invariant(st2)
        }),
{
    let st2 = history_step(st, e)->Ok_0;
    assert(st2.messages.drop_last() =~= st.messages);
    let m = st2.messages.last();
    assert(history_call_ids(st2.messages) == history_call_ids(st.messages) + message_call_ids(m));
    assert(history_result_ids(st2.messages) == history_result_ids(st.messages) + message_result_ids(
        m,
    ));
    match e.role {
        HostTranscriptRole::ToolResult => {
            let id = e.tool_call_id->Some_0;
            assert(call_ids(st.pending) =~= seq![id] + call_ids(st2.pending));
            assert(history_call_ids(st2.messages) =~= history_result_ids(st2.messages) + call_ids(
                st2.pending,
            ));
        },
        HostTranscriptRole::Assistant => {
            assert(call_ids(st.pending) =~= Seq::<Seq<char>>::empty());
            assert(history_call_ids(st2.messages) =~= history_result_ids(st2.messages) + call_ids(
                st2.pending,
            ));
        },
        _ => {
            assert(call_ids(st.pending) =~= Seq::<Seq<char>>::empty());
            assert(call_ids(st2.pending) =~= Seq::<Seq<char>>::empty());
            assert(history_call_ids(st2.messages) =~= history_result_ids(st2.messages) + call_ids(
                st2.pending,
            ));
        },
    }
}

/// Every state that a successful run reaches has one message per entry, of
/// the entry's role, and satisfies the replay invariant.
proof fn lemma_history_run_shape(entries: Seq<HostTranscriptEntryView>)
    requires
        history_run(entries) is Ok,
    ensures
        ({
            let st = history_run(entries)->Ok_0;
            &&& st.messages.len() == entries.len()
            &&& forall|i: int|
                0 <= i < entries.len() ==> #[trigger] message_role(st.messages[i])
                    == entries[i].role
            &&& forall|i: int|
                0 <= i < entries.len() ==> message_fits_entry(#[trigger] st.messages[i], entries[i])
            &&& st.warnings == transcript_warnings(entries)
            &&& replay_invariant(st)
        }),
    decreases entries.len(),
{
    if entries.len() == 0 {
        assert(history_call_ids(Seq::<MessageView>::empty()) =~= history_result_ids(
            Seq::<MessageView>::empty(),
        ) + call_ids(Seq::<CallRef>::empty()));
    } else {
        let prev = entries.drop_last();
        lemma_history_run_shape(prev);
        let st = history_run(prev)->Ok_0;
        lemma_history_step_shape(st, entries.last());
        let st2 = history_run(entries)->Ok_0;
        assert forall|i: int| 0 <= i < entries.len() implies #[trigger] message_role(
            st2.messages[i],
        ) == entries[i].role && message_fits_entry(st2.messages[i], entries[i]) by {
            if i < entries.len() - 1 {
                assert(st2.messages[i] == st2.messages.drop_last()[i]);
                assert(prev[i] == entries[i]);
            }
        }
    }
}

/// Reconstruction keeps the transcript's order: a successful reconstruction
/// yields exactly one message per entry, and message `i` has the role of
/// entry `i`.
pub proof fn lemma_reconstruction_preserves_entry_order(entries: Seq<HostTranscriptEntryView>)
    ensures
        reconstruct_spec(entries) is Ok ==> {
            let messages = reconstruct_spec(entries)->Ok_0.0;
            &&& messages.len() == entries.len()
            &&& forall|i: int|
                0 <= i < entries.len() ==> #[trigger] message_role(messages[i]) == entries[i].role
        },
{
    if reconstruct_spec(entries) is Ok {
        lemma_history_run_shape(entries);
    }
}

/// Each reconstructed message is the one owed for its entry: a successful
/// reconstruction keeps every entry's timestamp and converted content, the
/// user's lone text as plain text, the assistant's stop reason and error,
/// and each tool result's identifier, name and error flag.
pub proof fn lemma_reconstructed_messages_fit_entries(entries: Seq<HostTranscriptEntryView>)
    ensures
        reconstruct_spec(entries) is Ok ==> {
            let messages = reconstruct_spec(entries)->Ok_0.0;
            &&& messages.len() == entries.len()
            &&& forall|i: int|
                0 <= i < entries.len() ==> message_fits_entry(#[trigger] messages[i], entries[i])
        },
{
    if reconstruct_spec(entries) is Ok {
        lemma_history_run_shape(entries);
    }
}

/// Whether a host block cannot be converted under an entry's role: a tool
/// call outside an assistant entry, or an assistant tool call whose trimmed
/// identifier or name is blank.
pub open spec fn unsupported_block(role: HostTranscriptRole, b: HostContentBlockView) -> bool {
    match b {
        HostContentBlockView::ToolCall { tool_call_id, tool_name, .. } => {
            ||| role == HostTranscriptRole::User
            ||| role == HostTranscriptRole::ToolResult
            ||| (role == HostTranscriptRole::Assistant && (trim_seq(tool_call_id).len() == 0
                || trim_seq(tool_name).len() == 0))
        },
        _ => false,
    }
}

/// A block that fails to convert fails every prefix that includes it.
proof fn lemma_convert_prefix_fails_at(
    e: HostTranscriptEntryView,
    role: TranscriptRole,
    k: int,
    n: nat,
)
    requires
        0 <= k < n <= e.content.len(),
        convert_block(e, role, e.content[k]) is Err,
    ensures
        convert_blocks_prefix(e, role, n) is Err,
    decreases n,
{
    if n > k + 1 {
        lemma_convert_prefix_fails_at(e, role, k, (n - 1) as nat);
    }
}

/// The warnings of a reconstruction are those of its entries, in transcript
/// order: one for each user or assistant entry without content, and one for
/// each non-text block dropped from a custom entry.
pub proof fn lemma_warnings_sum_over_entries(entries: Seq<HostTranscriptEntryView>)
    ensures
        reconstruct_spec(entries) is Ok ==> reconstruct_spec(entries)->Ok_0.1 == transcript_warnings(
            entries,
        ),
{
    if reconstruct_spec(entries) is Ok {
        lemma_history_run_shape(entries);
    }
}

/// Unsupported blocks are rejected: a transcript with a tool call block in
/// a user or tool-result entry, or an assistant tool call with a blank
/// identifier or name, never reconstructs.
pub proof fn lemma_unsupported_blocks_are_rejected(
    entries: Seq<HostTranscriptEntryView>,
    i: int,
    k: int,
)
    requires
        0 <= i < entries.len(),
        0 <= k < entries[i].content.len(),
        unsupported_block(entries[i].role, entries[i].content[k]),
    ensures
        reconstruct_spec(entries) is Err,
{
    let e = entries[i];
    let prefix = entries.take(i + 1);
    assert(prefix.drop_last() =~= entries.take(i));
    assert(prefix.last() == e);
    let n = e.content.len();
    match e.role {
        HostTranscriptRole::User => lemma_convert_prefix_fails_at(e, TranscriptRole::User, k, n),
        HostTranscriptRole::Assistant => lemma_convert_prefix_fails_at(
            e,
            TranscriptRole::Assistant,
            k,
            n,
        ),
        HostTranscriptRole::ToolResult => lemma_convert_prefix_fails_at(
            e,
            TranscriptRole::ToolResult,
            k,
            n,
        ),
        HostTranscriptRole::Custom => {},
    }
    assert(history_run(prefix) is Err);
    lemma_history_run_error_persists(entries, i + 1, entries.len() as int);
    assert(entries.take(entries.len() as int) =~= entries);
}

/// Tool results replay the assistant tool calls exactly: in a successful
/// reconstruction, the identifiers answered by the tool results, in order,
/// are the identifiers of the tool calls made, in order; no call is left
/// without its result and no result answers a call that was not made.
pub proof fn lemma_tool_results_replay_calls_in_order(entries: Seq<HostTranscriptEntryView>)
    ensures
        reconstruct_spec(entries) is Ok ==> {
            let messages = reconstruct_spec(entries)->Ok_0.0;
            history_result_ids(messages) == history_call_ids(messages)
        },
{
    if reconstruct_spec(entries) is Ok {
        lemma_history_run_shape(entries);
        let st = history_run(entries)->Ok_0;
        assert(call_ids(st.pending) =~= Seq::<Seq<char>>::empty());
        assert(history_result_ids(st.messages) + call_ids(st.pending) =~= history_result_ids(
            st.messages,
        ));
    }
}

/// A transcript whose run leaves tool calls unresolved is rejected, and the
/// failure names the unresolved identifiers.
pub proof fn lemma_unresolved_calls_are_rejected(entries: Seq<HostTranscriptEntryView>)
    ensures
        history_run(entries) is Ok && history_run(entries)->Ok_0.pending.len() > 0
            ==> reconstruct_spec(entries) == Err::<(Seq<MessageView>, Seq<HistoryWarningView>), Seq<char>>(
            ended_unresolved_message(history_run(entries)->Ok_0.pending),
        ),
{
}

/// The tool calls that a message makes, in order.
pub open spec fn message_calls(m: MessageView) -> Seq<CallRef> {
    match m {
        MessageView::Assistant { content, .. } => tool_calls_in(content),
        _ => Seq::empty(),
    }
}

/// Whether a message is the tool result answering a call.
pub open spec fn answers(m: MessageView, call: CallRef) -> bool {
    m matches MessageView::ToolResult { tool_call_id, tool_name, .. } && tool_call_id == call.0
        && tool_name == call.1
}

/// Whether the identifiers of a sequence of calls are pairwise distinct.
pub open spec fn distinct_call_ids(calls: Seq<CallRef>) -> bool {
    forall|a: int, b: int| 0 <= a < b < calls.len() ==> #[trigger] calls[a].0 != #[trigger] calls[b].0
}

/// The pairing of calls and results among the messages built so far, with
/// the calls still pending: the results that follow each batch answer its
/// calls in order; every result belongs to the batch before it; every
/// batch's identifiers are distinct; and every batch is complete except the
/// one still pending, whose remaining calls are the pending ones.
pub open spec fn batch_invariant(ms: Seq<MessageView>, pending: Seq<CallRef>) -> bool {
    &&& forall|i: int, j: int|
        0 <= i < ms.len() && 0 <= j < message_calls(ms[i]).len() && i + 1 + j < ms.len()
            ==> answers(#[trigger] ms[i + 1 + j], #[trigger] message_calls(ms[i])[j])
    &&& forall|t: int|
        0 <= t < ms.len() && (#[trigger] ms[t]) is ToolResult ==> exists|i: int|
            0 <= i < t && t <= i + message_calls(#[trigger] ms[i]).len()
    &&& forall|i: int| 0 <= i < ms.len() ==> distinct_call_ids(message_calls(#[trigger] ms[i]))
    &&& pending.len() == 0 ==> forall|i: int|
        0 <= i < ms.len() ==> i + message_calls(#[trigger] ms[i]).len() < ms.len()
    &&& pending.len() > 0 ==> exists|o: int|
        0 <= o < ms.len() && open_batch(ms, pending, o)
}

/// Whether message `o` holds the batch still pending, every other batch
/// being complete.
pub open spec fn open_batch(ms: Seq<MessageView>, pending: Seq<CallRef>, o: int) -> bool {
    &&& o + message_calls(ms[o]).len() >= ms.len()
    &&& pending == message_calls(ms[o]).skip(ms.len() - 1 - o)
    &&& forall|i: int|
        0 <= i < ms.len() && i != o ==> i + message_calls(#[trigger] ms[i]).len() < ms.len()
}

/// Calls without a first duplicate have distinct identifiers.
proof fn lemma_no_duplicate_distinct(calls: Seq<CallRef>)
    requires
        first_duplicate_id(calls) is None,
    ensures
        distinct_call_ids(calls),
    decreases calls.len(),
{
    if calls.len() > 0 {
        let prev = calls.drop_last();
        lemma_no_duplicate_distinct(prev);
        assert forall|a: int, b: int| 0 <= a < b < calls.len() implies #[trigger] calls[a].0
            != #[trigger] calls[b].0 by {
            if b == calls.len() - 1 {
                assert(call_ids(prev)[a] == calls[a].0);
                if calls[a].0 == calls[b].0 {
                    assert(call_ids(prev).contains(calls.last().0));
                }
            } else {
                assert(prev[a] == calls[a] && prev[b] == calls[b]);
            }
        }
    }
}

/// One successful step keeps the pairing of calls and results.
proof fn lemma_batch_step(st: HistoryState, e: HostTranscriptEntryView)
    requires
        batch_invariant(st.messages, st.pending),
        history_step(st, e) is Ok,
    ensures
        batch_invariant(history_step(st, e)->Ok_0.messages, history_step(st, e)->Ok_0.pending),
{
    let st2 = history_step(st, e)->Ok_0;
    let ms = st.messages;
    let len = ms.len() as int;
    let m = st2.messages[len];
    assert(st2.messages =~= ms.push(m));
    let ms2 = st2.messages;
    assert forall|i: int| 0 <= i < len implies #[trigger] ms2[i] == ms[i] by {}
    match e.role {
        HostTranscriptRole::ToolResult => {
            assert(st.pending.len() > 0);
            let o = choose|o: int| 0 <= o < len && open_batch(ms, st.pending, o);
            let calls = message_calls(ms[o]);
            let pos = len - 1 - o;
            assert(st.pending[0] == calls[pos]);
            assert(answers(m, calls[pos]));
            assert(message_calls(m).len() == 0);
            assert(st2.pending =~= calls.skip(len - o));
            // results answer their calls
            assert forall|i: int, j: int|
                0 <= i < ms2.len() && 0 <= j < message_calls(ms2[i]).len() && i + 1 + j
                    < ms2.len() implies answers(
                #[trigger] ms2[i + 1 + j],
                #[trigger] message_calls(ms2[i])[j],
            ) by {
                if i + 1 + j == len {
                    if i != o {
                        assert(ms2[i] == ms[i]);
                        assert(i + message_calls(ms[i]).len() < len);
                    }
                    assert(j == pos);
                } else {
                    assert(ms2[i] == ms[i]);
                    assert(ms2[i + 1 + j] == ms[i + 1 + j]);
                }
            }
            assert forall|t: int|
                0 <= t < ms2.len() && (#[trigger] ms2[t]) is ToolResult implies exists|i: int|
                0 <= i < t && t <= i + message_calls(#[trigger] ms2[i]).len() by {
                if t == len {
                    assert(ms2[o] == ms[o]);
                    assert(0 <= o < t && t <= o + message_calls(ms2[o]).len());
                } else {
                    assert(ms2[t] == ms[t]);
                    let i = choose|i: int| 0 <= i < t && t <= i + message_calls(#[trigger] ms[i]).len();
                    assert(ms2[i] == ms[i]);
                }
            }
            assert forall|i: int| 0 <= i < ms2.len() implies distinct_call_ids(
                message_calls(#[trigger] ms2[i]),
            ) by {
                if i < len {
                    assert(ms2[i] == ms[i]);
                }
            }
            if st2.pending.len() == 0 {
                assert forall|i: int| 0 <= i < ms2.len() implies i + message_calls(
                    #[trigger] ms2[i],
                ).len() < ms2.len() by {
                    if i < len {
                        assert(ms2[i] == ms[i]);
                    }
                }
            } else {
                assert(ms2[o] == ms[o]);
                assert(message_calls(ms2[o]).skip(ms2.len() - 1 - o) =~= st2.pending);
                assert forall|i: int| 0 <= i < ms2.len() && i != o implies i + message_calls(
                    #[trigger] ms2[i],
                ).len() < ms2.len() by {
                    if i < len {
                        assert(ms2[i] == ms[i]);
                    }
                }
                assert(open_batch(ms2, st2.pending, o));
            }
        },
        _ => {
            assert(st.pending.len() == 0);
            assert forall|i: int, j: int|
                0 <= i < ms2.len() && 0 <= j < message_calls(ms2[i]).len() && i + 1 + j
                    < ms2.len() implies answers(
                #[trigger] ms2[i + 1 + j],
                #[trigger] message_calls(ms2[i])[j],
            ) by {
                assert(ms2[i] == ms[i]);
                assert(i + message_calls(ms[i]).len() < len);
                assert(ms2[i + 1 + j] == ms[i + 1 + j]);
            }
            assert forall|t: int|
                0 <= t < ms2.len() && (#[trigger] ms2[t]) is ToolResult implies exists|i: int|
                0 <= i < t && t <= i + message_calls(#[trigger] ms2[i]).len() by {
                assert(ms2[t] == ms[t]);
                let i = choose|i: int| 0 <= i < t && t <= i + message_calls(#[trigger] ms[i]).len();
                assert(ms2[i] == ms[i]);
            }
            if e.role == HostTranscriptRole::Assistant {
                lemma_no_duplicate_distinct(message_calls(m));
            }
            assert forall|i: int| 0 <= i < ms2.len() implies distinct_call_ids(
                message_calls(#[trigger] ms2[i]),
            ) by {
                if i < len {
                    assert(ms2[i] == ms[i]);
                }
            }
            assert(st2.pending == message_calls(m));
            if st2.pending.len() == 0 {
                assert forall|i: int| 0 <= i < ms2.len() implies i + message_calls(
                    #[trigger] ms2[i],
                ).len() < ms2.len() by {
                    if i < len {
                        assert(ms2[i] == ms[i]);
                    }
                }
            } else {
                assert(message_calls(ms2[len]).skip(ms2.len() - 1 - len) =~= st2.pending);
                assert forall|i: int| 0 <= i < ms2.len() && i != len implies i + message_calls(
                    #[trigger] ms2[i],
                ).len() < ms2.len() by {
                    assert(ms2[i] == ms[i]);
                }
                assert(open_batch(ms2, st2.pending, len));
            }
        },
    }
}

/// Every state that a successful run reaches pairs calls and results.
proof fn lemma_history_run_batches(entries: Seq<HostTranscriptEntryView>)
    requires
        history_run(entries) is Ok,
    ensures
        batch_invariant(history_run(entries)->Ok_0.messages, history_run(entries)->Ok_0.pending),
    decreases entries.len(),
{
    if entries.len() > 0 {
        let prev = entries.drop_last();
        lemma_history_run_batches(prev);
        lemma_batch_step(history_run(prev)->Ok_0, entries.last());
    }
}

/// Each assistant's tool calls are answered directly after it: in a
/// successful reconstruction, the `k` calls of an assistant message at `i`
/// have pairwise distinct identifiers and are answered, in order, by the
/// tool results at `i + 1` to `i + k`; and every tool result answers a call
/// of an assistant message before it.
pub proof fn lemma_tool_calls_followed_by_their_results(entries: Seq<HostTranscriptEntryView>)
    ensures
        reconstruct_spec(entries) is Ok ==> {
            let ms = reconstruct_spec(entries)->Ok_0.0;
            &&& forall|i: int, j: int|
                0 <= i < ms.len() && 0 <= j < message_calls(ms[i]).len() ==> i + 1 + j < ms.len()
                    && answers(#[trigger] ms[i + 1 + j], #[trigger] message_calls(ms[i])[j])
            &&& forall|i: int| 0 <= i < ms.len() ==> distinct_call_ids(message_calls(#[trigger] ms[i]))
            &&& forall|t: int|
                0 <= t < ms.len() && (#[trigger] ms[t]) is ToolResult ==> exists|i: int|
                    0 <= i < t && t <= i + message_calls(#[trigger] ms[i]).len()
        },
{
    if reconstruct_spec(entries) is Ok {
        lemma_history_run_batches(entries);
        let st = history_run(entries)->Ok_0;
        let ms = st.messages;
        assert forall|i: int, j: int|
            0 <= i < ms.len() && 0 <= j < message_calls(ms[i]).len() implies i + 1 + j < ms.len()
            && answers(#[trigger] ms[i + 1 + j], #[trigger] message_calls(ms[i])[j]) by {
            assert(i + message_calls(ms[i]).len() < ms.len());
        }
    }
}

/// The tool calls of a transcript entry: for an assistant entry, the
/// trimmed identifiers and names of its tool call blocks, in order.
pub open spec fn entry_calls(e: HostTranscriptEntryView) -> Seq<CallRef> {
    if e.role == HostTranscriptRole::Assistant {
        match convert_blocks_spec(e, TranscriptRole::Assistant) {
            Ok(bs) => tool_calls_in(bs),
            Err(_) => Seq::empty(),
        }
    } else {
        Seq::empty()
    }
}

/// Whether call `j` of entry `i` is answered by the entry `j + 1` places
/// after it: a tool-result entry naming the call's identifier and tool.
pub open spec fn result_follows(entries: Seq<HostTranscriptEntryView>, i: int, j: int) -> bool {
    &&& i + 1 + j < entries.len()
    &&& entries[i + 1 + j].role == HostTranscriptRole::ToolResult
    &&& entries[i + 1 + j].tool_call_id == Some(entry_calls(entries[i])[j].0)
    &&& entries[i + 1 + j].tool_name == Some(entry_calls(entries[i])[j].1)
}

/// A transcript that follows the pairing rules: no unsupported block; each
/// assistant entry's tool calls have distinct identifiers and are followed
/// directly by one tool-result entry each, in order, naming the call's
/// identifier and tool; and every tool-result entry is one of these.
pub open spec fn well_formed_transcript(entries: Seq<HostTranscriptEntryView>) -> bool {
    &&& forall|i: int, k: int|
        0 <= i < entries.len() && 0 <= k < entries[i].content.len() ==> !unsupported_block(
            entries[i].role,
            #[trigger] entries[i].content[k],
        )
    &&& forall|i: int| 0 <= i < entries.len() ==> distinct_call_ids(entry_calls(#[trigger] entries[i]))
    &&& forall|i: int, j: int|
        0 <= i < entries.len() && 0 <= j < entry_calls(entries[i]).len() ==> #[trigger] result_follows(
            entries,
            i,
            j,
        )
    &&& forall|t: int|
        0 <= t < entries.len() && (#[trigger] entries[t]).role == HostTranscriptRole::ToolResult
            ==> exists|i: int| 0 <= i < t && t <= i + entry_calls(#[trigger] entries[i]).len()
}

/// Blocks without an unsupported one convert under the entry's role.
proof fn lemma_supported_blocks_convert(e: HostTranscriptEntryView, role: TranscriptRole, n: nat)
    requires
        n <= e.content.len(),
        forall|k: int| 0 <= k < e.content.len() ==> !unsupported_block(e.role, #[trigger] e.content[k]),
        role == TranscriptRole::User ==> e.role == HostTranscriptRole::User,
        role == TranscriptRole::Assistant ==> e.role == HostTranscriptRole::Assistant,
        role == TranscriptRole::ToolResult ==> e.role == HostTranscriptRole::ToolResult,
    ensures
        convert_blocks_prefix(e, role, n) is Ok,
    decreases n,
{
    if n > 0 {
        lemma_supported_blocks_convert(e, role, (n - 1) as nat);
        assert(!unsupported_block(e.role, e.content[n - 1]));
    }
}

/// Distinct identifiers have no first duplicate.
proof fn lemma_distinct_no_duplicate(calls: Seq<CallRef>)
    requires
        distinct_call_ids(calls),
    ensures
        first_duplicate_id(calls) is None,
    decreases calls.len(),
{
    if calls.len() > 0 {
        let prev = calls.drop_last();
        assert(distinct_call_ids(prev)) by {
            assert forall|a: int, b: int| 0 <= a < b < prev.len() implies #[trigger] prev[a].0
                != #[trigger] prev[b].0 by {
                assert(prev[a] == calls[a] && prev[b] == calls[b]);
            }
        }
        lemma_distinct_no_duplicate(prev);
        if call_ids(prev).contains(calls.last().0) {
            let a = choose|a: int| 0 <= a < call_ids(prev).len() && call_ids(prev)[a] == calls.last().0;
            assert(calls[a].0 == calls[calls.len() - 1].0);
        }
    }
}

/// Among distinct calls, the name recorded for a call's identifier is its own.
proof fn lemma_find_distinct_call(calls: Seq<CallRef>, p: int)
    requires
        distinct_call_ids(calls),
        0 <= p < calls.len(),
    ensures
        find_call(calls, calls[p].0) == Some(calls[p].1),
    decreases calls.len(),
{
    if p > 0 {
        assert(calls[0].0 != calls[p].0);
        let rest = calls.drop_first();
        assert(distinct_call_ids(rest)) by {
            assert forall|a: int, b: int| 0 <= a < b < rest.len() implies #[trigger] rest[a].0
                != #[trigger] rest[b].0 by {
                assert(rest[a] == calls[a + 1] && rest[b] == calls[b + 1]);
            }
        }
        assert(rest[p - 1] == calls[p]);
        lemma_find_distinct_call(rest, p - 1);
    }
}

/// What the state after the first `n` entries of a well-formed transcript
/// holds: while an assistant's batch is open, its calls are the active ones,
/// the calls not yet answered are pending, and those answered are completed;
/// nothing is pending outside a batch.
pub open spec fn prefix_state_fits(
    entries: Seq<HostTranscriptEntryView>,
    n: int,
    st: HistoryState,
) -> bool {
    &&& forall|o: int|
        0 <= o < n && n <= o + entry_calls(#[trigger] entries[o]).len() ==> {
            &&& st.pending == entry_calls(entries[o]).skip(n - 1 - o)
            &&& st.active == entry_calls(entries[o])
            &&& st.completed == call_ids(entry_calls(entries[o]).take(n - 1 - o))
        }
    &&& st.pending.len() > 0 ==> exists|o: int|
        0 <= o < n && n <= o + entry_calls(#[trigger] entries[o]).len()
}

/// Only an assistant entry has tool calls.
proof fn lemma_entry_calls_assistant(e: HostTranscriptEntryView)
    ensures
        entry_calls(e).len() > 0 ==> e.role == HostTranscriptRole::Assistant,
{
}

/// A well-formed transcript reconstructs its first `n` entries, and the
/// state reached fits the prefix.
proof fn lemma_well_formed_prefix(entries: Seq<HostTranscriptEntryView>, n: int)
    requires
        well_formed_transcript(entries),
        0 <= n <= entries.len(),
    ensures
        history_run(entries.take(n)) is Ok,
        prefix_state_fits(entries, n, history_run(entries.take(n))->Ok_0),
    decreases n,
{
    if n == 0 {
        assert(entries.take(0) =~= Seq::<HostTranscriptEntryView>::empty());
    } else {
        let m = n - 1;
        lemma_well_formed_prefix(entries, m);
        let st = history_run(entries.take(m))->Ok_0;
        let e = entries[m];
        assert(entries.take(n).drop_last() =~= entries.take(m));
        assert(entries.take(n).last() == e);
        assert forall|k: int| 0 <= k < e.content.len() implies !unsupported_block(
            e.role,
            #[trigger] e.content[k],
        ) by {
            assert(!unsupported_block(entries[m].role, entries[m].content[k]));
        }
        if e.role == HostTranscriptRole::ToolResult {
            let o = choose|o: int| 0 <= o < m && m <= o + entry_calls(#[trigger] entries[o]).len();
            let calls = entry_calls(entries[o]);
            let pos = m - 1 - o;
            assert(distinct_call_ids(calls));
            assert(result_follows(entries, o, pos));
            assert(entries[o + 1 + pos] == e);
            assert(e.tool_call_id == Some(calls[pos].0));
            assert(e.tool_name == Some(calls[pos].1));
            assert(st.pending == calls.skip(pos));
            assert(st.active == calls);
            assert(st.completed == call_ids(calls.take(pos)));
            lemma_find_distinct_call(calls, pos);
            assert(st.pending[0] == calls[pos]);
            if st.completed.contains(calls[pos].0) {
                let a = choose|a: int| 0 <= a < st.completed.len() && st.completed[a] == calls[pos].0;
                assert(calls[a].0 == calls[pos].0);
            }
            lemma_supported_blocks_convert(e, TranscriptRole::ToolResult, e.content.len());
            assert(history_step(st, e) is Ok);
            let st2 = history_step(st, e)->Ok_0;
            assert(st2.pending =~= calls.skip(pos + 1));
            assert(st2.completed =~= call_ids(calls.take(pos + 1)));
            assert forall|o2: int|
                0 <= o2 < n && n <= o2 + entry_calls(#[trigger] entries[o2]).len() implies {
                &&& st2.pending == entry_calls(entries[o2]).skip(n - 1 - o2)
                &&& st2.active == entry_calls(entries[o2])
                &&& st2.completed == call_ids(entry_calls(entries[o2]).take(n - 1 - o2))
            } by {
                if o2 == m {
                    lemma_entry_calls_assistant(entries[m]);
                } else if o2 != o {
                    if o2 < o {
                        let j = o - o2 - 1;
                        assert(result_follows(entries, o2, j));
                        assert(entries[o2 + 1 + j] == entries[o]);
                        lemma_entry_calls_assistant(entries[o]);
                    } else {
                        let j = o2 - o - 1;
                        assert(result_follows(entries, o, j));
                        assert(entries[o + 1 + j] == entries[o2]);
                        lemma_entry_calls_assistant(entries[o2]);
                    }
                }
            }
            if st2.pending.len() > 0 {
                assert(0 <= o < n && n <= o + entry_calls(entries[o]).len());
            }
        } else {
            if st.pending.len() > 0 {
                let o = choose|o: int| 0 <= o < m && m <= o + entry_calls(#[trigger] entries[o]).len();
                let j = m - 1 - o;
                assert(result_follows(entries, o, j));
                assert(entries[o + 1 + j] == e);
            }
            assert(st.pending.len() == 0);
            match e.role {
                HostTranscriptRole::User => {
                    lemma_supported_blocks_convert(e, TranscriptRole::User, e.content.len());
                },
                HostTranscriptRole::Assistant => {
                    lemma_supported_blocks_convert(e, TranscriptRole::Assistant, e.content.len());
                    assert(distinct_call_ids(entry_calls(entries[m])));
                    lemma_distinct_no_duplicate(entry_calls(e));
                },
                _ => {},
            }
            assert(history_step(st, e) is Ok);
            let st2 = history_step(st, e)->Ok_0;
            assert forall|o2: int|
                0 <= o2 < n && n <= o2 + entry_calls(#[trigger] entries[o2]).len() implies {
                &&& st2.pending == entry_calls(entries[o2]).skip(n - 1 - o2)
                &&& st2.active == entry_calls(entries[o2])
                &&& st2.completed == call_ids(entry_calls(entries[o2]).take(n - 1 - o2))
            } by {
                if o2 < m {
                    let j = m - 1 - o2;
                    assert(result_follows(entries, o2, j));
                    assert(entries[o2 + 1 + j] == e);
                } else {
                    assert(o2 == m);
                    lemma_entry_calls_assistant(e);
                    assert(entry_calls(e).skip(0) =~= entry_calls(e));
                    assert(call_ids(entry_calls(e).take(0)) =~= Seq::<Seq<char>>::empty());
                    assert(st2.completed =~= Seq::<Seq<char>>::empty());
                }
            }
            if st2.pending.len() > 0 {
                lemma_entry_calls_assistant(e);
                assert(e.role == HostTranscriptRole::Assistant);
                assert(st2.pending == entry_calls(entries[m]));
                assert(0 <= m < n && n <= m + entry_calls(entries[m]).len());
            }
        }
    }
}

/// A transcript that follows the pairing rules always reconstructs.
pub proof fn lemma_well_formed_transcript_reconstructs(entries: Seq<HostTranscriptEntryView>)
    requires
        well_formed_transcript(entries),
    ensures
        reconstruct_spec(entries) is Ok,
{
    let n = entries.len() as int;
    lemma_well_formed_prefix(entries, n);
    assert(entries.take(n) =~= entries);
    let st = history_run(entries)->Ok_0;
    if st.pending.len() > 0 {
        let o = choose|o: int| 0 <= o < n && n <= o + entry_calls(#[trigger] entries[o]).len();
        assert(entry_calls(entries[o]).len() > 0);
        let j = entry_calls(entries[o]).len() - 1;
        assert(result_follows(entries, o, j));
    }
}

/// A transcript reconstructs exactly when it follows the pairing rules: in
/// entry terms, a successful reconstruction means no unsupported block, and
/// each assistant entry's trimmed tool calls have distinct identifiers and
/// are answered, in order, by the tool-result entries directly after it,
/// every tool-result entry answering such a call.
pub proof fn lemma_reconstructs_iff_well_formed(entries: Seq<HostTranscriptEntryView>)
    ensures
        reconstruct_spec(entries) is Ok <==> well_formed_transcript(entries),
{
    if well_formed_transcript(entries) {
        lemma_well_formed_transcript_reconstructs(entries);
    }
    if reconstruct_spec(entries) is Ok {
        lemma_history_run_shape(entries);
        lemma_history_run_batches(entries);
        let st = history_run(entries)->Ok_0;
        let ms = st.messages;
        assert forall|i: int| 0 <= i < entries.len() implies message_calls(#[trigger] ms[i])
            == entry_calls(entries[i]) by {
            assert(message_fits_entry(ms[i], entries[i]));
        }
        assert forall|i: int, k: int|
            0 <= i < entries.len() && 0 <= k < entries[i].content.len() implies !unsupported_block(
            entries[i].role,
            #[trigger] entries[i].content[k],
        ) by {
            if unsupported_block(entries[i].role, entries[i].content[k]) {
                lemma_unsupported_blocks_are_rejected(entries, i, k);
            }
        }
        assert forall|i: int| 0 <= i < entries.len() implies distinct_call_ids(
            entry_calls(#[trigger] entries[i]),
        ) by {
            assert(message_calls(ms[i]) == entry_calls(entries[i]));
        }
        assert forall|i: int, j: int|
            0 <= i < entries.len() && 0 <= j < entry_calls(entries[i]).len() implies #[trigger] result_follows(
            entries,
            i,
            j,
        ) by {
            assert(message_calls(ms[i]) == entry_calls(entries[i]));
            assert(i + message_calls(ms[i]).len() < ms.len());
            assert(answers(ms[i + 1 + j], message_calls(ms[i])[j]));
            assert(message_fits_entry(ms[i + 1 + j], entries[i + 1 + j]));
        }
        assert forall|t: int|
            0 <= t < entries.len() && (#[trigger] entries[t]).role == HostTranscriptRole::ToolResult
                implies exists|i: int| 0 <= i < t && t <= i + entry_calls(#[trigger] entries[i]).len() by {
            assert(message_role(ms[t]) == entries[t].role);
            assert(ms[t] is ToolResult);
            let i = choose|i: int| 0 <= i < t && t <= i + message_calls(#[trigger] ms[i]).len();
            assert(message_calls(ms[i]) == entry_calls(entries[i]));
        }
    }
}

/// The number of non-text blocks among the first `n` blocks.
pub open spec fn non_text_count(content: Seq<HostContentBlockView>, n: nat) -> nat
    decreases n,
{
    if n == 0 {
        0
    } else {
        non_text_count(content, (n - 1) as nat) + if content[n - 1] is Text {
            0nat
        } else {
            1nat
        }
    }
}

/// The number of warnings an entry owes: one for a user or assistant entry
/// without content, one per non-text block of a custom entry.
pub open spec fn entry_warning_count(e: HostTranscriptEntryView) -> nat {
    match e.role {
        HostTranscriptRole::User | HostTranscriptRole::Assistant => if e.content.len() == 0 {
            1nat
        } else {
            0nat
        },
        HostTranscriptRole::ToolResult => 0,
        HostTranscriptRole::Custom => non_text_count(e.content, e.content.len()),
    }
}

/// The number of warnings a transcript owes, summed over its entries.
pub open spec fn transcript_warning_count(entries: Seq<HostTranscriptEntryView>) -> nat
    decreases entries.len(),
{
    if entries.len() == 0 {
        0
    } else {
        transcript_warning_count(entries.drop_last()) + entry_warning_count(entries.last())
    }
}

/// A successful conversion keeps one block per host block.
proof fn lemma_convert_prefix_len(e: HostTranscriptEntryView, role: TranscriptRole, n: nat)
    requires
        n <= e.content.len(),
        convert_blocks_prefix(e, role, n) is Ok,
    ensures
        convert_blocks_prefix(e, role, n)->Ok_0.len() == n,
    decreases n,
{
    if n > 0 {
        lemma_convert_prefix_len(e, role, (n - 1) as nat);
    }
}

/// A custom entry warns once per non-text block.
proof fn lemma_custom_warnings_len(e: HostTranscriptEntryView, n: nat)
    requires
        n <= e.content.len(),
    ensures
        custom_warnings(e, n).len() == non_text_count(e.content, n),
    decreases n,
{
    if n > 0 {
        lemma_custom_warnings_len(e, (n - 1) as nat);
    }
}

/// The warnings of a reconstructable transcript number exactly what its
/// entries owe.
proof fn lemma_transcript_warnings_len(entries: Seq<HostTranscriptEntryView>)
    requires
        history_run(entries) is Ok,
    ensures
        transcript_warnings(entries).len() == transcript_warning_count(entries),
    decreases entries.len(),
{
    if entries.len() > 0 {
        let prev = entries.drop_last();
        let e = entries.last();
        assert(history_run(prev) is Ok);
        lemma_transcript_warnings_len(prev);
        let st = history_run(prev)->Ok_0;
        assert(history_step(st, e) is Ok);
        match e.role {
            HostTranscriptRole::User => {
                lemma_convert_prefix_len(e, TranscriptRole::User, e.content.len());
            },
            HostTranscriptRole::Assistant => {
                lemma_convert_prefix_len(e, TranscriptRole::Assistant, e.content.len());
            },
            HostTranscriptRole::ToolResult => {},
            HostTranscriptRole::Custom => {
                lemma_custom_warnings_len(e, e.content.len());
            },
        }
    }
}

/// The number of warnings of a successful reconstruction is the number of
/// user or assistant entries without content plus the number of non-text
/// blocks dropped from custom entries.
pub proof fn lemma_warning_count(entries: Seq<HostTranscriptEntryView>)
    ensures
        reconstruct_spec(entries) is Ok ==> reconstruct_spec(entries)->Ok_0.1.len()
            == transcript_warning_count(entries),
{
    if reconstruct_spec(entries) is Ok {
        lemma_history_run_shape(entries);
        lemma_transcript_warnings_len(entries);
    }
}

/// Whether a converted block is the one owed for a host block under a role:
/// the block keeps its kind and payload, an image's bytes becoming standard
/// base64 text, and a tool call (only valid for an assistant) keeping its
/// arguments under its trimmed identifier and name.
pub open spec fn block_kept(role: TranscriptRole, b: HostContentBlockView, c: ContentBlockView) -> bool {
    match b {
        HostContentBlockView::Text { text } => c == ContentBlockView::Text { text },
        HostContentBlockView::Thinking { text } => c == ContentBlockView::Thinking { thinking: text },
        HostContentBlockView::Image { mime_type, data } => c == ContentBlockView::Image {
            data: base64_standard(data),
            mime_type,
        },
        HostContentBlockView::ToolCall { tool_call_id, tool_name, arguments } => {
            &&& role == TranscriptRole::Assistant
            &&& c == ContentBlockView::ToolCall {
                id: trim_seq(tool_call_id),
                name: trim_seq(tool_name),
                arguments,
            }
        },
    }
}

/// Conversion of a prefix keeps each block's kind, position and payload.
proof fn lemma_convert_prefix_keeps_blocks(e: HostTranscriptEntryView, role: TranscriptRole, n: nat)
    requires
        n <= e.content.len(),
        convert_blocks_prefix(e, role, n) is Ok,
    ensures
        convert_blocks_prefix(e, role, n)->Ok_0.len() == n,
        forall|k: int|
            0 <= k < n ==> block_kept(
                role,
                e.content[k],
                #[trigger] convert_blocks_prefix(e, role, n)->Ok_0[k],
            ),
    decreases n,
{
    if n > 0 {
        lemma_convert_prefix_keeps_blocks(e, role, (n - 1) as nat);
    }
}

/// Block conversion keeps every block's kind: a host text block becomes a
/// text block with the same text, a thinking block a thinking block with
/// the same reasoning (never visible text), an image an image of the same
/// type with its bytes in standard base64, and a tool call an assistant tool
/// call with trimmed identifier and name; one block comes out per block in.
pub proof fn lemma_block_conversion_keeps_kind(e: HostTranscriptEntryView, role: TranscriptRole)
    ensures
        convert_blocks_spec(e, role) is Ok ==> {
            let bs = convert_blocks_spec(e, role)->Ok_0;
            &&& bs.len() == e.content.len()
            &&& forall|k: int| 0 <= k < bs.len() ==> block_kept(role, e.content[k], #[trigger] bs[k])
        },
{
    if convert_blocks_spec(e, role) is Ok {
        lemma_convert_prefix_keeps_blocks(e, role, e.content.len());
    }
}

/// In a successful reconstruction, the content of each assistant and tool
/// result message is its entry's blocks, one for one, each of the same kind:
/// in particular an entry's thinking stays thinking and is never replayed as
/// visible text.
pub proof fn lemma_reconstruction_keeps_block_kinds(entries: Seq<HostTranscriptEntryView>)
    ensures
        reconstruct_spec(entries) is Ok ==> {
            let ms = reconstruct_spec(entries)->Ok_0.0;
            &&& forall|i: int|
                0 <= i < ms.len() && (#[trigger] ms[i]) is Assistant
                    ==> ms[i]->Assistant_content.len() == entries[i].content.len()
            &&& forall|i: int, k: int|
                0 <= i < ms.len() && ms[i] is Assistant && 0 <= k < entries[i].content.len()
                    ==> block_kept(
                    TranscriptRole::Assistant,
                    entries[i].content[k],
                    #[trigger] ms[i]->Assistant_content[k],
                )
            &&& forall|i: int|
                0 <= i < ms.len() && (#[trigger] ms[i]) is ToolResult
                    ==> ms[i]->ToolResult_content.len() == entries[i].content.len()
            &&& forall|i: int, k: int|
                0 <= i < ms.len() && ms[i] is ToolResult && 0 <= k < entries[i].content.len()
                    ==> block_kept(
                    TranscriptRole::ToolResult,
                    entries[i].content[k],
                    #[trigger] ms[i]->ToolResult_content[k],
                )
        },
{
    if reconstruct_spec(entries) is Ok {
        lemma_history_run_shape(entries);
        let ms = reconstruct_spec(entries)->Ok_0.0;
        assert forall|i: int| 0 <= i < ms.len() implies (ms[i] is Assistant
            ==> (#[trigger] ms[i])->Assistant_content.len() == entries[i].content.len() && forall|
            k: int,
        |
            0 <= k < entries[i].content.len() ==> block_kept(
                TranscriptRole::Assistant,
                entries[i].content[k],
                #[trigger] ms[i]->Assistant_content[k],
            )) && (ms[i] is ToolResult ==> ms[i]->ToolResult_content.len()
            == entries[i].content.len() && forall|k: int|
            0 <= k < entries[i].content.len() ==> block_kept(
                TranscriptRole::ToolResult,
                entries[i].content[k],
                #[trigger] ms[i]->ToolResult_content[k],
            )) by {
            assert(message_fits_entry(ms[i], entries[i]));
            lemma_block_conversion_keeps_kind(entries[i], TranscriptRole::Assistant);
            lemma_block_conversion_keeps_kind(entries[i], TranscriptRole::ToolResult);
        }
    }
}

} // verus!
