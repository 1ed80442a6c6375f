//! The decisions behind host-facing events: which embed events an agent
//! event turns into, how tool executions and errors are counted, and that a
//! turn ends with at most one terminal event.

use vstd::prelude::*;
use crate::model::StopReason;
use crate::text::strings_view;

verus! {

/// What the bridge reads of an assistant stream update.
#[derive(Debug, Clone, PartialEq, Eq)]
pub enum AssistantUpdate {
    /// A text delta.
    TextDelta { delta: String },
    /// The stream finished (done or error) for a reason.
    Finished { reason: StopReason },
    /// Any other stream update.
    Other,
}

/// What the bridge reads of an agent event.
#[derive(Debug, Clone, PartialEq, Eq)]
pub enum AgentEventSummary {
    /// An assistant message stream update.
    MessageUpdate { update: AssistantUpdate },
    /// A message completed; user messages are not reported.
    MessageEnd { is_user_message: bool },
    /// A tool began executing.
    ToolExecutionStart { tool_call_id: String, tool_name: String },
    /// A running tool reported progress.
    ToolExecutionUpdate { tool_call_id: String },
    /// A tool finished, possibly without having started (an aborted batch).
    ToolExecutionEnd { tool_call_id: String, tool_name: String, is_error: bool },
    /// Lifecycle events that the host does not see.
    Other,
}

/// An embed event that the bridge decides to emit; payloads that the bridge
/// does not read are forwarded from the agent event.
#[derive(Debug, Clone, PartialEq, Eq)]
pub enum BridgeEmission {
    /// The raw provider stream event.
    ProviderEvent,
    /// An assistant text delta.
    MessageDelta { text: String },
    /// The completed message.
    MessageCompleted,
    /// A tool started, with its arguments.
    ToolStarted { tool_call_id: String, tool_name: String },
    /// A tool's progress update.
    ToolUpdate { tool_call_id: String },
    /// A tool completed; `executed` tells whether it had started.
    ToolCompleted { tool_call_id: String, tool_name: String, is_error: bool, executed: bool },
}

/// The mathematical value of an emission.
pub enum EmissionView {
    ProviderEvent,
    MessageDelta { text: Seq<char> },
    MessageCompleted,
    ToolStarted { tool_call_id: Seq<char>, tool_name: Seq<char> },
    ToolUpdate { tool_call_id: Seq<char> },
    ToolCompleted { tool_call_id: Seq<char>, tool_name: Seq<char>, is_error: bool, executed: bool },
}

impl View for BridgeEmission {
    type V = EmissionView;

    open spec fn view(&self) -> EmissionView {
        match self {
            BridgeEmission::ProviderEvent => EmissionView::ProviderEvent,
            BridgeEmission::MessageDelta { text } => EmissionView::MessageDelta { text: text@ },
            BridgeEmission::MessageCompleted => EmissionView::MessageCompleted,
            BridgeEmission::ToolStarted { tool_call_id, tool_name } => EmissionView::ToolStarted {
                tool_call_id: tool_call_id@,
                tool_name: tool_name@,
            },
            BridgeEmission::ToolUpdate { tool_call_id } => EmissionView::ToolUpdate {
                tool_call_id: tool_call_id@,
            },
            BridgeEmission::ToolCompleted { tool_call_id, tool_name, is_error, executed } =>
                EmissionView::ToolCompleted {
                tool_call_id: tool_call_id@,
                tool_name: tool_name@,
                is_error: *is_error,
                executed: *executed,
            },
        }
    }
}

/// The views of emissions.
pub open spec fn emissions_view(e: Seq<BridgeEmission>) -> Seq<EmissionView> {
    e.map_values(|x: BridgeEmission| x@)
}

/// The mathematical value of an agent event summary.
pub enum AgentEventView {
    TextDelta { delta: Seq<char> },
    Finished { reason: StopReason },
    OtherUpdate,
    MessageEnd { is_user_message: bool },
    ToolExecutionStart { tool_call_id: Seq<char>, tool_name: Seq<char> },
    ToolExecutionUpdate { tool_call_id: Seq<char> },
    ToolExecutionEnd { tool_call_id: Seq<char>, tool_name: Seq<char>, is_error: bool },
    Other,
}

impl View for AgentEventSummary {
    type V = AgentEventView;

    open spec fn view(&self) -> AgentEventView {
        match self {
            AgentEventSummary::MessageUpdate { update } => match update {
                AssistantUpdate::TextDelta { delta } => AgentEventView::TextDelta { delta: delta@ },
                AssistantUpdate::Finished { reason } => AgentEventView::Finished { reason: *reason },
                AssistantUpdate::Other => AgentEventView::OtherUpdate,
            },
            AgentEventSummary::MessageEnd { is_user_message } => AgentEventView::MessageEnd {
                is_user_message: *is_user_message,
            },
            AgentEventSummary::ToolExecutionStart { tool_call_id, tool_name } =>
                AgentEventView::ToolExecutionStart {
                tool_call_id: tool_call_id@,
                tool_name: tool_name@,
            },
            AgentEventSummary::ToolExecutionUpdate { tool_call_id } =>
                AgentEventView::ToolExecutionUpdate { tool_call_id: tool_call_id@ },
            AgentEventSummary::ToolExecutionEnd { tool_call_id, tool_name, is_error } =>
                AgentEventView::ToolExecutionEnd {
                tool_call_id: tool_call_id@,
                tool_name: tool_name@,
                is_error: *is_error,
            },
            AgentEventSummary::Other => AgentEventView::Other,
        }
    }
}

/// The counters and flags of one turn's event bridge.
#[derive(Debug, Clone)]
pub struct EventBridgeState {
    /// Host tools that entered execution and finished.
    pub tool_calls_executed: usize,
    /// Whether any error was observed.
    pub had_errors: bool,
    /// Whether the terminal event (completed or failed) has been emitted.
    pub terminal_emitted: bool,
    /// Tools that started and have not finished, by call identifier.
    pub started_tools: Vec<String>,
}

/// The mathematical value of the bridge state.
pub struct BridgeView {
    pub tool_calls_executed: nat,
    pub had_errors: bool,
    pub terminal_emitted: bool,
    pub started: Seq<Seq<char>>,
}

impl View for EventBridgeState {
    type V = BridgeView;

    open spec fn view(&self) -> BridgeView {
        BridgeView {
            tool_calls_executed: self.tool_calls_executed as nat,
            had_errors: self.had_errors,
            terminal_emitted: self.terminal_emitted,
            started: strings_view(self.started_tools@),
        }
    }
}

/// A stream that finishes for these reasons reports an error.
pub open spec fn is_failure_reason(reason: StopReason) -> bool {
    reason == StopReason::Error || reason == StopReason::Aborted
}

/// The first position of an identifier in a list (the length when absent).
pub open spec fn first_index(list: Seq<Seq<char>>, id: Seq<char>) -> int
    decreases list.len(),
{
    if list.len() == 0 {
        0
    } else if list[0] == id {
        0
    } else {
        1 + first_index(list.drop_first(), id)
    }
}

/// A position holding the identifier, after positions that do not, is the
/// first position.
proof fn lemma_first_index(list: Seq<Seq<char>>, id: Seq<char>, k: int)
    requires
        0 <= k < list.len(),
        list[k] == id,
        forall|j: int| 0 <= j < k ==> list[j] != id,
    ensures
        first_index(list, id) == k,
    decreases k,
{
    if k > 0 {
        lemma_first_index(list.drop_first(), id, k - 1);
    }
}

/// The bridge state and the emissions after one agent event.
pub open spec fn bridge_event(s: BridgeView, e: AgentEventView) -> (BridgeView, Seq<EmissionView>) {
    match e {
        AgentEventView::TextDelta { delta } => (
            s,
            seq![EmissionView::ProviderEvent, EmissionView::MessageDelta { text: delta }],
        ),
        AgentEventView::Finished { reason } => (
            BridgeView { had_errors: s.had_errors || is_failure_reason(reason), ..s },
            seq![EmissionView::ProviderEvent],
        ),
        AgentEventView::OtherUpdate => (s, seq![EmissionView::ProviderEvent]),
        AgentEventView::MessageEnd { is_user_message } => (
            s,
            if is_user_message {
                Seq::empty()
            } else {
                seq![EmissionView::MessageCompleted]
            },
        ),
        AgentEventView::ToolExecutionStart { tool_call_id, tool_name } => (
            BridgeView { started: s.started.push(tool_call_id), ..s },
            seq![EmissionView::ToolStarted { tool_call_id, tool_name }],
        ),
        AgentEventView::ToolExecutionUpdate { tool_call_id } => (
            s,
            seq![EmissionView::ToolUpdate { tool_call_id }],
        ),
        AgentEventView::ToolExecutionEnd { tool_call_id, tool_name, is_error } => {
            let executed = s.started.contains(tool_call_id);
            (
                BridgeView {
                    tool_calls_executed: if executed {
                        s.tool_calls_executed + 1
                    } else {
                        s.tool_calls_executed
                    },
                    had_errors: s.had_errors || is_error,
                    started: if executed {
                        s.started.remove(first_index(s.started, tool_call_id))
                    } else {
                        s.started
                    },
                    ..s
                },
                seq![EmissionView::ToolCompleted { tool_call_id, tool_name, is_error, executed }],
            )
        },
        AgentEventView::Other => (s, Seq::empty()),
    }
}

impl EventBridgeState {
    /// A fresh bridge: nothing counted, no errors, no terminal event.
    pub fn new() -> (r: Self)
        ensures
            r.tool_calls_executed == 0,
            !r.had_errors,
            !r.terminal_emitted,
            r.started_tools@.len() == 0,
    {
        EventBridgeState {
            tool_calls_executed: 0,
            had_errors: false,
            terminal_emitted: false,
            started_tools: Vec::new(),
        }
    }

    /// Decide whether the turn-completed event is emitted: only when no
    /// terminal event was emitted before.
    pub fn emit_turn_completed(&mut self) -> (emit: bool)
        ensures
            emit == !old(self).terminal_emitted,
            final(self)@ == (BridgeView { terminal_emitted: true, ..old(self)@ }),
    {
        let emit = !self.terminal_emitted;
        self.terminal_emitted = true;
        emit
    }

    /// Record a failure and decide whether the turn-failed event is emitted:
    /// only when no terminal event was emitted before.
    pub fn emit_turn_failed(&mut self) -> (emit: bool)
        ensures
            emit == !old(self).terminal_emitted,
            final(self)@ == (BridgeView { terminal_emitted: true, had_errors: true, ..old(self)@ }),
    {
        let emit = !self.terminal_emitted;
        self.had_errors = true;
        self.terminal_emitted = true;
        emit
    }

    /// Position of a started tool, if it started.
    fn find_started(&self, id: &String) -> (r: Option<usize>)
        ensures
            match r {
                Some(k) => k < self.started_tools@.len() && first_index(self@.started, id@) == k
                    && self@.started.contains(id@),
                None => !self@.started.contains(id@),
            },
    {
        let mut k: usize = 0;
        while k < self.started_tools.len()
            invariant
                k <= self.started_tools@.len(),
                forall|j: int| 0 <= j < k ==> self@.started[j] != id@,
            decreases self.started_tools@.len() - k,
        {
            if self.started_tools[k] == *id {
                proof {
                    lemma_first_index(self@.started, id@, k as int);
                    assert(self@.started[k as int] == id@);
                }
                return Some(k);
            }
            k = k + 1;
        }
        None
    }

    /// Translate one agent event: update the counters and return the embed
    /// events to emit, in order.
    pub fn handle_agent_event(&mut self, event: AgentEventSummary) -> (r: Vec<BridgeEmission>)
        requires
            event matches AgentEventSummary::ToolExecutionEnd { tool_call_id, .. }
                && old(self)@.started.contains(tool_call_id@) ==> old(self).tool_calls_executed
                < usize::MAX,
        ensures
            ({
                let (s, emitted) = bridge_event(old(self)@, event@);
                &&& final(self)@.tool_calls_executed == s.tool_calls_executed
                &&& final(self)@.had_errors == s.had_errors
                &&& final(self)@.terminal_emitted == s.terminal_emitted
                &&& final(self)@.started == s.started
                &&& emissions_view(r@) == emitted
            }),
    {
        let ghost before = self@;
        let r = match event {
            AgentEventSummary::MessageUpdate { update } => match update {
                AssistantUpdate::TextDelta { delta } => vec![
                    BridgeEmission::ProviderEvent,
                    BridgeEmission::MessageDelta { text: delta },
                ],
                AssistantUpdate::Finished { reason } => {
                    if reason == StopReason::Error || reason == StopReason::Aborted {
                        self.had_errors = true;
                    }
                    vec![BridgeEmission::ProviderEvent]
                },
                AssistantUpdate::Other => vec![BridgeEmission::ProviderEvent],
            },
            AgentEventSummary::MessageEnd { is_user_message } => {
                if is_user_message {
                    Vec::new()
                } else {
                    vec![BridgeEmission::MessageCompleted]
                }
            },
            AgentEventSummary::ToolExecutionStart { tool_call_id, tool_name } => {
                let ghost started_before = self@.started;
                self.started_tools.push(tool_call_id.clone());
                proof {
                    assert(self@.started =~= started_before.push(tool_call_id@));
                }
                vec![BridgeEmission::ToolStarted { tool_call_id, tool_name }]
            },
            AgentEventSummary::ToolExecutionUpdate { tool_call_id } => {
                vec![BridgeEmission::ToolUpdate { tool_call_id }]
            },
            AgentEventSummary::ToolExecutionEnd { tool_call_id, tool_name, is_error } => {
                let executed = match self.find_started(&tool_call_id) {
                    Some(k) => {
                        let ghost started_before = self@.started;
                        self.started_tools.remove(k);
                        proof {
                            assert(strings_view(self.started_tools@) =~= started_before.remove(
                                k as int,
                            ));
                        }
                        self.tool_calls_executed = self.tool_calls_executed + 1;
                        true
                    },
                    None => false,
                };
                if is_error {
                    self.had_errors = true;
                }
                vec![BridgeEmission::ToolCompleted { tool_call_id, tool_name, is_error, executed }]
            },
            AgentEventSummary::Other => Vec::new(),
        };
        proof {
            assert(emissions_view(r@) =~= bridge_event(before, event@).1);
        }
        r
    }
}


/// An operation on the bridge during a turn.
pub enum BridgeOp {
    /// An agent event.
    Event(AgentEventView),
    /// The turn completed.
    Completed,
    /// The turn failed.
    Failed,
}

/// The bridge state after an operation, and whether a terminal event was
/// emitted by it.
pub open spec fn bridge_apply(s: BridgeView, op: BridgeOp) -> (BridgeView, bool) {
    match op {
        BridgeOp::Event(e) => (bridge_event(s, e).0, false),
        BridgeOp::Completed => (BridgeView { terminal_emitted: true, ..s }, !s.terminal_emitted),
        BridgeOp::Failed => (
            BridgeView { terminal_emitted: true, had_errors: true, ..s },
            !s.terminal_emitted,
        ),
    }
}

/// The bridge state after a sequence of operations.
pub open spec fn bridge_after(s: BridgeView, ops: Seq<BridgeOp>) -> BridgeView
    decreases ops.len(),
{
    if ops.len() == 0 {
        s
    } else {
        bridge_after(bridge_apply(s, ops[0]).0, ops.drop_first())
    }
}

/// The number of terminal events emitted by a sequence of operations.
pub open spec fn terminal_events(s: BridgeView, ops: Seq<BridgeOp>) -> nat
    decreases ops.len(),
{
    if ops.len() == 0 {
        0
    } else {
        (if bridge_apply(s, ops[0]).1 {
            1nat
        } else {
            0nat
        }) + terminal_events(bridge_apply(s, ops[0]).0, ops.drop_first())
    }
}

/// Agent events leave the terminal flag alone.
proof fn lemma_event_keeps_terminal(s: BridgeView, e: AgentEventView)
    ensures
        bridge_event(s, e).0.terminal_emitted == s.terminal_emitted,
        s.had_errors ==> bridge_event(s, e).0.had_errors,
{
}

/// A turn emits at most one terminal event (turn completed or turn failed),
/// and none once one has been emitted.
pub proof fn lemma_at_most_one_terminal_event(s: BridgeView, ops: Seq<BridgeOp>)
    ensures
        terminal_events(s, ops) <= 1,
        s.terminal_emitted ==> terminal_events(s, ops) == 0,
    decreases ops.len(),
{
    if ops.len() > 0 {
        let (s2, emitted) = bridge_apply(s, ops[0]);
        lemma_at_most_one_terminal_event(s2, ops.drop_first());
        match ops[0] {
            BridgeOp::Event(e) => lemma_event_keeps_terminal(s, e),
            _ => {},
        }
    }
}

/// Errors are never forgotten: once the bridge has seen an error, it still
/// has after any further operations; and a failed turn always has errors.
pub proof fn lemma_errors_are_sticky(s: BridgeView, ops: Seq<BridgeOp>)
    ensures
        s.had_errors ==> bridge_after(s, ops).had_errors,
        ops.len() > 0 && ops.last() is Failed ==> bridge_after(s, ops).had_errors,
    decreases ops.len(),
{
    if ops.len() > 0 {
        let s2 = bridge_apply(s, ops[0]).0;
        match ops[0] {
            BridgeOp::Event(e) => lemma_event_keeps_terminal(s, e),
            _ => {},
        }
        lemma_errors_are_sticky(s2, ops.drop_first());
        if ops.len() == 1 && ops.last() is Failed {
            assert(ops[0] is Failed);
            assert(ops.drop_first().len() == 0);
        }
        if ops.len() > 1 {
            assert(ops.drop_first().last() == ops.last());
        }
    }
}

/// Only tools that started are counted as executed: a tool end that was not
/// preceded by its start reports `executed == false` and leaves the count
/// unchanged, while the end of a started tool counts it once.
pub proof fn lemma_only_started_tools_count(
    s: BridgeView,
    tool_call_id: Seq<char>,
    tool_name: Seq<char>,
    is_error: bool,
)
    ensures
        ({
            let (s2, emitted) = bridge_event(
                s,
                AgentEventView::ToolExecutionEnd { tool_call_id, tool_name, is_error },
            );
            &&& s.started.contains(tool_call_id) ==> s2.tool_calls_executed == s.tool_calls_executed
                + 1
            &&& !s.started.contains(tool_call_id) ==> s2.tool_calls_executed
                == s.tool_calls_executed
            &&& emitted == seq![
                EmissionView::ToolCompleted {
                    tool_call_id,
                    tool_name,
                    is_error,
                    executed: s.started.contains(tool_call_id),
                },
            ]
        }),
{
}

/// A stream that finishes in error or aborted marks the turn as having had
/// errors; one that finishes normally (stop, length or tool use) leaves the
/// error flag as it was. Either way only the provider event is emitted and
/// nothing else of the bridge changes.
pub proof fn lemma_failed_streams_mark_errors(s: BridgeView, reason: StopReason)
    ensures
        ({
            let (s2, emitted) = bridge_event(s, AgentEventView::Finished { reason });
            &&& (reason == StopReason::Error || reason == StopReason::Aborted) ==> s2.had_errors
            &&& (reason == StopReason::Stop || reason == StopReason::Length || reason
                == StopReason::ToolUse) ==> s2.had_errors == s.had_errors
            &&& s2.tool_calls_executed == s.tool_calls_executed
            &&& s2.terminal_emitted == s.terminal_emitted
            &&& s2.started == s.started
            &&& emitted == seq![EmissionView::ProviderEvent]
        }),
{
}

} // verus!
