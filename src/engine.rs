//! The turn engine: the decisions of one task run, from seeding the
//! conversation to its end. Every outside step (a completion request, a tool
//! execution, a look at the clock) is made by the caller, which hands its
//! result to the engine and is told what to do next. Each lifecycle
//! transition is recorded as an event.
use vstd::prelude::*;
use crate::conversation::{
    calls_view, clone_calls, messages_view, opt_text, prune_messages, pruned, CallView, Message,
    MessageView, Role, ToolCall, text_message,
};
use crate::json::{json_str_field, json_str_field_of};
use crate::text::{blank, decimal, decimal_text, is_blank, same_text};
use crate::tool_log::{
    changes_view, error_json_of, command_result, command_result_of, command_text_of, parse_patch_changes,
    patch_changes_of, patch_status, patch_succeeded, text_or_empty, tool_command_string, tool_error,
    ChangeKind, FileChange,
};
use crate::transport::{is_context_error, lower_of, names_context_length};
use crate::usage::{token_usage_from_usage, usage_of, usage_sum, TokenUsage, Usage};

verus! {

/// The user message that asks the model to go on when it replied without a
/// tool call while submission is enabled.
pub const CONTINUE_MESSAGE: &'static str = "Please proceed to the next step using your best judgement. If you believe you are finished, double check your work to continue to refine and improve your submission.";

/// The error given to every tool call of a reply but the first.
pub const MULTIPLE_CALLS_MESSAGE: &'static str = "Multiple tool calls in one step are not supported.";

/// The warning that ends a run whose conversation cannot be pruned further.
pub const CONTEXT_EXCEEDED_MESSAGE: &'static str = "Terminated: context length exceeded.";

/// The warning that ends a run whose time limit has passed.
pub const TIME_LIMIT_MESSAGE: &'static str = "Terminated: time_limit reached.";

/// Progress of an item.
#[derive(Clone, Copy, Debug, PartialEq, Eq, Structural)]
pub enum ItemStatus {
    InProgress,
    Completed,
    Failed,
}

/// A unit of work that the event log reports, with its run-scoped id.
#[derive(Debug)]
pub enum Item {
    /// Visible text of the model.
    AgentMessage { id: u64, text: String },
    /// A warning; logged with the kind tag `error`.
    Warning { id: u64, message: String },
    /// A shell or generic tool call.
    CommandExecution {
        id: u64,
        command: String,
        aggregated_output: String,
        exit_code: Option<i32>,
        status: ItemStatus,
    },
    /// A patch application.
    FileChange { id: u64, changes: Vec<FileChange>, status: ItemStatus },
}

/// A lifecycle transition of a run.
#[derive(Debug)]
pub enum Event {
    ThreadStarted { thread_id: String },
    TurnStarted { prompt: String, system_prompt: String, agents_instructions: Option<String> },
    ItemStarted { item: Item },
    ItemCompleted { item: Item },
    TurnCompleted { usage: TokenUsage },
    TurnFailed { message: String },
    Error { message: String },
}

/// How a dispatched tool call will be logged once it has run.
enum ToolLog {
    Command { id: u64, command: String },
    Patch { changes: Vec<FileChange> },
}

/// The model of how a dispatched tool call will be logged.
pub enum ToolLogView {
    Command { id: u64, command: Seq<char> },
    Patch { changes: Seq<(Seq<char>, ChangeKind)> },
}

/// The tool call handed out for execution, and the further calls of the same
/// reply that are answered with an error once it has run.
struct Pending {
    call: ToolCall,
    log: ToolLog,
    extra: Vec<ToolCall>,
}

/// The model of a run.
pub struct AgentState {
    pub messages: Seq<MessageView>,
    pub max_steps: Option<usize>,
    pub submit_enabled: bool,
    pub steps: usize,
    pub usage: TokenUsage,
    pub next_item_id: u64,
    pub events: Seq<Event>,
    pub pending: Option<(CallView, ToolLogView, Seq<CallView>)>,
}

/// The state of one task run.
pub struct Agent {
    messages: Vec<Message>,
    max_steps: Option<usize>,
    submit_enabled: bool,
    steps: usize,
    usage: TokenUsage,
    next_item_id: u64,
    events: Vec<Event>,
    pending: Option<Pending>,
}

impl View for Agent {
    type V = AgentState;

    closed spec fn view(&self) -> AgentState {
        AgentState {
            messages: messages_view(self.messages@),
            max_steps: self.max_steps,
            submit_enabled: self.submit_enabled,
            steps: self.steps,
            usage: self.usage,
            next_item_id: self.next_item_id,
            events: self.events@,
            pending: match self.pending {
                Some(p) => Some(
                    (
                        p.call@,
                        match p.log {
                            ToolLog::Command { id, command } => ToolLogView::Command {
                                id,
                                command: command@,
                            },
                            ToolLog::Patch { changes } => ToolLogView::Patch {
                                changes: changes_view(changes@),
                            },
                        },
                        calls_view(p.extra@),
                    ),
                ),
                None => None,
            },
        }
    }
}

/// The item id after `n`.
pub open spec fn next_id(n: u64) -> u64 {
    if n < u64::MAX {
        (n + 1) as u64
    } else {
        n
    }
}

pub open spec fn warning_event(e: Event, id: u64, text: Seq<char>) -> bool {
    e matches Event::ItemCompleted { item: Item::Warning { id: i, message } } && i == id && message@ == text
}

pub open spec fn agent_message_event(e: Event, id: u64, text: Seq<char>) -> bool {
    e matches Event::ItemCompleted { item: Item::AgentMessage { id: i, text: t } } && i == id && t@ == text
}

pub open spec fn turn_completed_event(e: Event, usage: TokenUsage) -> bool {
    e matches Event::TurnCompleted { usage: u } && u == usage
}

pub open spec fn error_event(e: Event, text: Seq<char>) -> bool {
    e matches Event::Error { message } && message@ == text
}

pub open spec fn turn_failed_event(e: Event, text: Seq<char>) -> bool {
    e matches Event::TurnFailed { message } && message@ == text
}

/// The start of a command execution: no output or exit code yet.
pub open spec fn command_started_event(e: Event, id: u64, command: Seq<char>) -> bool {
    &&& e matches Event::ItemStarted {
        item: Item::CommandExecution { id: i, command: c, aggregated_output: o, exit_code: x, status },
    }
    &&& i == id && c@ == command && o@.len() == 0 && x is None && status is InProgress
}

pub open spec fn status_of(ok: bool) -> ItemStatus {
    if ok {
        ItemStatus::Completed
    } else {
        ItemStatus::Failed
    }
}

pub open spec fn command_completed_event(
    e: Event,
    id: u64,
    command: Seq<char>,
    result: (Option<i32>, Seq<char>, bool),
) -> bool {
    &&& e matches Event::ItemCompleted {
        item: Item::CommandExecution { id: i, command: c, aggregated_output: o, exit_code: x, status },
    }
    &&& i == id && c@ == command && o@ == result.1 && x == result.0 && status == status_of(result.2)
}

pub open spec fn file_change_event(
    e: Event,
    id: u64,
    changes: Seq<(Seq<char>, ChangeKind)>,
    ok: bool,
) -> bool {
    e matches Event::ItemCompleted { item: Item::FileChange { id: i, changes: c, status } } && i == id
        && changes_view(c@) == changes && status == status_of(ok)
}

/// The text that ends a run whose step budget is spent.
pub open spec fn max_steps_text(m: usize) -> Seq<char> {
    "Terminated: max_steps ("@ + decimal(m as nat) + ") reached."@
}

/// What a successful completion leads to.
pub enum Reply {
    /// The run is over with this answer.
    Finished { answer: String },
    /// Execute this tool call, then hand its result to `finish_tool`.
    Dispatch { call: ToolCall },
    /// Go on with the next step.
    Continue,
    /// A `submit` call whose arguments hold no string `answer`: the run
    /// fails with this message, already logged as `error` and `turn.failed`.
    BadSubmit { message: String },
}

/// What a failed completion request leads to.
pub enum Recovery {
    /// The conversation was pruned: send the request again.
    Retry,
    /// The run is over with this message; the conversation cannot shrink.
    Exhausted { message: String },
    /// The run fails with the transport's error.
    Fail,
}

impl Agent {
    /// A run with an optional step budget; `submit_enabled` says whether the
    /// model ends the run by calling `submit`.
    pub fn new(max_steps: Option<usize>, submit_enabled: bool) -> (r: Agent)
        ensures
            r@.messages.len() == 0,
            r@.max_steps == max_steps,
            r@.submit_enabled == submit_enabled,
            r@.steps == 0,
            r@.usage == crate::usage::zero_usage(),
            r@.next_item_id == 0,
            r@.events.len() == 0,
            r@.pending is None,
    {
        Agent {
            messages: Vec::new(),
            max_steps,
            submit_enabled,
            steps: 0,
            usage: TokenUsage::new(),
            next_item_id: 0,
            events: Vec::new(),
            pending: None,
        }
    }

    /// The conversation, to build a request from.
    pub fn messages(&self) -> (r: &Vec<Message>)
        ensures
            messages_view(r@) == self@.messages,
    {
        &self.messages
    }

    /// The events recorded so far.
    pub fn events(&self) -> (r: &Vec<Event>)
        ensures
            r@ == self@.events,
    {
        &self.events
    }

    /// Hands the recorded events over, leaving none behind.
    pub fn take_events(&mut self) -> (r: Vec<Event>)
        ensures
            r@ == old(self)@.events,
            final(self)@ == (AgentState { events: Seq::empty(), ..old(self)@ }),
    {
        let mut out: Vec<Event> = Vec::new();
        std::mem::swap(&mut self.events, &mut out);
        out
    }

    /// The token usage summed over the run.
    pub fn usage(&self) -> (r: TokenUsage)
        ensures
            r == self@.usage,
    {
        self.usage
    }

    /// Steps begun so far.
    pub fn steps(&self) -> (r: usize)
        ensures
            r == self@.steps,
    {
        self.steps
    }

    fn fresh_id(&mut self) -> (r: u64)
        ensures
            r == old(self)@.next_item_id,
            final(self)@ == (AgentState { next_item_id: next_id(old(self)@.next_item_id), ..old(self)@ }),
    {
        let id = self.next_item_id;
        if self.next_item_id < u64::MAX {
            self.next_item_id = self.next_item_id + 1;
        }
        id
    }

    fn push_event(&mut self, e: Event)
        ensures
            final(self)@ == (AgentState { events: old(self)@.events.push(e), ..old(self)@ }),
    {
        self.events.push(e);
    }

    fn push_message(&mut self, m: Message)
        ensures
            final(self)@ == (AgentState { messages: old(self)@.messages.push(m@), ..old(self)@ }),
    {
        self.messages.push(m);
        proof {
            assert(messages_view(self.messages@) =~= messages_view(old(self).messages@).push(m@));
        }
    }

    fn log_warning(&mut self, message: &str)
        ensures
            warning_event(final(self)@.events.last(), old(self)@.next_item_id, message@),
            final(self)@ == (AgentState {
                next_item_id: next_id(old(self)@.next_item_id),
                events: final(self)@.events,
                ..old(self)@
            }),
            final(self)@.events.drop_last() == old(self)@.events,
            final(self)@.events.len() == old(self)@.events.len() + 1,
    {
        let id = self.fresh_id();
        let text = crate::text::string_of_chars(&crate::text::chars_of(message));
        self.push_event(Event::ItemCompleted { item: Item::Warning { id, message: text } });
    }

    fn log_agent_message(&mut self, text: &str)
        ensures
            agent_message_event(final(self)@.events.last(), old(self)@.next_item_id, text@),
            final(self)@ == (AgentState {
                next_item_id: next_id(old(self)@.next_item_id),
                events: final(self)@.events,
                ..old(self)@
            }),
            final(self)@.events.drop_last() == old(self)@.events,
            final(self)@.events.len() == old(self)@.events.len() + 1,
    {
        let id = self.fresh_id();
        let t = crate::text::string_of_chars(&crate::text::chars_of(text));
        self.push_event(Event::ItemCompleted { item: Item::AgentMessage { id, text: t } });
    }

    fn log_turn_completed(&mut self)
        ensures
            final(self)@ == (AgentState {
                events: old(self)@.events.push(Event::TurnCompleted { usage: old(self)@.usage }),
                ..old(self)@
            }),
    {
        let usage = self.usage;
        self.push_event(Event::TurnCompleted { usage });
    }

    /// Seeds the run: logs `thread.started` and `turn.started`, then adds the
    /// system prompt and the task to the conversation.
    pub fn start(
        &mut self,
        thread_id: String,
        task: String,
        system_prompt: String,
        agents_instructions: Option<String>,
    )
        ensures
            final(self)@.events == old(self)@.events.push(
                Event::ThreadStarted { thread_id },
            ).push(
                Event::TurnStarted {
                    prompt: task,
                    system_prompt,
                    agents_instructions,
                },
            ),
            final(self)@.messages == old(self)@.messages.push(text_message(Role::System, system_prompt@)).push(
                text_message(Role::User, task@),
            ),
            final(self)@.steps == old(self)@.steps,
            final(self)@.usage == old(self)@.usage,
            final(self)@.next_item_id == old(self)@.next_item_id,
            final(self)@.max_steps == old(self)@.max_steps,
            final(self)@.submit_enabled == old(self)@.submit_enabled,
            final(self)@.pending == old(self)@.pending,
    {
        let sys_text = system_prompt.clone();
        let task_text = task.clone();
        self.push_event(Event::ThreadStarted { thread_id });
        self.push_event(Event::TurnStarted { prompt: task, system_prompt, agents_instructions });
        self.push_message(Message::system(sys_text));
        self.push_message(Message::user(task_text));
    }

    /// The budget check at the top of a step. `time_up` says whether the time
    /// limit has passed. When the step budget is spent, or else the time is
    /// up, the run ends: a warning item and `turn.completed` are logged and the
    /// explanatory message is returned. Otherwise the step is counted.
    pub fn begin_step(&mut self, time_up: bool) -> (r: Option<String>)
        ensures
            begin_step_post(old(self)@, final(self)@, time_up, opt_text(r)),
    {
        if let Some(m) = self.max_steps {
            if self.steps >= m {
                let mut message = String::new();
                message.append("Terminated: max_steps (");
                let n = decimal_text(m as u64);
                message.append(n.as_str());
                message.append(") reached.");
                assert(message@ =~= max_steps_text(m));
                let ghost s0 = self@;
                self.log_warning(message.as_str());
                let ghost s1 = self@;
                self.log_turn_completed();
                proof {
                    lemma_two_events(s0, s1, self@);
                }
                return Some(message);
            }
        }
        if time_up {
            let ghost s0 = self@;
            self.log_warning(TIME_LIMIT_MESSAGE);
            let ghost s1 = self@;
            self.log_turn_completed();
            proof {
                lemma_two_events(s0, s1, self@);
            }
            return Some(crate::text::string_of_chars(&crate::text::chars_of(TIME_LIMIT_MESSAGE)));
        }
        if self.steps < usize::MAX {
            self.steps = self.steps + 1;
        }
        None
    }
}

/// The warning item and `turn.completed` that end a run with `text`.
pub open spec fn ends_with_warning(old: AgentState, new: AgentState, text: Seq<char>) -> bool {
    &&& new.events.len() == old.events.len() + 2
    &&& new.events.take(old.events.len() as int) == old.events
    &&& warning_event(new.events[old.events.len() as int], old.next_item_id, text)
    &&& turn_completed_event(new.events.last(), old.usage)
    &&& new == (AgentState { next_item_id: next_id(old.next_item_id), events: new.events, ..old })
}

proof fn lemma_two_events(s0: AgentState, s1: AgentState, s2: AgentState)
    requires
        s1.events.drop_last() == s0.events,
        s1.events.len() > 0,
        s2.events == s1.events.push(s2.events.last()),
    ensures
        s2.events.len() == s0.events.len() + 2,
        s2.events.take(s0.events.len() as int) == s0.events,
        s2.events[s0.events.len() as int] == s1.events.last(),
{
    assert(s2.events.take(s0.events.len() as int) =~= s0.events);
}

/// What `begin_step` owes: the step budget is checked first, then the time.
pub open spec fn begin_step_post(
    old: AgentState,
    new: AgentState,
    time_up: bool,
    r: Option<Seq<char>>,
) -> bool {
    match old.max_steps {
        Some(m) if old.steps >= m => r == Some(max_steps_text(m)) && ends_with_warning(
            old,
            new,
            max_steps_text(m),
        ),
        _ => if time_up {
            r == Some(TIME_LIMIT_MESSAGE@) && ends_with_warning(old, new, TIME_LIMIT_MESSAGE@)
        } else {
            r is None && new == (AgentState {
                steps: if old.steps < usize::MAX {
                    (old.steps + 1) as usize
                } else {
                    old.steps
                },
                ..old
            })
        },
    }
}

} // verus!

verus! {

/// A run that fails with `message`: `error` and then `turn.failed` are
/// logged, and nothing else changes.
pub open spec fn fails_with(old: AgentState, new: AgentState, message: Seq<char>) -> bool {
    &&& new.events.len() == old.events.len() + 2
    &&& new.events.take(old.events.len() as int) == old.events
    &&& error_event(new.events[old.events.len() as int], message)
    &&& turn_failed_event(new.events.last(), message)
    &&& new == (AgentState { events: new.events, ..old })
}

/// The message of a run whose `submit` call holds no string `answer`.
pub open spec fn bad_submit_text(arguments: Seq<char>) -> Seq<char> {
    "submit arguments hold no string answer: "@ + arguments
}

/// What `on_request_error` owes for a failed request whose error reads
/// `message`: a context-length error prunes the conversation and asks for a
/// retry while that shortens it, and ends the run once it does not; any other
/// error fails the run, logged as `error` and `turn.failed`.
pub open spec fn recovery_post(old: AgentState, new: AgentState, message: Seq<char>, r: Recovery) -> bool {
    if !names_context_length(lower_of(message)) {
        r is Fail && fails_with(old, new, message)
    } else {
        let shrunk = AgentState { messages: pruned(old.messages), ..old };
        if pruned(old.messages).len() < old.messages.len() {
            r is Retry && new == shrunk
        } else {
            &&& r matches Recovery::Exhausted { message: m } && m@ == CONTEXT_EXCEEDED_MESSAGE@
            &&& ends_with_warning(shrunk, new, CONTEXT_EXCEEDED_MESSAGE@)
        }
    }
}

impl Agent {
    /// Ends the run with a fatal error: logs `error` and `turn.failed` with
    /// `message`.
    pub fn fail(&mut self, message: &str)
        ensures
            fails_with(old(self)@, final(self)@, message@),
    {
        let ghost s0 = self@;
        let m1 = crate::text::string_of_chars(&crate::text::chars_of(message));
        let m2 = crate::text::string_of_chars(&crate::text::chars_of(message));
        self.push_event(Event::Error { message: m1 });
        self.push_event(Event::TurnFailed { message: m2 });
        assert(self@.events.take(s0.events.len() as int) =~= s0.events);
    }

    /// Handles a completion request that failed with the error text
    /// `message`.
    pub fn on_request_error(&mut self, message: &str) -> (r: Recovery)
        ensures
            recovery_post(old(self)@, final(self)@, message@, r),
    {
        if !is_context_error(message) {
            self.fail(message);
            return Recovery::Fail;
        }
        let before = self.messages.len();
        let shorter = prune_messages(&self.messages);
        self.messages = shorter;
        if self.messages.len() >= before {
            let ghost s0 = self@;
            self.log_warning(CONTEXT_EXCEEDED_MESSAGE);
            let ghost s1 = self@;
            self.log_turn_completed();
            proof {
                lemma_two_events(s0, s1, self@);
            }
            let text = crate::text::string_of_chars(&crate::text::chars_of(CONTEXT_EXCEEDED_MESSAGE));
            return Recovery::Exhausted { message: text };
        }
        Recovery::Retry
    }
}

} // verus!

verus! {

/// The model of the tool calls of a reply.
pub open spec fn opt_calls(c: Option<Vec<ToolCall>>) -> Option<Seq<CallView>> {
    match c {
        Some(v) => Some(calls_view(v@)),
        None => None,
    }
}

/// The tool calls of a reply, none if it has none.
pub open spec fn calls_or_none(c: Option<Seq<CallView>>) -> Seq<CallView> {
    match c {
        Some(v) => v,
        None => Seq::empty(),
    }
}

/// How the first tool call of a reply will be logged once it has run: a patch
/// by the files it touches, any other tool as a command whose start is logged
/// now under the item id `id`.
pub open spec fn tool_log_of(call: CallView, id: u64) -> ToolLogView {
    if call.name == "apply_patch"@ {
        ToolLogView::Patch {
            changes: patch_changes_of(text_or_empty(json_str_field_of(call.arguments, "patch"@))),
        }
    } else {
        ToolLogView::Command { id, command: command_text_of(call.name, call.arguments) }
    }
}

/// What `on_completion` owes. The reply becomes an assistant message, its
/// visible text (when not blank) an agent-message item, and its usage is added
/// to the totals. Then: a `submit` call, while submission is enabled, ends the
/// run with its `answer`, and no tool is dispatched (when its arguments hold no
/// string `answer` the run fails, logged as `error` and `turn.failed`); any other first tool call
/// is handed out for execution, the further calls kept to be refused; a
/// reply without tool calls either gets the continue nudge (submission
/// enabled) or ends the run with its text.
pub open spec fn completion_post(
    old: AgentState,
    new: AgentState,
    content: Option<Seq<char>>,
    calls: Option<Seq<CallView>>,
    usage: Option<Usage>,
    r: Reply,
) -> bool {
    let text = text_or_empty(content);
    let speaks = !is_blank(text);
    let k0 = old.events.len() as int;
    let k1 = if speaks {
        k0 + 1
    } else {
        k0
    };
    let n1 = if speaks {
        next_id(old.next_item_id)
    } else {
        old.next_item_id
    };
    let msgs = old.messages.push(
        MessageView { role: Role::Assistant, content, tool_calls: calls, tool_call_id: None },
    );
    let total = match usage {
        Some(u) => usage_sum(old.usage, usage_of(u)),
        None => old.usage,
    };
    let cs = calls_or_none(calls);
    &&& new.events.len() >= k1
    &&& new.events.take(k0) == old.events
    &&& speaks ==> agent_message_event(new.events[k0], old.next_item_id, text)
    &&& new.usage == total
    &&& new.max_steps == old.max_steps
    &&& new.submit_enabled == old.submit_enabled
    &&& new.steps == old.steps
    &&& if cs.len() > 0 {
        let first = cs[0];
        if first.name == "submit"@ && old.submit_enabled {
            &&& new.messages == msgs
            &&& new.pending == old.pending
            &&& match json_str_field_of(first.arguments, "answer"@) {
                None => {
                    &&& r matches Reply::BadSubmit { message } && message@ == bad_submit_text(first.arguments)
                    &&& new.events.len() == k1 + 2
                    &&& error_event(new.events[k1], bad_submit_text(first.arguments))
                    &&& turn_failed_event(new.events.last(), bad_submit_text(first.arguments))
                    &&& new.next_item_id == n1
                },
                Some(ans) => {
                    let says = !is_blank(ans);
                    &&& r matches Reply::Finished { answer } && answer@ == ans
                    &&& says ==> agent_message_event(new.events[k1], n1, ans)
                    &&& new.events.len() == (if says {
                        k1 + 2
                    } else {
                        k1 + 1
                    })
                    &&& turn_completed_event(new.events.last(), total)
                    &&& new.next_item_id == (if says {
                        next_id(n1)
                    } else {
                        n1
                    })
                },
            }
        } else {
            &&& r matches Reply::Dispatch { call } && call@ == first
            &&& new.messages == msgs
            &&& new.pending == Some((first, tool_log_of(first, n1), cs.drop_first()))
            &&& if first.name == "apply_patch"@ {
                new.events.len() == k1 && new.next_item_id == n1
            } else {
                &&& new.events.len() == k1 + 1
                &&& command_started_event(new.events[k1], n1, command_text_of(first.name, first.arguments))
                &&& new.next_item_id == next_id(n1)
            }
        }
    } else if old.submit_enabled {
        &&& r is Continue
        &&& new.messages == msgs.push(text_message(Role::User, CONTINUE_MESSAGE@))
        &&& new.events.len() == k1
        &&& new.next_item_id == n1
        &&& new.pending == old.pending
    } else {
        &&& r matches Reply::Finished { answer } && answer@ == text
        &&& new.events.len() == k1 + 1
        &&& turn_completed_event(new.events.last(), total)
        &&& new.messages == msgs
        &&& new.next_item_id == n1
        &&& new.pending == old.pending
    }
}

fn copy_text(s: &str) -> (r: String)
    ensures
        r@ == s@,
{
    crate::text::string_of_chars(&crate::text::chars_of(s))
}

impl Agent {
    fn add_usage(&mut self, usage: Option<Usage>)
        ensures
            final(self)@ == (AgentState {
                usage: match usage {
                    Some(u) => usage_sum(old(self)@.usage, usage_of(u)),
                    None => old(self)@.usage,
                },
                ..old(self)@
            }),
    {
        if let Some(u) = usage {
            let last = token_usage_from_usage(&u);
            let mut total = self.usage;
            total.add_assign(&last);
            self.usage = total;
        }
    }

    /// Prepares the logging of a dispatched tool call: a command's start is
    /// logged now; a patch is logged by the files it touches once it has run.
    fn prepare_tool_logging(&mut self, call: &ToolCall) -> (r: ToolLog)
        ensures
            final(self)@.messages == old(self)@.messages,
            final(self)@.usage == old(self)@.usage,
            final(self)@.max_steps == old(self)@.max_steps,
            final(self)@.submit_enabled == old(self)@.submit_enabled,
            final(self)@.steps == old(self)@.steps,
            final(self)@.pending == old(self)@.pending,
            match (tool_log_of(call@, old(self)@.next_item_id), r) {
                (ToolLogView::Patch { changes }, ToolLog::Patch { changes: c }) => changes_view(c@) == changes,
                (ToolLogView::Command { id, command }, ToolLog::Command { id: i, command: c }) => i == id
                    && c@ == command,
                _ => false,
            },
            call@.name == "apply_patch"@ ==> final(self)@.events == old(self)@.events
                && final(self)@.next_item_id == old(self)@.next_item_id,
            call@.name != "apply_patch"@ ==> {
                &&& final(self)@.events.drop_last() == old(self)@.events
                &&& final(self)@.events.len() == old(self)@.events.len() + 1
                &&& command_started_event(
                    final(self)@.events.last(),
                    old(self)@.next_item_id,
                    command_text_of(call@.name, call@.arguments),
                )
                &&& final(self)@.next_item_id == next_id(old(self)@.next_item_id)
            },
    {
        if same_text(call.name.as_str(), "apply_patch") {
            let patch = match json_str_field(call.arguments.as_str(), "patch") {
                Some(p) => p,
                None => String::new(),
            };
            ToolLog::Patch { changes: parse_patch_changes(patch.as_str()) }
        } else {
            let command = tool_command_string(call.name.as_str(), call.arguments.as_str());
            let id = self.fresh_id();
            let shown = command.clone();
            self.push_event(
                Event::ItemStarted {
                    item: Item::CommandExecution {
                        id,
                        command: shown,
                        aggregated_output: String::new(),
                        exit_code: None,
                        status: ItemStatus::InProgress,
                    },
                },
            );
            ToolLog::Command { id, command }
        }
    }

    /// Handles a successful completion whose message holds `content` and
    /// `tool_calls`, with the response's `usage`.
    pub fn on_completion(
        &mut self,
        content: Option<String>,
        tool_calls: Option<Vec<ToolCall>>,
        usage: Option<Usage>,
    ) -> (r: Reply)
        ensures
            completion_post(old(self)@, final(self)@, opt_text(content), opt_calls(tool_calls), usage, r),
    {
        let ghost s0 = self@;
        let text = match &content {
            Some(c) => c.clone(),
            None => String::new(),
        };
        let speaks = !blank(text.as_str());
        if speaks {
            self.log_agent_message(text.as_str());
        }
        let calls: Vec<ToolCall> = match &tool_calls {
            Some(v) => clone_calls(v),
            None => Vec::new(),
        };
        let ghost cs = calls_view(calls@);
        assert(cs == calls_or_none(opt_calls(tool_calls)));
        self.push_message(Message::assistant(content, tool_calls));
        self.add_usage(usage);
        let ghost s2 = self@;
        assert(s2.events.take(s0.events.len() as int) =~= s0.events);
        if calls.len() > 0 {
            let first = calls[0].clone();
            assert(first@ == cs[0]);
            if same_text(first.name.as_str(), "submit") && self.submit_enabled {
                match json_str_field(first.arguments.as_str(), "answer") {
                    None => {
                        let mut message = copy_text("submit arguments hold no string answer: ");
                        message.append(first.arguments.as_str());
                        self.fail(message.as_str());
                        assert(self@.events.take(s0.events.len() as int) =~= s0.events);
                        assert(speaks ==> self@.events[s0.events.len() as int] == s2.events[s0.events.len() as int]);
                        return Reply::BadSubmit { message };
                    },
                    Some(answer) => {
                        if !blank(answer.as_str()) {
                            self.log_agent_message(answer.as_str());
                        }
                        self.log_turn_completed();
                        assert(self@.events.take(s0.events.len() as int) =~= s0.events);
                        assert(speaks ==> self@.events[s0.events.len() as int] == s2.events[s0.events.len() as int]);
                        return Reply::Finished { answer };
                    },
                }
            }
            let log = self.prepare_tool_logging(&first);
            let mut extra: Vec<ToolCall> = Vec::new();
            let mut i: usize = 1;
            while i < calls.len()
                invariant
                    1 <= i <= calls.len(),
                    cs == calls_view(calls@),
                    calls_view(extra@) == cs.subrange(1, i as int),
                decreases calls.len() - i,
            {
                let c = calls[i].clone();
                assert(c@ == cs[i as int]);
                let ghost before = extra@;
                extra.push(c);
                assert(calls_view(extra@) =~= calls_view(before).push(c@));
                assert(calls_view(extra@) =~= cs.subrange(1, i + 1));
                i = i + 1;
            }
            assert(cs.subrange(1, cs.len() as int) =~= cs.drop_first());
            let call = first.clone();
            self.pending = Some(Pending { call: first, log, extra });
            assert(self@.events.take(s0.events.len() as int) =~= s0.events);
            assert(speaks ==> self@.events[s0.events.len() as int] == s2.events[s0.events.len() as int]);
            return Reply::Dispatch { call };
        }
        if self.submit_enabled {
            self.push_message(Message::user(copy_text(CONTINUE_MESSAGE)));
            return Reply::Continue;
        }
        self.log_turn_completed();
        assert(self@.events.take(s0.events.len() as int) =~= s0.events);
        Reply::Finished { answer: text }
    }
}

} // verus!

verus! {

/// The item id `k` ids after `n`.
pub open spec fn advance(n: u64, k: nat) -> u64
    decreases k,
{
    if k == 0 {
        n
    } else {
        next_id(advance(n, (k - 1) as nat))
    }
}

/// The model of the tool message that answers the call `id` with `content`.
pub open spec fn tool_message(id: Seq<char>, content: Seq<char>) -> MessageView {
    MessageView { role: Role::Tool, content: Some(content), tool_call_id: Some(id), tool_calls: None }
}

/// The text a tool run leaves in the conversation: its output, or its error
/// as `{"error": ...}`.
pub open spec fn tool_content(result: Result<String, String>) -> Seq<char> {
    match result {
        Ok(v) => v@,
        Err(e) => error_json_of(e@),
    }
}

/// What `finish_tool` owes. The dispatched call is answered with the tool's
/// output (or error) and its item is completed: a patch judged by
/// `patch_succeeded`, a command by `command_result_of`. Each further call of
/// the same reply is answered with the fixed refusal, never run, and logged
/// as a warning. Without a dispatched call nothing changes.
pub open spec fn tool_finished_post(old: AgentState, new: AgentState, content: Seq<char>, success: bool) -> bool {
    match old.pending {
        None => new == old,
        Some((call, log, extra)) => {
            let k0 = old.events.len() as int;
            let m0 = old.messages.len() as int;
            let n1 = if log is Patch {
                next_id(old.next_item_id)
            } else {
                old.next_item_id
            };
            &&& new.pending is None
            &&& new.usage == old.usage
            &&& new.max_steps == old.max_steps
            &&& new.submit_enabled == old.submit_enabled
            &&& new.steps == old.steps
            &&& new.messages.len() == m0 + 1 + extra.len()
            &&& new.messages.take(m0) == old.messages
            &&& new.messages[m0] == tool_message(call.id, content)
            &&& forall|k: int|
                0 <= k < extra.len() ==> new.messages[m0 + 1 + k] == tool_message(
                    (#[trigger] extra[k]).id,
                    error_json_of(MULTIPLE_CALLS_MESSAGE@),
                )
            &&& new.events.len() == k0 + 1 + extra.len()
            &&& new.events.take(k0) == old.events
            &&& match log {
                ToolLogView::Patch { changes } => file_change_event(
                    new.events[k0],
                    old.next_item_id,
                    changes,
                    patch_succeeded(content, success),
                ),
                ToolLogView::Command { id, command } => command_completed_event(
                    new.events[k0],
                    id,
                    command,
                    command_result_of(call.name, content, success),
                ),
            }
            &&& forall|k: int|
                0 <= k < extra.len() ==> warning_event(
                    #[trigger] new.events[k0 + 1 + k],
                    advance(n1, k as nat),
                    MULTIPLE_CALLS_MESSAGE@,
                )
            &&& new.next_item_id == advance(n1, extra.len())
        },
    }
}

impl Agent {
    /// Records the result of the dispatched tool call: its output, or the
    /// text of its error.
    pub fn finish_tool(&mut self, result: Result<String, String>)
        ensures
            tool_finished_post(old(self)@, final(self)@, tool_content(result), result is Ok),
    {
        let ghost s0 = self@;
        let pending = self.pending.take();
        let p = match pending {
            Some(p) => p,
            None => {
                return;
            },
        };
        let Pending { call, log, extra } = p;
        let success = result.is_ok();
        let content = match result {
            Ok(v) => v,
            Err(e) => tool_error(e.as_str()),
        };
        let id_text = call.id.clone();
        let shown = content.clone();
        self.push_message(Message::tool(id_text, shown));
        match log {
            ToolLog::Patch { changes } => {
                let ok = patch_status(content.as_str(), success);
                let id = self.fresh_id();
                let status = if ok {
                    ItemStatus::Completed
                } else {
                    ItemStatus::Failed
                };
                self.push_event(Event::ItemCompleted { item: Item::FileChange { id, changes, status } });
            },
            ToolLog::Command { id, command } => {
                let (exit_code, aggregated_output, ok) = command_result(
                    call.name.as_str(),
                    content.as_str(),
                    success,
                );
                let status = if ok {
                    ItemStatus::Completed
                } else {
                    ItemStatus::Failed
                };
                self.push_event(
                    Event::ItemCompleted {
                        item: Item::CommandExecution { id, command, aggregated_output, exit_code, status },
                    },
                );
            },
        }
        let ghost s1 = self@;
        let ghost ev = calls_view(extra@);
        let mut i: usize = 0;
        while i < extra.len()
            invariant
                i <= extra.len(),
                ev == calls_view(extra@),
                self@.pending is None,
                self@.usage == s1.usage,
                self@.max_steps == s1.max_steps,
                self@.submit_enabled == s1.submit_enabled,
                self@.steps == s1.steps,
                self@.messages.len() == s1.messages.len() + i,
                self@.messages.take(s1.messages.len() as int) == s1.messages,
                forall|k: int|
                    0 <= k < i ==> self@.messages[s1.messages.len() + k] == tool_message(
                        (#[trigger] ev[k]).id,
                        error_json_of(MULTIPLE_CALLS_MESSAGE@),
                    ),
                self@.events.len() == s1.events.len() + i,
                self@.events.take(s1.events.len() as int) == s1.events,
                forall|k: int|
                    0 <= k < i ==> warning_event(
                        #[trigger] self@.events[s1.events.len() + k],
                        advance(s1.next_item_id, k as nat),
                        MULTIPLE_CALLS_MESSAGE@,
                    ),
                self@.next_item_id == advance(s1.next_item_id, i as nat),
            decreases extra.len() - i,
        {
            let ghost before = self@;
            let refusal = tool_error(MULTIPLE_CALLS_MESSAGE);
            let call_id = extra[i].id.clone();
            self.push_message(Message::tool(call_id, refusal));
            self.log_warning(MULTIPLE_CALLS_MESSAGE);
            proof {
                assert(self@.messages.take(s1.messages.len() as int) =~= s1.messages);
                assert forall|k: int|
                    0 <= k < i + 1 implies self@.messages[s1.messages.len() + k] == tool_message(
                    (#[trigger] ev[k]).id,
                    error_json_of(MULTIPLE_CALLS_MESSAGE@),
                ) by {
                    if k < i {
                        assert(self@.messages[s1.messages.len() + k] == before.messages[s1.messages.len()
                            + k]);
                    }
                }
                assert(self@.events.take(s1.events.len() as int) =~= s1.events);
                assert forall|k: int|
                    0 <= k < i + 1 implies warning_event(
                    #[trigger] self@.events[s1.events.len() + k],
                    advance(s1.next_item_id, k as nat),
                    MULTIPLE_CALLS_MESSAGE@,
                ) by {
                    if k < i {
                        assert(self@.events[s1.events.len() + k] == before.events[s1.events.len() + k]);
                    }
                }
            }
            i = i + 1;
        }
        assert(self@.messages.take(s0.messages.len() as int) =~= s0.messages);
        assert(self@.events.take(s0.events.len() as int) =~= s0.events);
        assert(self@.messages[s0.messages.len() as int] == s1.messages[s0.messages.len() as int]);
        assert(self@.events[s0.events.len() as int] == s1.events[s0.events.len() as int]);
    }
}

} // verus!

verus! {

/// Recovery from a context-length error asks for a retry only when pruning
/// shortened the conversation; a caller that retries on `Retry` alone
/// therefore stops after at most as many rounds as the conversation is long.
pub proof fn lemma_recovery_shrinks(old: AgentState, new: AgentState, message: Seq<char>, r: Recovery)
    requires
        recovery_post(old, new, message, r),
        r is Retry,
    ensures
        new.messages.len() < old.messages.len(),
        names_context_length(lower_of(message)),
{
}

/// A `submit` call, while submission is enabled, ends the run with the call's
/// `answer`: no tool is dispatched for it, and no item is started.
pub proof fn lemma_submit_short_circuit(
    old: AgentState,
    new: AgentState,
    content: Option<Seq<char>>,
    calls: Seq<CallView>,
    usage: Option<Usage>,
    r: Reply,
    answer: Seq<char>,
)
    requires
        completion_post(old, new, content, Some(calls), usage, r),
        calls.len() > 0,
        calls[0].name == "submit"@,
        old.submit_enabled,
        json_str_field_of(calls[0].arguments, "answer"@) == Some(answer),
    ensures
        r matches Reply::Finished { answer: a } && a@ == answer,
        new.pending == old.pending,
        turn_completed_event(new.events.last(), new.usage),
        forall|k: int| old.events.len() <= k < new.events.len() ==> !(#[trigger] new.events[k] is ItemStarted),
{
    let text = text_or_empty(content);
    let k0 = old.events.len() as int;
    let k1 = if !is_blank(text) {
        k0 + 1
    } else {
        k0
    };
    assert forall|k: int| old.events.len() <= k < new.events.len() implies !(
    #[trigger] new.events[k] is ItemStarted) by {
        if k == k0 && !is_blank(text) {
        } else if k == k1 && !is_blank(answer) && k < new.events.len() - 1 {
        } else {
            assert(k == new.events.len() - 1);
        }
    }
}

/// A warning that reports a refused extra tool call.
pub open spec fn refusal_logged(e: Event) -> bool {
    e matches Event::ItemCompleted { item: Item::Warning { message, .. } } && message@ == MULTIPLE_CALLS_MESSAGE@
}

/// Of the tool calls of one reply only the first is dispatched; once its
/// result is in, every further call is answered with the fixed refusal, in
/// order, without being run, and each refusal is logged as a warning.
pub proof fn lemma_single_tool_call(
    s0: AgentState,
    s1: AgentState,
    s2: AgentState,
    content: Option<Seq<char>>,
    calls: Seq<CallView>,
    usage: Option<Usage>,
    r: Reply,
    output: Seq<char>,
    success: bool,
)
    requires
        completion_post(s0, s1, content, Some(calls), usage, r),
        calls.len() > 0,
        !(calls[0].name == "submit"@ && s0.submit_enabled),
        tool_finished_post(s1, s2, output, success),
    ensures
        r matches Reply::Dispatch { call } && call@ == calls[0],
        s2.pending is None,
        s2.messages.len() == s0.messages.len() + 1 + calls.len(),
        s2.messages[s0.messages.len() + 1 as int] == tool_message(calls[0].id, output),
        forall|k: int|
            1 <= k < calls.len() ==> s2.messages[s0.messages.len() + 1 + k] == tool_message(
                (#[trigger] calls[k]).id,
                error_json_of(MULTIPLE_CALLS_MESSAGE@),
            ),
        forall|k: int|
            1 <= k < calls.len() ==> refusal_logged(#[trigger] s2.events[s2.events.len() - calls.len() + k]),
{
    let extra = calls.drop_first();
    assert(s1.messages.len() == s0.messages.len() + 1);
    let m0 = s1.messages.len() as int;
    let k0 = s1.events.len() as int;
    let p = s1.pending.unwrap();
    let n1 = if p.1 is Patch {
        next_id(s1.next_item_id)
    } else {
        s1.next_item_id
    };
    assert forall|k: int|
        1 <= k < calls.len() implies s2.messages[s0.messages.len() + 1 + k] == tool_message(
        (#[trigger] calls[k]).id,
        error_json_of(MULTIPLE_CALLS_MESSAGE@),
    ) by {
        assert(extra[k - 1] == calls[k]);
        assert(s2.messages[m0 + 1 + (k - 1)] == tool_message(
            extra[k - 1].id,
            error_json_of(MULTIPLE_CALLS_MESSAGE@),
        ));
    }
    assert forall|k: int|
        1 <= k < calls.len() implies refusal_logged(#[trigger] s2.events[s2.events.len() - calls.len() + k]) by {
        assert(extra[k - 1] == calls[k]);
        assert(s2.events.len() - calls.len() + k == k0 + 1 + (k - 1));
        assert(warning_event(s2.events[k0 + 1 + (k - 1)], advance(n1, (k - 1) as nat), MULTIPLE_CALLS_MESSAGE@));
    }
}

} // verus!
