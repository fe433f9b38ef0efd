//! Messages of one task's conversation, and the pruning that recovers from a
//! context-length failure.
use vstd::prelude::*;

verus! {

/// Who wrote a message.
#[derive(Clone, Copy, Debug, PartialEq, Eq, Structural)]
pub enum Role {
    System,
    User,
    Assistant,
    Tool,
}

/// A tool invocation requested by the model: its opaque id, the tool's name
/// and the raw JSON text of its arguments.
#[derive(Debug)]
pub struct ToolCall {
    pub id: String,
    pub name: String,
    pub arguments: String,
}

/// The mathematical model of a tool call.
pub struct CallView {
    pub id: Seq<char>,
    pub name: Seq<char>,
    pub arguments: Seq<char>,
}

impl View for ToolCall {
    type V = CallView;

    open spec fn view(&self) -> CallView {
        CallView { id: self.id@, name: self.name@, arguments: self.arguments@ }
    }
}

impl Clone for ToolCall {
    fn clone(&self) -> (r: Self)
        ensures
            r == *self,
    {
        ToolCall { id: self.id.clone(), name: self.name.clone(), arguments: self.arguments.clone() }
    }
}

/// One entry of the conversation. A `Tool` message carries the id of the call
/// it answers in `tool_call_id`; an `Assistant` message may carry tool calls.
#[derive(Debug)]
pub struct Message {
    pub role: Role,
    pub content: Option<String>,
    pub tool_calls: Option<Vec<ToolCall>>,
    pub tool_call_id: Option<String>,
}

/// The mathematical model of a message.
pub struct MessageView {
    pub role: Role,
    pub content: Option<Seq<char>>,
    pub tool_calls: Option<Seq<CallView>>,
    pub tool_call_id: Option<Seq<char>>,
}

pub open spec fn opt_text(s: Option<String>) -> Option<Seq<char>> {
    match s {
        Some(t) => Some(t@),
        None => None,
    }
}

pub open spec fn calls_view(v: Seq<ToolCall>) -> Seq<CallView> {
    v.map_values(|c: ToolCall| c@)
}

impl View for Message {
    type V = MessageView;

    open spec fn view(&self) -> MessageView {
        MessageView {
            role: self.role,
            content: opt_text(self.content),
            tool_calls: match self.tool_calls {
                Some(v) => Some(calls_view(v@)),
                None => None,
            },
            tool_call_id: opt_text(self.tool_call_id),
        }
    }
}

/// The model of a sequence of messages.
pub open spec fn messages_view(v: Seq<Message>) -> Seq<MessageView> {
    v.map_values(|m: Message| m@)
}

pub fn clone_calls(v: &Vec<ToolCall>) -> (r: Vec<ToolCall>)
    ensures
        r@ == v@,
{
    let mut r: Vec<ToolCall> = Vec::new();
    let mut i: usize = 0;
    while i < v.len()
        invariant
            i <= v.len(),
            r@ == v@.take(i as int),
        decreases v.len() - i,
    {
        r.push(v[i].clone());
        i = i + 1;
        assert(r@ =~= v@.take(i as int));
    }
    assert(v@.take(v.len() as int) =~= v@);
    r
}

fn clone_opt_string(s: &Option<String>) -> (r: Option<String>)
    ensures
        r == *s,
{
    match s {
        Some(t) => Some(t.clone()),
        None => None,
    }
}

impl Clone for Message {
    fn clone(&self) -> (r: Self)
        ensures
            r@ == self@,
    {
        let tool_calls = match &self.tool_calls {
            Some(v) => Some(clone_calls(v)),
            None => None,
        };
        Message {
            role: self.role,
            content: clone_opt_string(&self.content),
            tool_calls,
            tool_call_id: clone_opt_string(&self.tool_call_id),
        }
    }
}

impl Message {
    pub fn system(text: String) -> (m: Message)
        ensures
            m.role is System,
            m.content == Some(text),
            m.tool_calls is None,
            m.tool_call_id is None,
    {
        Message { role: Role::System, content: Some(text), tool_calls: None, tool_call_id: None }
    }

    pub fn user(text: String) -> (m: Message)
        ensures
            m.role is User,
            m.content == Some(text),
            m.tool_calls is None,
            m.tool_call_id is None,
    {
        Message { role: Role::User, content: Some(text), tool_calls: None, tool_call_id: None }
    }

    pub fn assistant(content: Option<String>, tool_calls: Option<Vec<ToolCall>>) -> (m: Message)
        ensures
            m.role is Assistant,
            m.content == content,
            m.tool_calls == tool_calls,
            m.tool_call_id is None,
    {
        Message { role: Role::Assistant, content, tool_calls, tool_call_id: None }
    }

    pub fn tool(call_id: String, content: String) -> (m: Message)
        ensures
            m.role is Tool,
            m.content == Some(content),
            m.tool_calls is None,
            m.tool_call_id == Some(call_id),
    {
        Message { role: Role::Tool, content: Some(content), tool_calls: None, tool_call_id: Some(call_id) }
    }
}

/// The model of a message of `role` that holds `text` and nothing else.
pub open spec fn text_message(role: Role, text: Seq<char>) -> MessageView {
    MessageView { role, content: Some(text), tool_calls: None, tool_call_id: None }
}

/// The tool calls an assistant message carries (none for other messages).
pub open spec fn calls_of(m: MessageView) -> Seq<CallView> {
    match m.tool_calls {
        Some(v) => v,
        None => Seq::empty(),
    }
}

/// Whether one of `calls` has the id `id`.
pub open spec fn has_call_id(calls: Seq<CallView>, id: Seq<char>) -> bool {
    exists|j: int| 0 <= j < calls.len() && (#[trigger] calls[j]).id == id
}

/// The system messages of `s`, in order.
pub open spec fn system_messages(s: Seq<MessageView>) -> Seq<MessageView>
    decreases s.len(),
{
    if s.len() == 0 {
        Seq::empty()
    } else if s.last().role is System {
        system_messages(s.drop_last()).push(s.last())
    } else {
        system_messages(s.drop_last())
    }
}

/// The messages of `s` that are not system messages, in order.
pub open spec fn other_messages(s: Seq<MessageView>) -> Seq<MessageView>
    decreases s.len(),
{
    if s.len() == 0 {
        Seq::empty()
    } else if s.last().role is System {
        other_messages(s.drop_last())
    } else {
        other_messages(s.drop_last()).push(s.last())
    }
}

/// The index of the first user message of `s` at or after `from`, or `s.len()`
/// if there is none.
pub open spec fn first_user_from(s: Seq<MessageView>, from: int) -> int
    decreases s.len() - from,
{
    if from < 0 || from >= s.len() {
        s.len() as int
    } else if s[from].role is User {
        from
    } else {
        first_user_from(s, from + 1)
    }
}

/// Where the tail after the anchor task message is cut: the first user message
/// at or after a third of its length, else that third.
pub open spec fn cut_point(rest: Seq<MessageView>) -> int {
    let d = rest.len() as int / 3;
    let b = first_user_from(rest, d);
    if b < rest.len() {
        b
    } else {
        d
    }
}

/// The tool calls whose results may follow the messages `s`: those of the last
/// assistant message, unless a user message came after it.
pub open spec fn active_calls(s: Seq<MessageView>) -> Seq<CallView>
    decreases s.len(),
{
    if s.len() == 0 {
        Seq::empty()
    } else if s.last().role is Assistant {
        calls_of(s.last())
    } else if s.last().role is User {
        Seq::empty()
    } else {
        active_calls(s.drop_last())
    }
}

/// Whether the tool message `m`, following the messages `before`, answers one
/// of the active tool calls.
pub open spec fn answers_active(before: Seq<MessageView>, m: MessageView) -> bool {
    m.tool_call_id is Some && has_call_id(active_calls(before), m.tool_call_id->0)
}

/// `s` without the tool messages that answer no active tool call.
pub open spec fn paired(s: Seq<MessageView>) -> Seq<MessageView>
    decreases s.len(),
{
    if s.len() == 0 {
        Seq::empty()
    } else if s.last().role is Tool && !answers_active(s.drop_last(), s.last()) {
        paired(s.drop_last())
    } else {
        paired(s.drop_last()).push(s.last())
    }
}

/// The conversation after one pruning step.
pub open spec fn pruned(s: Seq<MessageView>) -> Seq<MessageView> {
    let ns = other_messages(s);
    let t = first_user_from(ns, 0);
    if t >= ns.len() {
        system_messages(s) + ns
    } else {
        let rest = ns.subrange(t + 1, ns.len() as int);
        system_messages(s) + paired(seq![ns[t]] + rest.subrange(cut_point(rest), rest.len() as int))
    }
}

pub proof fn lemma_split_len(s: Seq<MessageView>)
    ensures
        system_messages(s).len() + other_messages(s).len() == s.len(),
        forall|k: int| 0 <= k < system_messages(s).len() ==> (#[trigger] system_messages(s)[k]).role is System,
        forall|k: int| 0 <= k < other_messages(s).len() ==> !((#[trigger] other_messages(s)[k]).role is System),
    decreases s.len(),
{
    if s.len() > 0 {
        lemma_split_len(s.drop_last());
    }
}

proof fn lemma_first_user_skip(s: Seq<MessageView>, from: int, j: int)
    requires
        0 <= from <= j <= s.len(),
        forall|k: int| from <= k < j ==> !((#[trigger] s[k]).role is User),
    ensures
        first_user_from(s, from) == first_user_from(s, j),
    decreases j - from,
{
    if from < j {
        lemma_first_user_skip(s, from + 1, j);
    }
}

proof fn lemma_first_user_bounds(s: Seq<MessageView>, from: int)
    requires
        0 <= from,
    ensures
        from <= first_user_from(s, from) <= s.len() || (from > s.len() && first_user_from(s, from) == s.len()),
        first_user_from(s, from) < s.len() ==> s[first_user_from(s, from)].role is User,
        forall|k: int| from <= k < first_user_from(s, from) ==> !((#[trigger] s[k]).role is User),
    decreases s.len() - from,
{
    if from < s.len() && !(s[from].role is User) {
        lemma_first_user_skip(s, from, from + 1);
        lemma_first_user_bounds(s, from + 1);
    }
}

proof fn lemma_active_calls_ignore_tools(s: Seq<MessageView>)
    ensures
        active_calls(paired(s)) == active_calls(s),
    decreases s.len(),
{
    if s.len() > 0 {
        lemma_active_calls_ignore_tools(s.drop_last());
        let p = paired(s.drop_last());
        if !(s.last().role is Tool && !answers_active(s.drop_last(), s.last())) {
            assert(paired(s).drop_last() =~= p);
        }
    }
}

pub proof fn lemma_paired_len(s: Seq<MessageView>)
    ensures
        paired(s).len() <= s.len(),
        forall|k: int| 0 <= k < paired(s).len() ==> s.contains(#[trigger] paired(s)[k]),
    decreases s.len(),
{
    if s.len() > 0 {
        lemma_paired_len(s.drop_last());
        let p = paired(s.drop_last());
        assert forall|k: int| 0 <= k < paired(s).len() implies s.contains(#[trigger] paired(s)[k]) by {
            if k < p.len() {
                let w = choose|w: int| 0 <= w < s.drop_last().len() && s.drop_last()[w] == p[k];
                assert(s[w] == paired(s)[k]);
            } else {
                assert(s[s.len() - 1] == paired(s)[k]);
            }
        }
    }
}

} // verus!

verus! {

proof fn lemma_view_push(v: Seq<Message>, m: Message)
    ensures
        messages_view(v.push(m)) == messages_view(v).push(m@),
{
    assert(messages_view(v.push(m)) =~= messages_view(v).push(m@));
}

proof fn lemma_view_add(a: Seq<Message>, b: Seq<Message>)
    ensures
        messages_view(a + b) == messages_view(a) + messages_view(b),
{
    assert(messages_view(a + b) =~= messages_view(a) + messages_view(b));
}

proof fn lemma_first_user_shift(s: Seq<MessageView>, a: int, d: int)
    requires
        0 <= a <= s.len(),
        0 <= d <= s.len() - a,
    ensures
        first_user_from(s.subrange(a, s.len() as int), d) == first_user_from(s, a + d) - a,
    decreases s.len() - a - d,
{
    if a + d < s.len() {
        lemma_first_user_shift(s, a, d + 1);
    }
}

/// The index of the first user message of `v` at or after `from`, or the length
/// of `v` if there is none.
fn first_user_index(v: &Vec<Message>, from: usize) -> (r: usize)
    requires
        from <= v.len(),
    ensures
        r as int == first_user_from(messages_view(v@), from as int),
        from <= r <= v.len(),
{
    let ghost s = messages_view(v@);
    let mut j: usize = from;
    while j < v.len()
        invariant
            from <= j <= v.len(),
            s == messages_view(v@),
            forall|k: int| from <= k < j ==> !((#[trigger] s[k]).role is User),
        ensures
            from <= j <= v.len(),
            j == v.len() || s[j as int].role is User,
        decreases v.len() - j,
    {
        if matches!(v[j].role, Role::User) {
            break;
        }
        j = j + 1;
    }
    proof {
        lemma_first_user_skip(s, from as int, j as int);
    }
    j
}

/// Whether one of the tool calls of `m` has the id `id`.
fn carries_call_id(m: &Message, id: &String) -> (r: bool)
    ensures
        r == has_call_id(calls_of(m@), id@),
{
    match &m.tool_calls {
        None => false,
        Some(calls) => {
            let ghost cv = calls_view(calls@);
            assert(calls_of(m@) == cv);
            let mut j: usize = 0;
            while j < calls.len()
                invariant
                    j <= calls.len(),
                    cv == calls_view(calls@),
                    calls_of(m@) == cv,
                    forall|k: int| 0 <= k < j ==> (#[trigger] cv[k]).id != id@,
                decreases calls.len() - j,
            {
                if calls[j].id == *id {
                    assert(cv[j as int] == calls@[j as int]@);
                    assert(cv[j as int].id == id@);
                    assert(has_call_id(cv, id@));
                    return true;
                }
                j = j + 1;
            }
            false
        },
    }
}

/// One pruning step: keeps every system message and the first user message,
/// drops the oldest third of what follows (cutting at a user message where one
/// lies at or after that point), then drops tool results whose call is no
/// longer present. Without a user message among the non-system messages it
/// only moves the system messages to the front.
pub fn prune_messages(messages: &Vec<Message>) -> (r: Vec<Message>)
    ensures
        messages_view(r@) == pruned(messages_view(messages@)),
{
    let ghost s = messages_view(messages@);
    let mut system: Vec<Message> = Vec::new();
    let mut others: Vec<Message> = Vec::new();
    let mut i: usize = 0;
    while i < messages.len()
        invariant
            i <= messages.len(),
            s == messages_view(messages@),
            messages_view(system@) == system_messages(s.take(i as int)),
            messages_view(others@) == other_messages(s.take(i as int)),
        decreases messages.len() - i,
    {
        let m = messages[i].clone();
        proof {
            assert(s.take(i + 1).drop_last() =~= s.take(i as int));
            lemma_view_push(system@, m);
            lemma_view_push(others@, m);
        }
        match m.role {
            Role::System => system.push(m),
            _ => others.push(m),
        }
        i = i + 1;
    }
    assert(s.take(messages.len() as int) =~= s);
    let ghost ns = messages_view(others@);
    let n = others.len();
    let t = first_user_index(&others, 0);
    if t == n {
        proof {
            lemma_view_add(system@, others@);
        }
        system.append(&mut others);
        return system;
    }
    let rest_len = n - t - 1;
    let d = rest_len / 3;
    let b = first_user_index(&others, t + 1 + d);
    let ghost rest = ns.subrange(t + 1, n as int);
    proof {
        lemma_first_user_shift(ns, t + 1, d as int);
    }
    let cut = if b < n {
        b - t - 1
    } else {
        d
    };
    assert(cut as int == cut_point(rest));
    let mut preserved: Vec<Message> = Vec::new();
    let anchor = others[t].clone();
    proof {
        lemma_view_push(preserved@, anchor);
    }
    preserved.push(anchor);
    let mut k: usize = t + 1 + cut;
    while k < n
        invariant
            t + 1 + cut <= k <= n,
            n == others.len(),
            t < n,
            ns == messages_view(others@),
            messages_view(preserved@) == seq![ns[t as int]] + ns.subrange(t + 1 + cut, k as int),
        decreases n - k,
    {
        let m = others[k].clone();
        proof {
            lemma_view_push(preserved@, m);
            assert(seq![ns[t as int]] + ns.subrange(t + 1 + cut, k + 1) =~= (seq![ns[t as int]]
                + ns.subrange(t + 1 + cut, k as int)).push(m@));
        }
        preserved.push(m);
        k = k + 1;
    }
    let ghost pv = messages_view(preserved@);
    assert(pv =~= seq![ns[t as int]] + rest.subrange(cut_point(rest), rest.len() as int));
    let mut valid: Vec<Message> = Vec::new();
    let mut active: Option<usize> = None;
    let mut i: usize = 0;
    while i < preserved.len()
        invariant
            i <= preserved.len(),
            pv == messages_view(preserved@),
            messages_view(valid@) == paired(pv.take(i as int)),
            match active {
                Some(a) => a < i && pv[a as int].role is Assistant && active_calls(pv.take(i as int))
                    == calls_of(pv[a as int]),
                None => active_calls(pv.take(i as int)) == Seq::<CallView>::empty(),
            },
        decreases preserved.len() - i,
    {
        let ghost before = pv.take(i as int);
        proof {
            assert(pv.take(i + 1).drop_last() =~= before);
        }
        let m = &preserved[i];
        let keep = match m.role {
            Role::Assistant => {
                active = Some(i);
                true
            },
            Role::User => {
                active = None;
                true
            },
            Role::Tool => {
                match (&m.tool_call_id, active) {
                    (Some(id), Some(a)) => carries_call_id(&preserved[a], id),
                    _ => false,
                }
            },
            Role::System => true,
        };
        if keep {
            let c = m.clone();
            proof {
                lemma_view_push(valid@, c);
            }
            valid.push(c);
        }
        i = i + 1;
    }
    assert(pv.take(preserved.len() as int) =~= pv);
    proof {
        lemma_view_add(system@, valid@);
    }
    system.append(&mut valid);
    system
}

} // verus!

verus! {

/// Whether message `j` of `r` is the assistant message that the tool message
/// `k` answers: it precedes `k` with neither an assistant nor a user message in
/// between, and one of its tool calls has the id that `k` refers to.
pub open spec fn answered_by(r: Seq<MessageView>, j: int, k: int) -> bool {
    &&& 0 <= j < k < r.len()
    &&& r[j].role is Assistant
    &&& forall|l: int| j < l < k ==> !((#[trigger] r[l]).role is Assistant) && !(r[l].role is User)
    &&& r[k].tool_call_id is Some
    &&& has_call_id(calls_of(r[j]), r[k].tool_call_id->0)
}

proof fn lemma_paired_tools(p: Seq<MessageView>)
    ensures
        forall|k: int|
            0 <= k < paired(p).len() && (#[trigger] paired(p)[k]).role is Tool ==> answers_active(
                paired(p).take(k),
                paired(p)[k],
            ),
    decreases p.len(),
{
    if p.len() > 0 {
        let shorter = p.drop_last();
        lemma_paired_tools(shorter);
        lemma_active_calls_ignore_tools(shorter);
        let q = paired(p);
        let kept_shorter = paired(shorter);
        assert forall|k: int| 0 <= k < q.len() && (#[trigger] q[k]).role is Tool implies answers_active(
            q.take(k),
            q[k],
        ) by {
            if k < kept_shorter.len() {
                assert(q[k] == kept_shorter[k]);
                assert(q.take(k) =~= kept_shorter.take(k));
            } else {
                assert(q.take(k) =~= kept_shorter);
            }
        }
    }
}

proof fn lemma_active_witness(r: Seq<MessageView>, k: int, id: Seq<char>)
    requires
        0 <= k <= r.len(),
        has_call_id(active_calls(r.take(k)), id),
    ensures
        exists|j: int|
            0 <= j < k && (#[trigger] r[j]).role is Assistant && (forall|l: int|
                j < l < k ==> !((#[trigger] r[l]).role is Assistant) && !(r[l].role is User))
                && has_call_id(calls_of(r[j]), id),
    decreases k,
{
    let rk = r.take(k);
    if k == 0 {
        assert(active_calls(rk) == Seq::<CallView>::empty());
    } else {
        assert(rk.last() == r[k - 1]);
        assert(rk.drop_last() =~= r.take(k - 1));
        if r[k - 1].role is Assistant {
            assert(r[k - 1].role is Assistant);
        } else if r[k - 1].role is User {
            assert(active_calls(rk) == Seq::<CallView>::empty());
        } else {
            lemma_active_witness(r, k - 1, id);
            let j = choose|j: int|
                0 <= j < k - 1 && (#[trigger] r[j]).role is Assistant && (forall|l: int|
                    j < l < k - 1 ==> !((#[trigger] r[l]).role is Assistant) && !(r[l].role is User))
                    && has_call_id(calls_of(r[j]), id);
            assert(r[j].role is Assistant);
        }
    }
}

proof fn lemma_paired_head(p: Seq<MessageView>)
    requires
        p.len() > 0,
        !(p[0].role is Tool),
    ensures
        paired(p).len() > 0,
        paired(p)[0] == p[0],
    decreases p.len(),
{
    if p.len() > 1 {
        assert(p.drop_last()[0] == p[0]);
        lemma_paired_head(p.drop_last());
        let rest_kept = paired(p.drop_last());
        if p.last().role is Tool && !answers_active(p.drop_last(), p.last()) {
            assert(paired(p) == rest_kept);
        } else {
            assert(paired(p) == rest_kept.push(p.last()));
            assert(rest_kept.push(p.last())[0] == rest_kept[0]);
        }
    } else {
        assert(p.drop_last() =~= Seq::<MessageView>::empty());
        assert(paired(p.drop_last()) == Seq::<MessageView>::empty());
        assert(paired(p) == Seq::<MessageView>::empty().push(p[0]));
    }
}

/// Pruning never lengthens a conversation, and leaves its length unchanged
/// when no user message is left to anchor a cut. A caller that retries until
/// the length stops shrinking therefore stops.
pub proof fn lemma_prune_never_grows(s: Seq<MessageView>)
    ensures
        pruned(s).len() <= s.len(),
        first_user_from(other_messages(s), 0) >= other_messages(s).len() ==> pruned(s).len() == s.len(),
{
    let ns = other_messages(s);
    lemma_split_len(s);
    lemma_first_user_bounds(ns, 0);
    let t = first_user_from(ns, 0);
    if t < ns.len() {
        let rest = ns.subrange(t + 1, ns.len() as int);
        let pp = seq![ns[t]] + rest.subrange(cut_point(rest), rest.len() as int);
        lemma_first_user_bounds(rest, rest.len() as int / 3);
        lemma_paired_len(pp);
    }
}

/// What pruning keeps: the result begins with all system messages in their
/// order; where a user message exists among the others, the first of
/// them follows directly, and every tool message of the result answers a call
/// of the nearest assistant message before it, with no user message between.
pub proof fn lemma_prune_keeps_invariant(s: Seq<MessageView>)
    ensures
        pruned(s).take(system_messages(s).len() as int) == system_messages(s),
        first_user_from(other_messages(s), 0) < other_messages(s).len() ==> {
            &&& pruned(s).len() > system_messages(s).len()
            &&& pruned(s)[system_messages(s).len() as int] == other_messages(s)[first_user_from(
                other_messages(s),
                0,
            )]
            &&& forall|k: int|
                0 <= k < pruned(s).len() && (#[trigger] pruned(s)[k]).role is Tool ==> exists|j: int|
                    answered_by(pruned(s), j, k)
        },
{
    let ns = other_messages(s);
    let sys = system_messages(s);
    let r = pruned(s);
    lemma_split_len(s);
    lemma_first_user_bounds(ns, 0);
    let t = first_user_from(ns, 0);
    if t >= ns.len() {
        assert(r.take(sys.len() as int) =~= sys);
    } else {
        let rest = ns.subrange(t + 1, ns.len() as int);
        let pp = seq![ns[t]] + rest.subrange(cut_point(rest), rest.len() as int);
        let q = paired(pp);
        assert(r == sys + q);
        assert(r.take(sys.len() as int) =~= sys);
        assert(pp[0] == ns[t]);
        lemma_paired_head(pp);
        lemma_paired_tools(pp);
        let o = sys.len() as int;
        assert forall|k: int| 0 <= k < r.len() && (#[trigger] r[k]).role is Tool implies exists|j: int|
            answered_by(r, j, k) by {
            if k < o {
                assert(r[k] == sys[k]);
            } else {
                let k1 = k - o;
                assert(r[k] == q[k1]);
                assert(q[k1].role is Tool);
                assert(answers_active(q.take(k1), q[k1]));
                let id = q[k1].tool_call_id->0;
                lemma_active_witness(q, k1, id);
                let j1 = choose|j: int|
                    0 <= j < k1 && (#[trigger] q[j]).role is Assistant && (forall|l: int|
                        j < l < k1 ==> !((#[trigger] q[l]).role is Assistant) && !(q[l].role is User))
                        && has_call_id(calls_of(q[j]), id);
                assert(r[j1 + o] == q[j1]);
                assert forall|l: int| j1 + o < l < k implies !((#[trigger] r[l]).role is Assistant) && !(
                r[l].role is User) by {
                    assert(r[l] == q[l - o]);
                }
                assert(answered_by(r, j1 + o, k));
            }
        }
    }
}

} // verus!
