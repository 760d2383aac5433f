//! The dialogue loop as a state machine: the caller sends the history to the
//! chat-completion service and runs tool commands; this module decides what
//! comes next and keeps the history well formed.
use vstd::prelude::*;
use crate::config::ToolConfig;
use crate::tools::{json_arguments, resolves_to, ToolManager, ToolRequest};

verus! {

/// Tool-call rounds allowed in one dialogue before it is cut short.
pub const MAX_TOOL_ROUNDS: usize = 8;

/// A tool invocation requested by the chat-completion service.
pub struct ToolCall {
    pub id: String,
    pub name: String,
    pub arguments: String,
}

pub struct ToolCallView {
    pub id: Seq<char>,
    pub name: Seq<char>,
    pub arguments: Seq<char>,
}

impl View for ToolCall {
    type V = ToolCallView;

    open spec fn view(&self) -> ToolCallView {
        ToolCallView { id: self.id@, name: self.name@, arguments: self.arguments@ }
    }
}

pub open spec fn calls_view(c: Seq<ToolCall>) -> Seq<ToolCallView> {
    c.map_values(|t: ToolCall| t@)
}

/// One role-tagged message of the conversation.
pub enum Message {
    System(String),
    User(String),
    /// The assistant asking for tool calls.
    ToolCalls(Vec<ToolCall>),
    /// The assistant's plain-text reply.
    Assistant(String),
    ToolResult { call_id: String, content: String },
}

pub enum MessageView {
    System(Seq<char>),
    User(Seq<char>),
    ToolCalls(Seq<ToolCallView>),
    Assistant(Seq<char>),
    ToolResult { call_id: Seq<char>, content: Seq<char> },
}

impl View for Message {
    type V = MessageView;

    open spec fn view(&self) -> MessageView {
        match self {
            Message::System(s) => MessageView::System(s@),
            Message::User(s) => MessageView::User(s@),
            Message::ToolCalls(c) => MessageView::ToolCalls(calls_view(c@)),
            Message::Assistant(s) => MessageView::Assistant(s@),
            Message::ToolResult { call_id, content } => MessageView::ToolResult {
                call_id: call_id@,
                content: content@,
            },
        }
    }
}

pub open spec fn history_view(h: Seq<Message>) -> Seq<MessageView> {
    h.map_values(|m: Message| m@)
}

/// What the chat-completion service answered.
pub enum Reply {
    /// A response: tool calls, or, where there are none, its text.
    Answer { calls: Vec<ToolCall>, text: String },
    /// The request could not be built; the text says why.
    RequestFailed(String),
    /// The transport failed; the text says why.
    TransportFailed(String),
}

/// What the caller is to do next.
pub enum DialogueAction {
    /// Send the history to the chat-completion service again.
    Request,
    /// Run this tool request and report its result.
    Execute(ToolRequest),
    /// The dialogue is over; this is the reply.
    Finish(String),
}

/// Progress through one dialogue: the tool calls of the current round and
/// which of them runs now.
pub struct Dialogue {
    pub pending: Vec<ToolCall>,
    pub next: usize,
    pub rounds: usize,
}

pub struct DialogueView {
    pub pending: Seq<ToolCallView>,
    pub next: int,
    pub rounds: int,
}

impl View for Dialogue {
    type V = DialogueView;

    open spec fn view(&self) -> DialogueView {
        DialogueView { pending: calls_view(self.pending@), next: self.next as int, rounds: self.rounds as int }
    }
}

/// The reply spoken when the tool-call rounds run out.
pub open spec fn round_limit_text() -> Seq<char> {
    "Ошибка: слишком много вызовов инструментов"@
}

/// The tool calls that `reply` asks for.
pub open spec fn reply_calls(reply: Reply) -> Seq<ToolCallView> {
    match reply {
        Reply::Answer { calls, text } => calls_view(calls@),
        _ => Seq::empty(),
    }
}

/// The final text of a reply that asks for no tool call.
pub open spec fn reply_text(reply: Reply) -> Seq<char> {
    match reply {
        Reply::Answer { calls, text } => text@,
        Reply::RequestFailed(e) => "Ошибка: "@ + e@,
        Reply::TransportFailed(e) => "Ошибка OpenAI: "@ + e@,
    }
}

pub open spec fn finishes(act: DialogueAction, text: Seq<char>) -> bool {
    match act {
        DialogueAction::Finish(t) => t@ == text,
        _ => false,
    }
}

pub open spec fn executes(act: DialogueAction, tools: Seq<ToolConfig>, call: ToolCallView) -> bool {
    match act {
        DialogueAction::Execute(r) => resolves_to(tools, call.name, json_arguments(call.arguments), r),
        _ => false,
    }
}

/// The history `h0` with query `q` begins a dialogue `d` with history `h1`.
pub open spec fn started(h0: Seq<MessageView>, q: Seq<char>, d: DialogueView, h1: Seq<MessageView>) -> bool {
    &&& h1 == h0.push(MessageView::User(q))
    &&& d.pending.len() == 0
    &&& d.next == 0
    &&& d.rounds == 0
}

/// The effect of `reply` on dialogue `d0` with history `h0`.
pub open spec fn reply_effect(
    d0: DialogueView,
    h0: Seq<MessageView>,
    tools: Seq<ToolConfig>,
    reply: Reply,
    d1: DialogueView,
    h1: Seq<MessageView>,
    act: DialogueAction,
) -> bool {
    let calls = reply_calls(reply);
    if calls.len() > 0 && d0.rounds < MAX_TOOL_ROUNDS {
        &&& h1 == h0.push(MessageView::ToolCalls(calls))
        &&& d1 == DialogueView { pending: calls, next: 0, rounds: d0.rounds + 1 }
        &&& executes(act, tools, calls[0])
    } else {
        let t = if calls.len() > 0 { round_limit_text() } else { reply_text(reply) };
        &&& h1 == h0.push(MessageView::Assistant(t))
        &&& d1 == DialogueView { pending: Seq::empty(), next: 0, rounds: d0.rounds }
        &&& finishes(act, t)
    }
}

/// The effect of a tool's result text on dialogue `d0` with history `h0`.
pub open spec fn result_effect(
    d0: DialogueView,
    h0: Seq<MessageView>,
    tools: Seq<ToolConfig>,
    result: Seq<char>,
    d1: DialogueView,
    h1: Seq<MessageView>,
    act: DialogueAction,
) -> bool {
    if 0 <= d0.next < d0.pending.len() {
        &&& h1 == h0.push(MessageView::ToolResult { call_id: d0.pending[d0.next].id, content: result })
        &&& d1 == DialogueView { next: d0.next + 1, ..d0 }
        &&& if d0.next + 1 < d0.pending.len() {
            executes(act, tools, d0.pending[d0.next + 1])
        } else {
            act is Request
        }
    } else {
        &&& h1 == h0
        &&& d1 == d0
        &&& act is Request
    }
}

/// A reply without tool calls ends a fresh dialogue with its text unchanged;
/// the history gains exactly the user's query and that text.
pub proof fn lemma_plain_reply(
    tools: Seq<ToolConfig>,
    h0: Seq<MessageView>,
    query: Seq<char>,
    d1: DialogueView,
    h1: Seq<MessageView>,
    reply: Reply,
    d2: DialogueView,
    h2: Seq<MessageView>,
    act: DialogueAction,
)
    requires
        started(h0, query, d1, h1),
        reply_effect(d1, h1, tools, reply, d2, h2, act),
        reply is Answer,
        reply_calls(reply).len() == 0,
    ensures
        finishes(act, reply->Answer_text@),
        h2 == h0 + seq![MessageView::User(query), MessageView::Assistant(reply->Answer_text@)],
{
    assert(h2 =~= h0 + seq![MessageView::User(query), MessageView::Assistant(reply->Answer_text@)]);
}

/// A reply asking for one tool call, followed by a reply without tool calls,
/// runs exactly that call once and ends with the second reply's text; the
/// history gains the query, the assistant's call, the call's result and the text.
pub proof fn lemma_one_tool_round(
    tools: Seq<ToolConfig>,
    h0: Seq<MessageView>,
    query: Seq<char>,
    d1: DialogueView,
    h1: Seq<MessageView>,
    first: Reply,
    d2: DialogueView,
    h2: Seq<MessageView>,
    a1: DialogueAction,
    result: Seq<char>,
    d3: DialogueView,
    h3: Seq<MessageView>,
    a2: DialogueAction,
    second: Reply,
    d4: DialogueView,
    h4: Seq<MessageView>,
    a3: DialogueAction,
)
    requires
        started(h0, query, d1, h1),
        reply_effect(d1, h1, tools, first, d2, h2, a1),
        reply_calls(first).len() == 1,
        result_effect(d2, h2, tools, result, d3, h3, a2),
        reply_effect(d3, h3, tools, second, d4, h4, a3),
        second is Answer,
        reply_calls(second).len() == 0,
    ensures
        executes(a1, tools, reply_calls(first)[0]),
        a2 is Request,
        finishes(a3, second->Answer_text@),
        h4 == h0 + seq![
            MessageView::User(query),
            MessageView::ToolCalls(reply_calls(first)),
            MessageView::ToolResult { call_id: reply_calls(first)[0].id, content: result },
            MessageView::Assistant(second->Answer_text@),
        ],
{
    assert(h4 =~= h0 + seq![
        MessageView::User(query),
        MessageView::ToolCalls(reply_calls(first)),
        MessageView::ToolResult { call_id: reply_calls(first)[0].id, content: result },
        MessageView::Assistant(second->Answer_text@),
    ]);
}

pub fn system_message(content: &str) -> (r: Message)
    ensures
        r@ == MessageView::System(content@),
{
    Message::System(String::from_str(content))
}

/// A conversation holding only the system prompt.
pub fn initial_history(system_prompt: &str) -> (r: Vec<Message>)
    ensures
        history_view(r@) == seq![MessageView::System(system_prompt@)],
{
    let r = vec![system_message(system_prompt)];
    proof {
        assert(history_view(r@) =~= seq![MessageView::System(system_prompt@)]);
    }
    r
}

fn copy_calls(v: &Vec<ToolCall>) -> (r: Vec<ToolCall>)
    ensures
        calls_view(r@) == calls_view(v@),
        r@.len() == v@.len(),
{
    let mut r: Vec<ToolCall> = Vec::new();
    let mut i: usize = 0;
    while i < v.len()
        invariant
            i <= v.len(),
            r@.len() == i,
            forall|k: int| 0 <= k < i ==> r@[k]@ == v@[k]@,
        decreases v.len() - i,
    {
        r.push(ToolCall {
            id: v[i].id.clone(),
            name: v[i].name.clone(),
            arguments: v[i].arguments.clone(),
        });
        i = i + 1;
    }
    proof {
        assert(calls_view(r@) =~= calls_view(v@));
    }
    r
}

fn push_message(history: &mut Vec<Message>, m: Message)
    ensures
        history_view(final(history)@) == history_view(old(history)@).push(m@),
{
    history.push(m);
    proof {
        assert(history_view(final(history)@) =~= history_view(old(history)@).push(m@));
    }
}

impl Dialogue {
    /// Begins a dialogue: the query joins the history as a user message.
    pub fn start(history: &mut Vec<Message>, query: &str) -> (r: Dialogue)
        ensures
            started(history_view(old(history)@), query@, r@, history_view(final(history)@)),
    {
        push_message(history, Message::User(String::from_str(query)));
        let r = Dialogue { pending: Vec::new(), next: 0, rounds: 0 };
        proof {
            assert(calls_view(r.pending@) =~= Seq::empty());
        }
        r
    }

    fn finish(&mut self, history: &mut Vec<Message>, text: String) -> (r: DialogueAction)
        ensures
            history_view(final(history)@) == history_view(old(history)@).push(MessageView::Assistant(text@)),
            final(self)@ == (DialogueView { pending: Seq::empty(), next: 0, rounds: old(self).rounds as int }),
            finishes(r, text@),
    {
        push_message(history, Message::Assistant(text.clone()));
        self.pending = Vec::new();
        self.next = 0;
        proof {
            assert(calls_view(self.pending@) =~= Seq::empty());
        }
        DialogueAction::Finish(text)
    }

    /// Takes the service's reply: a round of tool calls is recorded and its first
    /// call is to run; any other reply ends the dialogue with its text, which is
    /// recorded as the assistant's message. A round beyond `MAX_TOOL_ROUNDS`
    /// ends the dialogue with a fixed text.
    pub fn on_reply(&mut self, history: &mut Vec<Message>, tools: &ToolManager, reply: Reply) -> (r: DialogueAction)
        ensures
            reply_effect(
                old(self)@,
                history_view(old(history)@),
                tools.tools@,
                reply,
                final(self)@,
                history_view(final(history)@),
                r,
            ),
    {
        let ghost g = reply;
        match reply {
            Reply::Answer { calls, text } => {
                if calls.len() > 0 {
                    if self.rounds < MAX_TOOL_ROUNDS {
                        push_message(history, Message::ToolCalls(copy_calls(&calls)));
                        let req = tools.call_tool_json(calls[0].name.as_str(), calls[0].arguments.as_str());
                        self.pending = calls;
                        self.next = 0;
                        self.rounds = self.rounds + 1;
                        DialogueAction::Execute(req)
                    } else {
                        let t = String::from_str("Ошибка: слишком много вызовов инструментов");
                        self.finish(history, t)
                    }
                } else {
                    proof {
                        assert(reply_calls(g) =~= Seq::empty());
                    }
                    self.finish(history, text)
                }
            },
            Reply::RequestFailed(e) => {
                let mut t = String::from_str("Ошибка: ");
                t.append(e.as_str());
                self.finish(history, t)
            },
            Reply::TransportFailed(e) => {
                let mut t = String::from_str("Ошибка OpenAI: ");
                t.append(e.as_str());
                self.finish(history, t)
            },
        }
    }

    /// Takes the result text of the tool call that ran: it joins the history
    /// under that call's id, and the next call of the round is to run, or,
    /// after the last, the history is to be sent again.
    pub fn on_tool_result(&mut self, history: &mut Vec<Message>, tools: &ToolManager, result: String) -> (r: DialogueAction)
        ensures
            result_effect(
                old(self)@,
                history_view(old(history)@),
                tools.tools@,
                result@,
                final(self)@,
                history_view(final(history)@),
                r,
            ),
    {
        if self.next >= self.pending.len() {
            return DialogueAction::Request;
        }
        let id = self.pending[self.next].id.clone();
        push_message(history, Message::ToolResult { call_id: id, content: result });
        self.next = self.next + 1;
        if self.next < self.pending.len() {
            let c = &self.pending[self.next];
            DialogueAction::Execute(tools.call_tool_json(c.name.as_str(), c.arguments.as_str()))
        } else {
            DialogueAction::Request
        }
    }
}

} // verus!
