//! The conversation log: messages exchanged with the model service, in order.

use vstd::prelude::*;

verus! {

/// The role of one message in the conversation log.
#[derive(Clone, Copy, Debug, PartialEq, Eq, Structural)]
pub enum Role {
    System,
    User,
    Assistant,
    Tool,
}

/// One tool invocation requested by the model: an opaque call id, the name of
/// the function to invoke, and its arguments as a JSON-encoded string.
/// Such values are only ever produced by the model service, never fabricated
/// locally.
#[derive(Debug, PartialEq)]
pub struct ToolCallRef {
    pub id: String,
    pub function_name: String,
    pub arguments_json: String,
}

impl Clone for ToolCallRef {
    /// A field-for-field copy of the call.
    fn clone(&self) -> (r: Self)
        ensures
            r == *self,
    {
        ToolCallRef {
            id: self.id.clone(),
            function_name: self.function_name.clone(),
            arguments_json: self.arguments_json.clone(),
        }
    }
}

/// One entry of the conversation log.
#[derive(Debug, PartialEq)]
pub struct Message {
    pub role: Role,
    pub content: Option<String>,
    pub tool_calls: Option<Vec<ToolCallRef>>,
    pub tool_call_id: Option<String>,
}

/// The fixed system prompt that seeds every fresh conversation and describes
/// the tool-use policy to the model.
pub const SYSTEM_PROMPT: &'static str = "Use the exec tool to run bash commands that corresponds to the user's request. These will be run in a child process, so e.g. 'cd' will not persist outside your command. Don't hesitate to run multiple tool commands. When you've received the results, add an explanation.";

/// A system message carrying the fixed system prompt and nothing else.
pub open spec fn is_system_message(m: Message) -> bool {
    &&& m.role is System
    &&& m.content matches Some(c) && c@ == SYSTEM_PROMPT@
    &&& m.tool_calls is None
    &&& m.tool_call_id is None
}

/// A user message carrying exactly the text `t`.
pub open spec fn is_user_message(m: Message, t: Seq<char>) -> bool {
    &&& m.role is User
    &&& m.content matches Some(c) && c@ == t
    &&& m.tool_calls is None
    &&& m.tool_call_id is None
}

/// An assistant message carrying exactly the tool calls `calls` and no text.
pub open spec fn is_assistant_tool_message(m: Message, calls: Seq<ToolCallRef>) -> bool {
    &&& m.role is Assistant
    &&& m.content is None
    &&& m.tool_calls matches Some(tc) && tc@ == calls
    &&& m.tool_call_id is None
}

/// A tool message answering the call `id` with the text `content`.
pub open spec fn is_tool_message(m: Message, id: Seq<char>, content: Seq<char>) -> bool {
    &&& m.role is Tool
    &&& m.content matches Some(c) && c@ == content
    &&& m.tool_calls is None
    &&& m.tool_call_id matches Some(i) && i@ == id
}

/// The ordered conversation log. It is seeded, at session start and on every
/// reset, with exactly one system message; afterwards messages are only ever
/// appended, never removed, until the next full reset.
pub struct Context {
    messages: Vec<Message>,
}

impl View for Context {
    type V = Seq<Message>;

    closed spec fn view(&self) -> Seq<Message> {
        self.messages@
    }
}

impl Context {
    /// A fresh log holding exactly the one system message.
    pub fn new() -> (r: Self)
        ensures
            r@.len() == 1,
            is_system_message(r@[0]),
    {
        let mut messages: Vec<Message> = Vec::new();
        messages.push(Message {
            role: Role::System,
            content: Some(SYSTEM_PROMPT.to_owned()),
            tool_calls: None,
            tool_call_id: None,
        });
        Context { messages }
    }

    /// Replace the whole log with the single seeding system message,
    /// whatever it held before.
    pub fn reset(&mut self)
        ensures
            final(self)@.len() == 1,
            is_system_message(final(self)@[0]),
    {
        *self = Context::new();
    }

    /// How many messages the log holds.
    pub fn len(&self) -> (r: usize)
        ensures
            r == self@.len(),
    {
        self.messages.len()
    }

    /// The message at position `i`.
    pub fn message_at(&self, i: usize) -> (r: &Message)
        requires
            i < self@.len(),
        ensures
            *r == self@[i as int],
    {
        &self.messages[i]
    }

    /// Append the user's text as a user message.
    pub fn append_user(&mut self, text: &str)
        ensures
            final(self)@.len() == old(self)@.len() + 1,
            final(self)@.drop_last() == old(self)@,
            is_user_message(final(self)@.last(), text@),
    {
        self.messages.push(Message {
            role: Role::User,
            content: Some(text.to_owned()),
            tool_calls: None,
            tool_call_id: None,
        });
        proof {
            assert(self.messages@.drop_last() =~= old(self).messages@);
        }
    }

    /// Append an assistant message carrying the model's tool calls verbatim.
    pub fn append_assistant_tool_calls(&mut self, calls: Vec<ToolCallRef>)
        ensures
            final(self)@.len() == old(self)@.len() + 1,
            final(self)@.drop_last() == old(self)@,
            is_assistant_tool_message(final(self)@.last(), calls@),
    {
        self.messages.push(Message {
            role: Role::Assistant,
            content: None,
            tool_calls: Some(calls),
            tool_call_id: None,
        });
        proof {
            assert(self.messages@.drop_last() =~= old(self).messages@);
        }
    }

    /// Append one tool result: the text produced for the call `call_id`.
    pub fn append_tool_result(&mut self, call_id: String, content: String)
        ensures
            final(self)@.len() == old(self)@.len() + 1,
            final(self)@.drop_last() == old(self)@,
            is_tool_message(final(self)@.last(), call_id@, content@),
    {
        self.messages.push(Message {
            role: Role::Tool,
            content: Some(content),
            tool_calls: None,
            tool_call_id: Some(call_id),
        });
        proof {
            assert(self.messages@.drop_last() =~= old(self).messages@);
        }
    }
}

} // verus!
