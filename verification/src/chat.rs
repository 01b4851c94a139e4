//! Chat data: the messages a session holds and the log it starts from.
//! The transport that carries them is the embedding program's concern.

use vstd::prelude::*;
use crate::tools::ToolDefinition;

verus! {

/// Who speaks in a message.
#[derive(PartialEq, Eq, Structural, Clone, Copy, Debug)]
pub enum Role {
    System,
    User,
    Assistant,
}

/// A model-issued request to call one named function with JSON-encoded
/// arguments.
#[derive(Debug, Clone, PartialEq, Eq)]
pub struct FunctionCall {
    pub name: String,
    pub arguments: String,
}

/// One tool call as the model emits it.
#[derive(Debug, Clone, PartialEq, Eq)]
pub struct ToolCall {
    pub id: String,
    pub tool_type: String,
    pub function: FunctionCall,
}

/// One message of a conversation.
#[derive(Debug, Clone, PartialEq, Eq)]
pub struct ChatMessage {
    pub role: Role,
    pub content: Option<String>,
    pub tool_calls: Option<Vec<ToolCall>>,
}

/// A whole session as it is logged: the model, the tool catalogue sent with
/// each request, and the messages so far.
#[derive(Debug, Clone)]
pub struct ChatSessionLog {
    pub model: String,
    pub tools: Vec<ToolDefinition>,
    pub messages: Vec<ChatMessage>,
}

/// Appends the user's prompt as the next turn of the conversation.
pub fn record_user_message(log: &mut ChatSessionLog, message: String)
    ensures
        final(log).model == old(log).model,
        final(log).tools == old(log).tools,
        final(log).messages@ == old(log).messages@.push(
            ChatMessage { role: Role::User, content: Some(message), tool_calls: None },
        ),
{
    log.messages.push(ChatMessage { role: Role::User, content: Some(message), tool_calls: None });
}

/// Appends the assistant's free-text reply.
pub fn record_assistant_text(log: &mut ChatSessionLog, content: String)
    ensures
        final(log).model == old(log).model,
        final(log).tools == old(log).tools,
        final(log).messages@ == old(log).messages@.push(
            ChatMessage { role: Role::Assistant, content: Some(content), tool_calls: None },
        ),
{
    log.messages.push(
        ChatMessage { role: Role::Assistant, content: Some(content), tool_calls: None },
    );
}

/// Appends the assistant's tool-calling turn.
pub fn record_tool_calls(log: &mut ChatSessionLog, calls: Vec<ToolCall>)
    ensures
        final(log).model == old(log).model,
        final(log).tools == old(log).tools,
        final(log).messages@ == old(log).messages@.push(
            ChatMessage { role: Role::Assistant, content: None, tool_calls: Some(calls) },
        ),
{
    log.messages.push(ChatMessage { role: Role::Assistant, content: None, tool_calls: Some(calls) });
}

/// Starts a session log: the system prompt first and, if context text was
/// handed in, one user message that quotes it after a fixed preamble.
pub fn initialize_log(
    system_prompt: String,
    model: String,
    tools: Vec<ToolDefinition>,
    context: Option<String>,
) -> (r: ChatSessionLog)
    ensures
        r.model@ == model@,
        r.tools@ == tools@,
        r.messages@.len() == (if context is Some {
            2int
        } else {
            1int
        }),
        r.messages@[0].role == Role::System,
        r.messages@[0].content is Some,
        r.messages@[0].content->Some_0@ == system_prompt@,
        r.messages@[0].tool_calls is None,
        context is Some ==> {
            &&& r.messages@[1].role == Role::User
            &&& r.messages@[1].content is Some
            &&& r.messages@[1].content->Some_0@ == "Let's take a look at this together:\n\n"@
                + context->Some_0@
            &&& r.messages@[1].tool_calls is None
        },
{
    let mut messages: Vec<ChatMessage> = Vec::new();
    messages.push(
        ChatMessage { role: Role::System, content: Some(system_prompt), tool_calls: None },
    );
    match context {
        Some(ctx) => {
            let mut text = String::from_str("Let's take a look at this together:\n\n");
            text.append(ctx.as_str());
            messages.push(
                ChatMessage { role: Role::User, content: Some(text), tool_calls: None },
            );
        },
        None => {},
    }
    ChatSessionLog { model, tools, messages }
}

} // verus!
