//! The values exchanged with the chat-completions service.

use vstd::prelude::*;
use serde_json::Value;
use crate::agent::json::string_members;

verus! {

/// One message of the transcript sent to the service.
#[derive(Debug, Clone)]
pub struct ChatMessage {
    pub role: String,
    pub content: String,
}

pub ghost struct ChatMessageView {
    pub role: Seq<char>,
    pub content: Seq<char>,
}

impl View for ChatMessage {
    type V = ChatMessageView;

    open spec fn view(&self) -> ChatMessageView {
        ChatMessageView { role: self.role@, content: self.content@ }
    }
}

impl DeepView for ChatMessage {
    type V = ChatMessageView;

    open spec fn deep_view(&self) -> ChatMessageView {
        self@
    }
}

impl ChatMessage {
    pub fn user(content: String) -> (r: Self)
        ensures
            r@ == (ChatMessageView { role: "user"@, content: content@ }),
    {
        ChatMessage { role: "user".to_owned(), content }
    }

    pub fn assistant(content: String) -> (r: Self)
        ensures
            r@ == (ChatMessageView { role: "assistant"@, content: content@ }),
    {
        ChatMessage { role: "assistant".to_owned(), content }
    }

    pub fn system(content: String) -> (r: Self)
        ensures
            r@ == (ChatMessageView { role: "system"@, content: content@ }),
    {
        ChatMessage { role: "system".to_owned(), content }
    }

    /// The result of a tool, as it is appended to the transcript.
    pub fn tool(content: String) -> (r: Self)
        ensures
            r@ == (ChatMessageView { role: "tool"@, content: content@ }),
    {
        ChatMessage { role: "tool".to_owned(), content }
    }

    /// A copy with the same role and text.
    pub fn duplicate(&self) -> (r: Self)
        ensures
            r@ == self@,
    {
        ChatMessage { role: self.role.clone(), content: self.content.clone() }
    }
}

/// One parameter of a tool: its name, its JSON type and what it is for.
#[derive(Debug, Clone)]
pub struct ParameterSchema {
    pub name: String,
    pub value_type: String,
    pub description: String,
}

pub ghost struct ParameterSchemaView {
    pub name: Seq<char>,
    pub value_type: Seq<char>,
    pub description: Seq<char>,
}

impl View for ParameterSchema {
    type V = ParameterSchemaView;

    open spec fn view(&self) -> ParameterSchemaView {
        ParameterSchemaView {
            name: self.name@,
            value_type: self.value_type@,
            description: self.description@,
        }
    }
}

impl DeepView for ParameterSchema {
    type V = ParameterSchemaView;

    open spec fn deep_view(&self) -> ParameterSchemaView {
        self@
    }
}

/// The parameters of a tool: an object schema with its properties and the
/// names of those that a call must give.
#[derive(Debug, Clone)]
pub struct ToolParameters {
    pub properties: Vec<ParameterSchema>,
    pub required: Vec<String>,
}

pub ghost struct ToolParametersView {
    pub properties: Seq<ParameterSchemaView>,
    pub required: Seq<Seq<char>>,
}

impl View for ToolParameters {
    type V = ToolParametersView;

    open spec fn view(&self) -> ToolParametersView {
        ToolParametersView {
            properties: self.properties.deep_view(),
            required: self.required.deep_view(),
        }
    }
}

/// A tool offered to the model.
#[derive(Debug, Clone)]
pub struct ToolDefinition {
    pub name: String,
    pub description: String,
    pub parameters: ToolParameters,
}

pub ghost struct ToolDefinitionView {
    pub name: Seq<char>,
    pub description: Seq<char>,
    pub parameters: ToolParametersView,
}

impl View for ToolDefinition {
    type V = ToolDefinitionView;

    open spec fn view(&self) -> ToolDefinitionView {
        ToolDefinitionView {
            name: self.name@,
            description: self.description@,
            parameters: self.parameters@,
        }
    }
}

impl DeepView for ToolDefinition {
    type V = ToolDefinitionView;

    open spec fn deep_view(&self) -> ToolDefinitionView {
        self@
    }
}

/// What is asked of the service: the transcript, the tools on offer and
/// whether the answer should be streamed.
#[derive(Debug, Clone)]
pub struct AgentRequest {
    pub messages: Vec<ChatMessage>,
    pub tools: Option<Vec<ToolDefinition>>,
    pub stream: bool,
}

/// A call of a tool that the model asks for.
#[derive(Debug, Clone)]
pub struct ToolCall {
    pub id: String,
    pub name: String,
    pub arguments: Value,
}

/// A tool call as the contracts see it: the identifier, the tool's name and
/// the string-valued members of the arguments.
pub ghost struct ToolCallView {
    pub id: Seq<char>,
    pub name: Seq<char>,
    pub arguments: Map<Seq<char>, Seq<char>>,
}

impl View for ToolCall {
    type V = ToolCallView;

    open spec fn view(&self) -> ToolCallView {
        ToolCallView {
            id: self.id@,
            name: self.name@,
            arguments: string_members(self.arguments),
        }
    }
}

impl DeepView for ToolCall {
    type V = ToolCallView;

    open spec fn deep_view(&self) -> ToolCallView {
        self@
    }
}

/// What the service answered.
#[derive(Debug, Clone)]
pub struct AgentResponse {
    pub content: String,
    pub tool_calls: Vec<ToolCall>,
    pub finish_reason: String,
}

/// One event of a streamed answer.
#[derive(Debug, Clone)]
pub enum StreamEvent {
    /// A piece of text.
    TextDelta(String),
    /// The model starts a tool call.
    ToolCallStart { id: String, name: String },
    /// A piece of a tool call's arguments.
    ToolCallArgumentsDelta { id: String, delta: String },
    /// A tool call is complete.
    ToolCallComplete { id: String, name: String, arguments: Value },
    /// A tool starts running.
    ToolExecutionStart { id: String, name: String },
    /// A tool has run.
    ToolExecutionComplete { id: String, result: String },
    /// The answer is complete.
    Done,
    /// Something went wrong.
    Error(String),
}

} // verus!
