//! The service as it is addressed: its configuration, and the body of a
//! request to it.
//!
//! The library sends nothing itself. It says what to send and takes what came
//! back; the host does the sending.

use vstd::prelude::*;
use crate::agent::tools::{available_tools, get_available_tools};
use crate::agent::types::{
    AgentRequest, ChatMessage, ChatMessageView, ParameterSchema, ToolDefinition,
    ToolDefinitionView, ToolParameters,
};
use crate::text::concat2;

verus! {

/// Where the service is and how to address it.
#[derive(Debug, Clone)]
pub struct AgentConfig {
    pub api_key: String,
    pub api_base: String,
    pub model: String,
}

pub ghost struct AgentConfigView {
    pub api_key: Seq<char>,
    pub api_base: Seq<char>,
    pub model: Seq<char>,
}

impl View for AgentConfig {
    type V = AgentConfigView;

    open spec fn view(&self) -> AgentConfigView {
        AgentConfigView { api_key: self.api_key@, api_base: self.api_base@, model: self.model@ }
    }
}

/// The given text, or `fallback` where there is none.
pub open spec fn or_text(given: Option<String>, fallback: Seq<char>) -> Seq<char> {
    match given {
        Some(text) => text@,
        None => fallback,
    }
}

pub(crate) fn text_or(given: Option<String>, fallback: &str) -> (r: String)
    ensures
        r@ == or_text(given, fallback@),
{
    match given {
        Some(text) => text,
        None => fallback.to_owned(),
    }
}

impl AgentConfig {
    /// The configuration that the environment gives: each setting as it is
    /// set, and where it is not, no key, the public endpoint and `gpt-4`.
    pub fn from_settings(
        api_key: Option<String>,
        api_base: Option<String>,
        model: Option<String>,
    ) -> (r: Self)
        ensures
            r@ == (AgentConfigView {
                api_key: or_text(api_key, Seq::empty()),
                api_base: or_text(api_base, "https://api.openai.com/v1"@),
                model: or_text(model, "gpt-4"@),
            }),
    {
        proof {
            reveal_strlit("");
            assert(""@ =~= Seq::<char>::empty());
        }
        AgentConfig {
            api_key: text_or(api_key, ""),
            api_base: text_or(api_base, "https://api.openai.com/v1"),
            model: text_or(model, "gpt-4"),
        }
    }
}

/// A tool as the service wants it described.
#[derive(Debug, Clone)]
pub struct ApiTool {
    /// The kind of tool: always `function`.
    pub kind: String,
    pub function: ToolDefinition,
}

pub ghost struct ApiToolView {
    pub kind: Seq<char>,
    pub function: ToolDefinitionView,
}

impl View for ApiTool {
    type V = ApiToolView;

    open spec fn view(&self) -> ApiToolView {
        ApiToolView { kind: self.kind@, function: self.function@ }
    }
}

impl DeepView for ApiTool {
    type V = ApiToolView;

    open spec fn deep_view(&self) -> ApiToolView {
        self@
    }
}

/// The body of a request to the service.
#[derive(Debug, Clone)]
pub struct ApiRequest {
    pub model: String,
    pub messages: Vec<ChatMessage>,
    pub stream: bool,
    /// The tools on offer, if any are.
    pub tools: Option<Vec<ApiTool>>,
    /// How the model may choose among the tools; given with the tools.
    pub tool_choice: Option<String>,
}

pub ghost struct ApiRequestView {
    pub model: Seq<char>,
    pub messages: Seq<ChatMessageView>,
    pub stream: bool,
    pub tools: Option<Seq<ApiToolView>>,
    pub tool_choice: Option<Seq<char>>,
}

impl View for ApiRequest {
    type V = ApiRequestView;

    open spec fn view(&self) -> ApiRequestView {
        ApiRequestView {
            model: self.model@,
            messages: self.messages.deep_view(),
            stream: self.stream,
            tools: match self.tools {
                Some(tools) => Some(tools.deep_view()),
                None => None,
            },
            tool_choice: match self.tool_choice {
                Some(choice) => Some(choice@),
                None => None,
            },
        }
    }
}

/// A tool wrapped as a function for the service.
pub open spec fn as_function(tool: ToolDefinitionView) -> ApiToolView {
    ApiToolView { kind: "function"@, function: tool }
}

/// A copy of the messages.
pub fn copy_messages(messages: &Vec<ChatMessage>) -> (r: Vec<ChatMessage>)
    ensures
        r.deep_view() == messages.deep_view(),
{
    let mut out: Vec<ChatMessage> = Vec::new();
    let mut i: usize = 0;
    while i < messages.len()
        invariant
            i <= messages.len(),
            out.len() == i,
            forall|j: int| 0 <= j < i ==> out[j]@ == messages[j]@,
        decreases messages.len() - i,
    {
        out.push(messages[i].duplicate());
        i = i + 1;
    }
    assert(out.deep_view() =~= messages.deep_view());
    out
}

fn copy_strings(texts: &Vec<String>) -> (r: Vec<String>)
    ensures
        r.deep_view() == texts.deep_view(),
{
    let mut out: Vec<String> = Vec::new();
    let mut i: usize = 0;
    while i < texts.len()
        invariant
            i <= texts.len(),
            out.len() == i,
            forall|j: int| 0 <= j < i ==> out[j]@ == texts[j]@,
        decreases texts.len() - i,
    {
        out.push(texts[i].clone());
        i = i + 1;
    }
    assert(out.deep_view() =~= texts.deep_view());
    out
}

fn copy_properties(properties: &Vec<ParameterSchema>) -> (r: Vec<ParameterSchema>)
    ensures
        r.deep_view() == properties.deep_view(),
{
    let mut out: Vec<ParameterSchema> = Vec::new();
    let mut i: usize = 0;
    while i < properties.len()
        invariant
            i <= properties.len(),
            out.len() == i,
            forall|j: int| 0 <= j < i ==> out[j]@ == properties[j]@,
        decreases properties.len() - i,
    {
        let property = &properties[i];
        out.push(
            ParameterSchema {
                name: property.name.clone(),
                value_type: property.value_type.clone(),
                description: property.description.clone(),
            },
        );
        i = i + 1;
    }
    assert(out.deep_view() =~= properties.deep_view());
    out
}

fn function_tool(tool: &ToolDefinition) -> (r: ApiTool)
    ensures
        r@ == as_function(tool@),
{
    ApiTool {
        kind: "function".to_owned(),
        function: ToolDefinition {
            name: tool.name.clone(),
            description: tool.description.clone(),
            parameters: ToolParameters {
                properties: copy_properties(&tool.parameters.properties),
                required: copy_strings(&tool.parameters.required),
            },
        },
    }
}

fn function_tools(tools: &Vec<ToolDefinition>) -> (r: Vec<ApiTool>)
    ensures
        r.deep_view() == tools.deep_view().map_values(|tool: ToolDefinitionView| as_function(tool)),
{
    let mut out: Vec<ApiTool> = Vec::new();
    let mut i: usize = 0;
    while i < tools.len()
        invariant
            i <= tools.len(),
            out.len() == i,
            forall|j: int| 0 <= j < i ==> out[j]@ == as_function(tools[j]@),
        decreases tools.len() - i,
    {
        out.push(function_tool(&tools[i]));
        i = i + 1;
    }
    assert(out.deep_view() =~= tools.deep_view().map_values(
        |tool: ToolDefinitionView| as_function(tool),
    ));
    out
}

/// The service as this library knows it: its configuration.
#[derive(Debug, Clone)]
pub struct AgentService {
    config: AgentConfig,
}

impl View for AgentService {
    type V = AgentConfigView;

    closed spec fn view(&self) -> AgentConfigView {
        self.config@
    }
}

/// The body of the request that asks `model` for an answer to `request`: the
/// messages and the streaming flag as they are, and, if tools are on offer,
/// each tool as a function and the choice among them left to the model.
pub open spec fn api_request(
    model: Seq<char>,
    messages: Seq<ChatMessageView>,
    tools: Option<Seq<ToolDefinitionView>>,
    stream: bool,
) -> ApiRequestView {
    ApiRequestView {
        model,
        messages,
        stream,
        tools: match tools {
            Some(tools) => Some(tools.map_values(|tool: ToolDefinitionView| as_function(tool))),
            None => None,
        },
        tool_choice: match tools {
            Some(_) => Some("auto"@),
            None => None,
        },
    }
}

/// The tools of a request as the contracts see them.
pub open spec fn tools_view(tools: Option<Vec<ToolDefinition>>) -> Option<Seq<ToolDefinitionView>> {
    match tools {
        Some(tools) => Some(tools.deep_view()),
        None => None,
    }
}

impl AgentService {
    pub fn new(config: AgentConfig) -> (r: Self)
        ensures
            r@ == config@,
    {
        AgentService { config }
    }

    pub fn config(&self) -> (r: &AgentConfig)
        ensures
            r@ == self@,
    {
        &self.config
    }

    /// The address to which requests are posted.
    pub fn endpoint(&self) -> (r: String)
        ensures
            r@ == self@.api_base + "/chat/completions"@,
    {
        concat2(self.config.api_base.as_str(), "/chat/completions")
    }

    /// The value of the `Authorization` header.
    pub fn authorization(&self) -> (r: String)
        ensures
            r@ == "Bearer "@ + self@.api_key,
    {
        concat2("Bearer ", self.config.api_key.as_str())
    }

    /// The request that asks for one answer to `messages`, with every tool
    /// on offer.
    pub fn message_request(&self, messages: Vec<ChatMessage>) -> (r: AgentRequest)
        ensures
            r.messages == messages,
            tools_view(r.tools) == Some(available_tools()),
            !r.stream,
    {
        AgentRequest { messages, tools: Some(get_available_tools()), stream: false }
    }

    /// The request that asks for a streamed answer to `messages`, with every
    /// tool on offer.
    pub fn stream_request(&self, messages: Vec<ChatMessage>) -> (r: AgentRequest)
        ensures
            r.messages == messages,
            tools_view(r.tools) == Some(available_tools()),
            r.stream,
    {
        AgentRequest { messages, tools: Some(get_available_tools()), stream: true }
    }

    /// The body to post for `request`.
    pub fn build_api_request(&self, request: &AgentRequest) -> (r: ApiRequest)
        ensures
            r@ == api_request(
                self@.model,
                request.messages.deep_view(),
                tools_view(request.tools),
                request.stream,
            ),
    {
        let messages = copy_messages(&request.messages);
        match &request.tools {
            Some(tools) => ApiRequest {
                model: self.config.model.clone(),
                messages,
                stream: request.stream,
                tools: Some(function_tools(tools)),
                tool_choice: Some("auto".to_owned()),
            },
            None => ApiRequest {
                model: self.config.model.clone(),
                messages,
                stream: request.stream,
                tools: None,
                tool_choice: None,
            },
        }
    }
}

} // verus!
