//! The conversation: the messages so far and the text being typed.
//!
//! Without an agent service a sent message is answered at once with a stock
//! reply. With one, the answer comes later: sending leaves the conversation
//! loading until the host reports the answer.

use vstd::prelude::*;
use std::sync::Arc;
use crate::agent::service::AgentService;
use crate::agent::types::{ChatMessage, ChatMessageView};
use crate::models::message::{Message, MessageRole, MessageView};
use crate::text::{blank, is_blank};

verus! {

/// The conversation.
pub struct ConversationState {
    messages: Vec<Message>,
    input: String,
    agent_service: Option<Arc<AgentService>>,
    is_loading: bool,
}

/// The conversation as the contracts see it.
pub ghost struct ConversationView {
    pub messages: Seq<MessageView>,
    pub input: Seq<char>,
    /// Whether an agent service answers the messages.
    pub has_agent: bool,
    /// Whether an answer is being waited for.
    pub loading: bool,
}

/// Why a message could not be sent.
#[derive(Debug, Clone, Copy, PartialEq, Eq, Structural)]
pub enum ConversationError {
    /// There is no agent service to send it to.
    AgentNotConfigured,
}

impl ConversationError {
    /// The error in words.
    pub fn message(&self) -> (r: &'static str)
        ensures
            r@ == "Agent service not configured"@,
    {
        "Agent service not configured"
    }
}

/// The greeting that opens a conversation.
pub open spec fn welcome() -> Seq<char> {
    "你好！我是 AI 代码助手，我可以帮你：\n\n• 阅读和分析代码\n• 搜索代码库\n• 执行命令\n• 编写和修改文件\n\n有什么可以帮你的吗？"@
}

/// The short greeting, for a conversation that never has an agent service.
pub open spec fn short_welcome() -> Seq<char> {
    "你好！我是 AI 助手，有什么可以帮你的吗？"@
}

/// The stock reply given when the conversation holds `count` messages.
pub open spec fn mock_response(count: int) -> Seq<char> {
    if count % 4 == 0 {
        "我理解了你的问题。"@
    } else if count % 4 == 1 {
        "这是一个很好的想法！"@
    } else if count % 4 == 2 {
        "让我帮你分析一下。"@
    } else {
        "我会尽力帮助你。"@
    }
}

/// A message of the user.
pub open spec fn from_user(content: Seq<char>) -> MessageView {
    MessageView { role: MessageRole::User, content }
}

/// A message of the assistant.
pub open spec fn from_assistant(content: Seq<char>) -> MessageView {
    MessageView { role: MessageRole::Assistant, content }
}

/// A message as it is sent to the service: the role by its name.
pub open spec fn chat_message(message: MessageView) -> ChatMessageView {
    ChatMessageView { role: message.role.name(), content: message.content }
}

impl ConversationView {
    /// With `text` from the user and the stock reply to it.
    pub open spec fn exchanged(self, text: Seq<char>) -> ConversationView {
        ConversationView {
            messages: self.messages.push(from_user(text)).push(
                from_assistant(mock_response(self.messages.len() as int + 1)),
            ),
            ..self
        }
    }

    /// After the typed text was sent: it is a message of the user and the
    /// input is empty; without an agent service the stock reply follows,
    /// with one the conversation is loading.
    pub open spec fn sent(self) -> ConversationView {
        if self.has_agent {
            ConversationView {
                messages: self.messages.push(from_user(self.input)),
                input: Seq::empty(),
                loading: true,
                ..self
            }
        } else {
            ConversationView {
                input: Seq::empty(),
                loading: false,
                ..self.exchanged(self.input)
            }
        }
    }

    /// Whether the typed text can be sent: it is not blank and no answer is
    /// being waited for.
    pub open spec fn can_send(self) -> bool {
        !is_blank(self.input) && !self.loading
    }
}

impl View for ConversationState {
    type V = ConversationView;

    closed spec fn view(&self) -> ConversationView {
        ConversationView {
            messages: self.messages.deep_view(),
            input: self.input@,
            has_agent: self.agent_service is Some,
            loading: self.is_loading,
        }
    }
}

fn stock_reply(count: usize) -> (r: &'static str)
    ensures
        r@ == mock_response(count as int),
{
    let index = count % 4;
    if index == 0 {
        "我理解了你的问题。"
    } else if index == 1 {
        "这是一个很好的想法！"
    } else if index == 2 {
        "让我帮你分析一下。"
    } else {
        "我会尽力帮助你。"
    }
}

impl ConversationState {
    /// A new conversation: the greeting, nothing typed, no agent service.
    pub open spec fn new_view() -> ConversationView {
        ConversationView {
            messages: seq![from_assistant(welcome())],
            input: Seq::empty(),
            has_agent: false,
            loading: false,
        }
    }

    /// A conversation that opens with the assistant's greeting.
    pub fn new() -> (r: Self)
        ensures
            r@ == Self::new_view(),
    {
        let mut messages: Vec<Message> = Vec::new();
        messages.push(
            Message::assistant(
                "你好！我是 AI 代码助手，我可以帮你：\n\n• 阅读和分析代码\n• 搜索代码库\n• 执行命令\n• 编写和修改文件\n\n有什么可以帮你的吗？".to_owned(),
            ),
        );
        assert(messages.deep_view() =~= seq![from_assistant(welcome())]);
        ConversationState { messages, input: String::new(), agent_service: None, is_loading: false }
    }

    /// A conversation that opens with the short greeting.
    pub fn plain() -> (r: Self)
        ensures
            r@ == (ConversationView {
                messages: seq![from_assistant(short_welcome())],
                ..Self::new_view()
            }),
    {
        let mut messages: Vec<Message> = Vec::new();
        messages.push(Message::assistant("你好！我是 AI 助手，有什么可以帮你的吗？".to_owned()));
        assert(messages.deep_view() =~= seq![from_assistant(short_welcome())]);
        ConversationState { messages, input: String::new(), agent_service: None, is_loading: false }
    }

    /// A new conversation whose messages `agent_service` answers.
    pub fn with_agent_service(agent_service: Arc<AgentService>) -> (r: Self)
        ensures
            r@ == (ConversationView { has_agent: true, ..Self::new_view() }),
    {
        let mut state = Self::new();
        state.agent_service = Some(agent_service);
        state
    }

    /// From now on `agent_service` answers the messages.
    pub fn set_agent_service(&mut self, agent_service: Arc<AgentService>)
        ensures
            final(self)@ == (ConversationView { has_agent: true, ..old(self)@ }),
    {
        self.agent_service = Some(agent_service);
    }

    /// The agent service, if there is one.
    pub fn agent_service(&self) -> (r: Option<&Arc<AgentService>>)
        ensures
            r is Some == self@.has_agent,
    {
        self.agent_service.as_ref()
    }

    pub fn is_loading(&self) -> (r: bool)
        ensures
            r == self@.loading,
    {
        self.is_loading
    }

    pub fn messages(&self) -> (r: &[Message])
        ensures
            r@.map_values(|message: Message| message@) == self@.messages,
    {
        assert(self.messages@.map_values(|message: Message| message@)
            =~= self.messages.deep_view());
        self.messages.as_slice()
    }

    pub fn input(&self) -> (r: &str)
        ensures
            r@ == self@.input,
    {
        self.input.as_str()
    }

    pub fn set_input(&mut self, input: String)
        ensures
            final(self)@ == (ConversationView { input: input@, ..old(self)@ }),
    {
        self.input = input;
    }

    pub fn clear_input(&mut self)
        ensures
            final(self)@ == (ConversationView { input: Seq::empty(), ..old(self)@ }),
    {
        self.input = String::new();
    }

    pub fn add_user_message(&mut self, content: String)
        ensures
            final(self)@ == (ConversationView {
                messages: old(self)@.messages.push(from_user(content@)),
                ..old(self)@
            }),
    {
        self.messages.push(Message::user(content));
        assert(self.messages.deep_view() =~= old(self).messages.deep_view().push(
            from_user(content@),
        ));
    }

    pub fn add_assistant_message(&mut self, content: String)
        ensures
            final(self)@ == (ConversationView {
                messages: old(self)@.messages.push(from_assistant(content@)),
                ..old(self)@
            }),
    {
        self.messages.push(Message::assistant(content));
        assert(self.messages.deep_view() =~= old(self).messages.deep_view().push(
            from_assistant(content@),
        ));
    }

    /// Takes `text` from the user and gives the stock reply to it.
    pub fn exchange(&mut self, text: String)
        ensures
            final(self)@ == old(self)@.exchanged(text@),
    {
        self.add_user_message(text);
        assert(self.messages.deep_view().len() == self.messages.len());
        let reply = stock_reply(self.messages.len());
        self.add_assistant_message(reply.to_owned());
    }

    /// Sends the typed text as a message of the user, unless it is blank or
    /// an answer is being waited for. Says whether it was sent.
    pub fn send_message(&mut self) -> (r: bool)
        ensures
            r == old(self)@.can_send(),
            final(self)@ == if r {
                old(self)@.sent()
            } else {
                old(self)@
            },
    {
        if blank(self.input.as_str()) || self.is_loading {
            return false;
        }
        let user_message = self.input.clone();
        if self.agent_service.is_none() {
            self.exchange(user_message);
            self.clear_input();
            self.is_loading = false;
        } else {
            self.add_user_message(user_message);
            self.clear_input();
            self.is_loading = true;
        }
        true
    }

    /// The conversation as a transcript for the service, with `user_message`
    /// at its end.
    pub fn transcript(&self, user_message: String) -> (r: Vec<ChatMessage>)
        ensures
            r.deep_view() == self@.messages.map_values(
                |message: MessageView| chat_message(message),
            ).push(
                ChatMessageView { role: "user"@, content: user_message@ },
            ),
    {
        let mut out: Vec<ChatMessage> = Vec::new();
        let mut i: usize = 0;
        while i < self.messages.len()
            invariant
                i <= self.messages.len(),
                out.len() == i,
                forall|j: int| 0 <= j < i ==> out[j]@ == chat_message(self.messages[j]@),
            decreases self.messages.len() - i,
        {
            let message = &self.messages[i];
            out.push(
                ChatMessage {
                    role: message.role.as_str().to_owned(),
                    content: message.content.clone(),
                },
            );
            i = i + 1;
        }
        out.push(ChatMessage::user(user_message));
        assert(out.deep_view() =~= self@.messages.map_values(
            |message: MessageView| chat_message(message),
        ).push(ChatMessageView { role: "user"@, content: user_message@ }));
        out
    }

    /// A message is about to go to the agent service: the conversation is
    /// loading from now on. Fails if there is no agent service.
    pub fn start_async_send(&mut self) -> (r: Result<(), ConversationError>)
        ensures
            r is Ok == old(self)@.has_agent,
            r is Err ==> r == Err::<(), ConversationError>(ConversationError::AgentNotConfigured),
            final(self)@ == if old(self)@.has_agent {
                ConversationView { loading: true, ..old(self)@ }
            } else {
                old(self)@
            },
    {
        if self.agent_service.is_some() {
            self.is_loading = true;
            Ok(())
        } else {
            Err(ConversationError::AgentNotConfigured)
        }
    }

    /// The agent service answered with `response`: it is a message of the
    /// assistant, and the conversation is no longer loading.
    pub fn finish_async_send(&mut self, response: String)
        ensures
            final(self)@ == (ConversationView {
                messages: old(self)@.messages.push(from_assistant(response@)),
                loading: false,
                ..old(self)@
            }),
    {
        self.add_assistant_message(response);
        self.is_loading = false;
    }
}

impl Default for ConversationState {
    fn default() -> (r: Self)
        ensures
            r@ == ConversationState::new_view(),
    {
        Self::new()
    }
}

/// Sending never takes a message back: the conversation before is the
/// beginning of the conversation after.
pub proof fn messages_only_grow(conversation: ConversationView, text: Seq<char>)
    ensures
        conversation.messages.is_prefix_of(conversation.exchanged(text).messages),
        conversation.messages.is_prefix_of(conversation.sent().messages),
        conversation.exchanged(text).messages.len() == conversation.messages.len() + 2,
{
}

} // verus!
