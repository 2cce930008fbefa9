//! A single message of a conversation and the role of its author.

use vstd::prelude::*;

verus! {

/// Who wrote a message.
#[derive(Debug, Clone, Copy, PartialEq, Eq, Structural)]
pub enum MessageRole {
    User,
    Assistant,
}

impl MessageRole {
    /// The role's name as the chat service spells it.
    pub open spec fn name(self) -> Seq<char> {
        match self {
            MessageRole::User => "user"@,
            MessageRole::Assistant => "assistant"@,
        }
    }

    pub fn as_str(&self) -> (r: &str)
        ensures
            r@ == self.name(),
    {
        match self {
            MessageRole::User => "user",
            MessageRole::Assistant => "assistant",
        }
    }

    pub fn is_user(&self) -> (r: bool)
        ensures
            r == (*self == MessageRole::User),
    {
        matches!(self, MessageRole::User)
    }

    pub fn is_assistant(&self) -> (r: bool)
        ensures
            r == (*self == MessageRole::Assistant),
    {
        matches!(self, MessageRole::Assistant)
    }
}

/// A message: its author's role and its text.
#[derive(Debug, Clone)]
pub struct Message {
    pub role: MessageRole,
    pub content: String,
}

/// What a [`Message`] means: the role and the text as a sequence of characters.
pub ghost struct MessageView {
    pub role: MessageRole,
    pub content: Seq<char>,
}

impl View for Message {
    type V = MessageView;

    open spec fn view(&self) -> MessageView {
        MessageView { role: self.role, content: self.content@ }
    }
}

impl DeepView for Message {
    type V = MessageView;

    open spec fn deep_view(&self) -> MessageView {
        self@
    }
}

impl Message {
    /// A message written by the user.
    pub fn user(content: String) -> (r: Self)
        ensures
            r@ == (MessageView { role: MessageRole::User, content: content@ }),
    {
        Message { role: MessageRole::User, content }
    }

    /// A message written by the assistant.
    pub fn assistant(content: String) -> (r: Self)
        ensures
            r@ == (MessageView { role: MessageRole::Assistant, content: content@ }),
    {
        Message { role: MessageRole::Assistant, content }
    }

    pub fn is_user(&self) -> (r: bool)
        ensures
            r == (self@.role == MessageRole::User),
    {
        self.role.is_user()
    }

    pub fn is_assistant(&self) -> (r: bool)
        ensures
            r == (self@.role == MessageRole::Assistant),
    {
        self.role.is_assistant()
    }
}

/// The role names are distinct, so a name identifies its role.
pub proof fn role_names_differ()
    ensures
        MessageRole::User.name() != MessageRole::Assistant.name(),
{
    reveal_strlit("user");
    reveal_strlit("assistant");
    assert("user"@.len() == 4);
    assert("assistant"@.len() == 9);
}

} // verus!
