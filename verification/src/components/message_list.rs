//! The list of messages.

use vstd::prelude::*;
use crate::models::message::{Message, MessageRole, MessageView};

verus! {

/// A message as it is drawn: a bubble with the message's text, at the end of
/// its row if the user wrote it and at the start otherwise.
#[derive(Debug)]
pub struct MessageBubble {
    pub align_end: bool,
    pub content: String,
}

pub ghost struct MessageBubbleView {
    pub align_end: bool,
    pub content: Seq<char>,
}

impl View for MessageBubble {
    type V = MessageBubbleView;

    open spec fn view(&self) -> MessageBubbleView {
        MessageBubbleView { align_end: self.align_end, content: self.content@ }
    }
}

impl DeepView for MessageBubble {
    type V = MessageBubbleView;

    open spec fn deep_view(&self) -> MessageBubbleView {
        self@
    }
}

/// The bubble of a message.
pub open spec fn bubble(message: MessageView) -> MessageBubbleView {
    MessageBubbleView {
        align_end: message.role == MessageRole::User,
        content: message.content,
    }
}

/// The bubble of a message.
pub fn render_message(msg: &Message) -> (r: MessageBubble)
    ensures
        r@ == bubble(msg@),
{
    MessageBubble { align_end: msg.is_user(), content: msg.content.clone() }
}

/// The bubbles of the messages, in their order.
pub fn render_message_list(messages: &[Message]) -> (r: Vec<MessageBubble>)
    ensures
        r.deep_view() == messages@.map_values(|message: Message| bubble(message@)),
{
    let mut bubbles: Vec<MessageBubble> = Vec::new();
    let mut i: usize = 0;
    while i < messages.len()
        invariant
            i <= messages.len(),
            bubbles.len() == i,
            forall|j: int| 0 <= j < i ==> bubbles[j]@ == bubble(messages[j]@),
        decreases messages.len() - i,
    {
        bubbles.push(render_message(&messages[i]));
        i = i + 1;
    }
    assert(bubbles.deep_view() =~= messages@.map_values(|message: Message| bubble(message@)));
    bubbles
}

} // verus!
