//! A plain view of a conversation: each message in a bubble whose colour
//! tells who wrote it.

use vstd::prelude::*;
use crate::models::message::{Message, MessageRole, MessageView};

verus! {

/// The background of the user's bubbles, as `0xRRGGBB`.
pub const USER_BACKGROUND: u32 = 0x1e88e5;

/// The background of the assistant's bubbles, as `0xRRGGBB`.
pub const ASSISTANT_BACKGROUND: u32 = 0x424242;

/// The colour of the text in every bubble, as `0xRRGGBB`.
pub const BUBBLE_TEXT: u32 = 0xffffff;

/// The conversation to show.
pub struct Conversation {
    messages: Vec<Message>,
}

/// A bubble as it is drawn: its colours and its text.
#[derive(Debug)]
pub struct ColoredBubble {
    pub background: u32,
    pub text_color: u32,
    pub content: String,
}

pub ghost struct ColoredBubbleView {
    pub background: u32,
    pub text_color: u32,
    pub content: Seq<char>,
}

impl View for ColoredBubble {
    type V = ColoredBubbleView;

    open spec fn view(&self) -> ColoredBubbleView {
        ColoredBubbleView {
            background: self.background,
            text_color: self.text_color,
            content: self.content@,
        }
    }
}

impl DeepView for ColoredBubble {
    type V = ColoredBubbleView;

    open spec fn deep_view(&self) -> ColoredBubbleView {
        self@
    }
}

/// The bubble of a message.
pub open spec fn colored(message: MessageView) -> ColoredBubbleView {
    ColoredBubbleView {
        background: if message.role == MessageRole::User {
            USER_BACKGROUND
        } else {
            ASSISTANT_BACKGROUND
        },
        text_color: BUBBLE_TEXT,
        content: message.content,
    }
}

impl View for Conversation {
    type V = Seq<MessageView>;

    closed spec fn view(&self) -> Seq<MessageView> {
        self.messages.deep_view()
    }
}

impl Conversation {
    pub fn new(messages: Vec<Message>) -> (r: Self)
        ensures
            r@ == messages.deep_view(),
    {
        Conversation { messages }
    }

    /// The bubbles of the messages, in their order.
    pub fn render(&self) -> (r: Vec<ColoredBubble>)
        ensures
            r.deep_view() == self@.map_values(|message: MessageView| colored(message)),
    {
        let mut bubbles: Vec<ColoredBubble> = Vec::new();
        let mut i: usize = 0;
        while i < self.messages.len()
            invariant
                i <= self.messages.len(),
                bubbles.len() == i,
                forall|j: int| 0 <= j < i ==> bubbles[j]@ == colored(self.messages[j]@),
            decreases self.messages.len() - i,
        {
            let message = &self.messages[i];
            let background = if message.is_user() {
                USER_BACKGROUND
            } else {
                ASSISTANT_BACKGROUND
            };
            bubbles.push(
                ColoredBubble {
                    background,
                    text_color: BUBBLE_TEXT,
                    content: message.content.clone(),
                },
            );
            i = i + 1;
        }
        assert(bubbles.deep_view() =~= self@.map_values(|message: MessageView| colored(message)));
        bubbles
    }
}

} // verus!
