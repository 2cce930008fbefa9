//! The chat box as a whole: the messages shown so far and the editor below
//! them.

use vstd::prelude::*;
use vstd::string::*;
use crate::chatbox::input::view::{span, ChatInputView, InputEffect};
use crate::chatbox::input::InteractiveChatInput;
use crate::offsets::Encoding;
use crate::text::{concat2, decimal, decimal_digits};

verus! {

/// The chat box.
pub struct InteractiveChatbox {
    messages: Vec<String>,
    /// The editor in which the next message is written.
    pub chat_input: InteractiveChatInput,
}

/// The chat box as the contracts see it.
pub ghost struct ChatboxView {
    pub messages: Seq<Seq<char>>,
    pub input: ChatInputView,
}

/// The messages that a new chat box greets with.
pub open spec fn welcome_messages() -> Seq<Seq<char>> {
    seq![
        "🎉 Welcome to the Interactive Chatbox!"@,
        "✨ This input field has full text editing functionality!"@,
        "💪 Try typing, selecting, copying, and pasting!"@,
        "⌨️ Use arrow keys, Home/End, Ctrl+A to select all!"@,
        "✨ The cursor blinks naturally when focused!"@,
    ]
}

/// The label before the message at `index`: its number, counted from one,
/// and a colon.
pub open spec fn message_label_text(index: int) -> Seq<char> {
    decimal_digits((index + 1) as nat) + seq![':']
}

/// The line that says how many messages there are.
pub open spec fn message_count_text(count: int) -> Seq<char> {
    decimal_digits(count as nat) + " messages"@
}

impl View for InteractiveChatbox {
    type V = ChatboxView;

    closed spec fn view(&self) -> ChatboxView {
        ChatboxView { messages: self.messages.deep_view(), input: self.chat_input@ }
    }
}

impl InteractiveChatbox {
    /// A chat box with the welcome messages and an empty editor.
    pub fn new() -> (r: Self)
        ensures
            r@.messages == welcome_messages(),
            r@.input == InteractiveChatInput::new_view(),
    {
        let mut messages: Vec<String> = Vec::new();
        messages.push("🎉 Welcome to the Interactive Chatbox!".to_owned());
        messages.push("✨ This input field has full text editing functionality!".to_owned());
        messages.push("💪 Try typing, selecting, copying, and pasting!".to_owned());
        messages.push("⌨️ Use arrow keys, Home/End, Ctrl+A to select all!".to_owned());
        messages.push("✨ The cursor blinks naturally when focused!".to_owned());
        assert(messages.deep_view() =~= welcome_messages());
        InteractiveChatbox { messages, chat_input: InteractiveChatInput::new() }
    }

    /// Appends a message.
    pub fn add_message(&mut self, message: &str)
        ensures
            final(self)@ == (ChatboxView {
                messages: old(self)@.messages.push(message@),
                ..old(self)@
            }),
    {
        self.messages.push(message.to_owned());
        assert(self.messages.deep_view() =~= old(self).messages.deep_view().push(message@));
    }

    /// The text in the editor.
    pub fn get_input_text(&self) -> (r: String)
        ensures
            r@ == self@.input.text,
    {
        self.chat_input.get_text()
    }

    /// Empties the editor.
    pub fn clear_input(&mut self) -> (effect: InputEffect)
        requires
            old(self)@.input.blinker.can_advance(1),
        ensures
            final(self)@.messages == old(self)@.messages,
            final(self)@.input == (ChatInputView {
                text: Seq::<char>::empty(),
                selected: span(0, 0),
                reversed: false,
                marked: None,
                blinker: old(self)@.input.blinker.paused(),
                ..old(self)@.input
            }),
            effect == old(self)@.input.pause_effect(),
    {
        self.chat_input.clear()
    }

    /// Puts `text` into the editor, with the cursor at its end.
    pub fn set_input_text(&mut self, text: String) -> (effect: InputEffect)
        requires
            old(self)@.input.blinker.can_advance(1),
        ensures
            final(self)@.messages == old(self)@.messages,
            final(self)@.input == (ChatInputView {
                text: text@,
                selected: span(Encoding::Utf8.len(text@), Encoding::Utf8.len(text@)),
                blinker: old(self)@.input.blinker.paused(),
                ..old(self)@.input
            }),
            effect == old(self)@.input.pause_effect(),
    {
        self.chat_input.set_text(text)
    }

    /// Removes all messages.
    pub fn clear_messages(&mut self)
        ensures
            final(self)@ == (ChatboxView { messages: Seq::empty(), ..old(self)@ }),
    {
        self.messages.clear();
        assert(self.messages.deep_view() =~= Seq::<Seq<char>>::empty());
    }

    /// The messages, oldest first.
    pub fn messages(&self) -> (r: &Vec<String>)
        ensures
            r.deep_view() == self@.messages,
    {
        &self.messages
    }

    /// The label drawn before the message at `index`.
    pub fn message_label(&self, index: usize) -> (r: String)
        requires
            index < self@.messages.len(),
        ensures
            r@ == message_label_text(index as int),
    {
        assert(self.messages.deep_view().len() == self.messages.len());
        let number = decimal(index + 1);
        proof {
            reveal_strlit(":");
            assert(":"@ =~= seq![':']);
        }
        concat2(number.as_str(), ":")
    }

    /// The line drawn at the foot, which says how many messages there are.
    pub fn message_count_label(&self) -> (r: String)
        ensures
            r@ == message_count_text(self@.messages.len() as int),
    {
        assert(self.messages.deep_view().len() == self.messages.len());
        let number = decimal(self.messages.len());
        concat2(number.as_str(), " messages")
    }
}

} // verus!
