//! The message input: the editor with a send button beside it.
//!
//! The host keeps the handlers that are called when a message is sent or the
//! attachment button is pressed; this component knows whether there are any
//! and decides when one is due.

use vstd::prelude::*;
use crate::chatbox::input::view::{span, ChatInputView, InputEffect};
use crate::chatbox::input::InteractiveChatInput;
use crate::text::{blank, is_blank, same_text};

verus! {

/// The message input.
pub struct MessageInput {
    /// The editor in which the message is written.
    pub text_input: InteractiveChatInput,
    on_send: bool,
    on_attach: bool,
}

/// The message input as the contracts see it.
pub ghost struct MessageInputView {
    pub input: ChatInputView,
    /// Whether the host has a handler for sent messages.
    pub on_send: bool,
    /// Whether the host has a handler for the attachment button.
    pub on_attach: bool,
}

/// A colour of the theme, by the part it plays.
#[derive(Debug, Clone, Copy, PartialEq, Eq, Structural)]
pub enum ThemeColor {
    Primary,
    PrimaryForeground,
    Muted,
    MutedForeground,
    Foreground,
}

/// The shape of the pointer over a control.
#[derive(Debug, Clone, Copy, PartialEq, Eq, Structural)]
pub enum PointerShape {
    Arrow,
    PointingHand,
}

/// How the send button is drawn.
#[derive(Debug, Clone, Copy, PartialEq, Eq, Structural)]
pub struct SendButton {
    pub background: ThemeColor,
    pub pointer: PointerShape,
    /// Whether the button dims a little under the pointer.
    pub hover: bool,
    pub icon_color: ThemeColor,
}

/// The send button while there is, or is not, a message to send.
pub open spec fn send_button(has_text: bool) -> SendButton {
    if has_text {
        SendButton {
            background: ThemeColor::Primary,
            pointer: PointerShape::PointingHand,
            hover: true,
            icon_color: ThemeColor::PrimaryForeground,
        }
    } else {
        SendButton {
            background: ThemeColor::Muted,
            pointer: PointerShape::Arrow,
            hover: false,
            icon_color: ThemeColor::MutedForeground,
        }
    }
}

/// The editor once its text was taken out to be sent.
pub open spec fn emptied(input: ChatInputView) -> ChatInputView {
    ChatInputView {
        text: Seq::<char>::empty(),
        selected: span(0, 0),
        reversed: false,
        marked: None,
        blinker: input.blinker.paused(),
        ..input
    }
}

/// Whether a key sends the message: the enter key, with neither shift nor
/// alt held.
pub open spec fn sends(key: Seq<char>, shift: bool, alt: bool) -> bool {
    key == "enter"@ && !shift && !alt
}

impl View for MessageInput {
    type V = MessageInputView;

    closed spec fn view(&self) -> MessageInputView {
        MessageInputView {
            input: self.text_input@,
            on_send: self.on_send,
            on_attach: self.on_attach,
        }
    }
}

impl MessageInput {
    /// A message input around the given editor, with no handlers yet.
    pub fn new(text_input: InteractiveChatInput) -> (r: Self)
        ensures
            r@ == (MessageInputView { input: text_input@, on_send: false, on_attach: false }),
    {
        MessageInput { text_input, on_send: false, on_attach: false }
    }

    /// Notes that the host has a handler for sent messages.
    pub fn on_send(self) -> (r: Self)
        ensures
            r@ == (MessageInputView { on_send: true, ..self@ }),
    {
        let mut this = self;
        this.on_send = true;
        this
    }

    /// Notes that the host has a handler for the attachment button.
    pub fn on_attach(self) -> (r: Self)
        ensures
            r@ == (MessageInputView { on_attach: true, ..self@ }),
    {
        let mut this = self;
        this.on_attach = true;
        this
    }

    /// The text in the editor.
    pub fn text(&self) -> (r: String)
        ensures
            r@ == self@.input.text,
    {
        self.text_input.get_text()
    }

    /// Empties the editor.
    pub fn clear(&mut self) -> (effect: InputEffect)
        requires
            old(self)@.input.blinker.can_advance(1),
        ensures
            final(self)@ == (MessageInputView { input: emptied(old(self)@.input), ..old(self)@ }),
            effect == old(self)@.input.pause_effect(),
    {
        self.text_input.clear()
    }

    /// Sets the text shown while the editor is empty.
    pub fn set_placeholder(&mut self, placeholder: String)
        ensures
            final(self)@ == (MessageInputView {
                input: ChatInputView { placeholder: placeholder@, ..old(self)@.input },
                ..old(self)@
            }),
    {
        self.text_input.set_placeholder(placeholder);
    }

    /// Takes the text out of the editor to send it. The text is handed to the
    /// host's handler if it is not blank and there is a handler; else it is
    /// dropped.
    pub fn send_message(&mut self) -> (r: (Option<String>, InputEffect))
        requires
            old(self)@.input.blinker.can_advance(1),
        ensures
            final(self)@ == (MessageInputView { input: emptied(old(self)@.input), ..old(self)@ }),
            r.1 == old(self)@.input.pause_effect(),
            r.0 is Some == (!is_blank(old(self)@.input.text) && old(self)@.on_send),
            r.0 matches Some(text) ==> text@ == old(self)@.input.text,
    {
        let text = self.text_input.get_text();
        let effect = self.text_input.clear();
        if !blank(text.as_str()) && self.on_send {
            (Some(text), effect)
        } else {
            (None, effect)
        }
    }

    /// A key went down in the editor: enter, with neither shift nor alt
    /// held, sends the message as [`Self::send_message`] does; any other
    /// key is left to the editor.
    pub fn handle_key_down(&mut self, key: &str, shift: bool, alt: bool) -> (r: (
        Option<String>,
        InputEffect,
    ))
        requires
            sends(key@, shift, alt) ==> old(self)@.input.blinker.can_advance(1),
        ensures
            !sends(key@, shift, alt) ==> final(self)@ == old(self)@ && r.0 is None && r.1
                == InputEffect::nothing(),
            sends(key@, shift, alt) ==> final(self)@ == (MessageInputView {
                input: emptied(old(self)@.input),
                ..old(self)@
            }) && r.1 == old(self)@.input.pause_effect() && r.0 is Some == (!is_blank(
                old(self)@.input.text,
            ) && old(self)@.on_send) && (r.0 matches Some(text) ==> text@ == old(self)@.input.text),
    {
        if same_text(key, "enter") && !shift && !alt {
            self.send_message()
        } else {
            (None, InputEffect::none())
        }
    }

    /// Whether the attachment button does anything.
    pub fn attaches(&self) -> (r: bool)
        ensures
            r == self@.on_attach,
    {
        self.on_attach
    }

    /// How the send button is drawn: ready while the editor holds a message,
    /// subdued while it is empty or blank.
    pub fn render_send_button(&self) -> (r: SendButton)
        ensures
            r == send_button(!is_blank(self@.input.text)),
    {
        let text = self.text_input.get_text();
        if !blank(text.as_str()) {
            SendButton {
                background: ThemeColor::Primary,
                pointer: PointerShape::PointingHand,
                hover: true,
                icon_color: ThemeColor::PrimaryForeground,
            }
        } else {
            SendButton {
                background: ThemeColor::Muted,
                pointer: PointerShape::Arrow,
                hover: false,
                icon_color: ThemeColor::MutedForeground,
            }
        }
    }
}

/// What is written in a plain input field, and in which colour.
#[derive(Debug)]
pub struct InputLabel {
    pub text: String,
    pub color: ThemeColor,
}

/// What a plain input field shows: the typed text, or an invitation to type
/// in a subdued colour while there is none.
pub fn render_input(input_text: &str) -> (r: InputLabel)
    ensures
        input_text@.len() == 0 ==> r.text@ == "Message AI Assistant..."@ && r.color
            == ThemeColor::MutedForeground,
        input_text@.len() > 0 ==> r.text@ == input_text@ && r.color == ThemeColor::Foreground,
{
    if input_text.is_empty() {
        InputLabel {
            text: "Message AI Assistant...".to_owned(),
            color: ThemeColor::MutedForeground,
        }
    } else {
        InputLabel { text: input_text.to_owned(), color: ThemeColor::Foreground }
    }
}

} // verus!
