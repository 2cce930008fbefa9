//! The status line above the message editor, and what sending or cancelling
//! a message writes into it.

use vstd::prelude::*;
use crate::text::concat2;

verus! {

/// The status line.
pub struct CopilotChat {
    message: String,
}

impl View for CopilotChat {
    type V = Seq<char>;

    closed spec fn view(&self) -> Seq<char> {
        self.message@
    }
}

/// What the status line shows, and whether in a subdued colour.
#[derive(Debug)]
pub struct StatusLabel {
    pub text: String,
    pub muted: bool,
}

impl CopilotChat {
    /// An empty status line.
    pub fn new() -> (r: Self)
        ensures
            r@ == Seq::<char>::empty(),
    {
        CopilotChat { message: String::new() }
    }

    pub fn set_message(&mut self, message: String)
        ensures
            final(self)@ == message@,
    {
        self.message = message;
    }

    pub fn clear(&mut self)
        ensures
            final(self)@ == Seq::<char>::empty(),
    {
        self.message = String::new();
    }

    pub fn message(&self) -> (r: &str)
        ensures
            r@ == self@,
    {
        self.message.as_str()
    }

    /// What is drawn: the message, or a subdued note while there is none.
    pub fn render(&self) -> (r: StatusLabel)
        ensures
            self@.len() == 0 ==> r.text@ == "Chat interface ready - no messages yet"@ && r.muted,
            self@.len() > 0 ==> r.text@ == self@ && !r.muted,
    {
        if self.message.as_str().is_empty() {
            StatusLabel { text: "Chat interface ready - no messages yet".to_owned(), muted: true }
        } else {
            StatusLabel { text: self.message.clone(), muted: false }
        }
    }
}

/// What happens in the message editor.
#[derive(Debug, Clone, Copy, PartialEq, Eq, Structural)]
pub enum MessageEditorEvent {
    Send,
    Cancel,
    Focus,
    LostFocus,
}

/// What the message editor announces when asked to send: that it sends,
/// unless it is empty.
pub fn send(is_empty: bool) -> (r: Option<MessageEditorEvent>)
    ensures
        r == if is_empty {
            None
        } else {
            Some(MessageEditorEvent::Send)
        },
{
    if !is_empty {
        Some(MessageEditorEvent::Send)
    } else {
        None
    }
}

/// The message editor with its status line. The editor's text lives with the
/// host, which hands it in and empties the editor when told to.
pub struct Chatbox {
    pub copilot_chat: CopilotChat,
}

impl Chatbox {
    pub fn new() -> (r: Self)
        ensures
            r.copilot_chat@ == Seq::<char>::empty(),
    {
        Chatbox { copilot_chat: CopilotChat::new() }
    }

    /// The editor, holding `text`, was told to send. If there is any text
    /// the editor is to be emptied, and so is the status line, which has
    /// just been told what was sent. Says whether the editor is to be
    /// emptied.
    pub fn handle_send(&mut self, text: &str) -> (r: bool)
        ensures
            r == (text@.len() > 0),
            final(self).copilot_chat@ == if r {
                Seq::<char>::empty()
            } else {
                old(self).copilot_chat@
            },
    {
        if !text.is_empty() {
            self.copilot_chat.set_message(concat2("Message sent: ", text));
            self.copilot_chat.clear();
            true
        } else {
            false
        }
    }

    /// The editor was told to cancel: it is to be emptied, and the status
    /// line says so.
    pub fn handle_cancel(&mut self)
        ensures
            final(self).copilot_chat@ == "Message cancelled"@,
    {
        self.copilot_chat.clear();
        self.copilot_chat.set_message("Message cancelled".to_owned());
    }
}

} // verus!
