//! The assistant's panel: the conversation, and what becomes of a message
//! that the message input sends.

use vstd::prelude::*;
use crate::state::conversation::{from_assistant, short_welcome, ConversationState};
use crate::text::{blank, is_blank};

verus! {

/// The panel.
pub struct AssistantPanel {
    /// The conversation shown.
    pub state: ConversationState,
}

impl AssistantPanel {
    /// A panel with a new conversation.
    pub fn new() -> (r: Self)
        ensures
            r.state@ == ConversationState::new_view(),
    {
        AssistantPanel { state: ConversationState::new() }
    }

    /// A panel whose conversation opens with the short greeting.
    pub fn plain() -> (r: Self)
        ensures
            r.state@ == (crate::state::conversation::ConversationView {
                messages: seq![from_assistant(short_welcome())],
                ..ConversationState::new_view()
            }),
    {
        AssistantPanel { state: ConversationState::plain() }
    }

    /// The message input sent `text`: unless it is blank, it joins the
    /// conversation with the stock reply to it. Says whether the panel has
    /// to be drawn again.
    pub fn handle_message_sent(&mut self, text: String) -> (r: bool)
        ensures
            r == !is_blank(text@),
            final(self).state@ == if r {
                old(self).state@.exchanged(text@)
            } else {
                old(self).state@
            },
    {
        if !blank(text.as_str()) {
            self.state.exchange(text);
            true
        } else {
            false
        }
    }

    /// The send button was pressed while the conversation itself holds the
    /// typed text: it is sent as [`ConversationState::send_message`] does.
    /// Says whether the panel has to be drawn again.
    pub fn send_message(&mut self) -> (r: bool)
        ensures
            r == old(self).state@.can_send(),
            final(self).state@ == if r {
                old(self).state@.sent()
            } else {
                old(self).state@
            },
    {
        self.state.send_message()
    }
}

} // verus!
