//! The chat box: a single-line message editor with selection, input-method
//! marking and a blinking cursor, and the list of messages above it.

pub mod blink;
pub mod copilot_chat;
pub mod input;
pub mod interactive_chatbox;
pub mod layout;

pub use blink::{BlinkEffect, BlinkerState, CursorBlinker, TimerRequest};
pub use input::view::{ChatInputView, InputEffect, PointerTarget, Utf16Selection};
pub use input::InteractiveChatInput;
pub use interactive_chatbox::{ChatboxView, InteractiveChatbox};
pub use layout::{PrepaintState, TextRun};
pub use copilot_chat::{Chatbox, CopilotChat, MessageEditorEvent};
