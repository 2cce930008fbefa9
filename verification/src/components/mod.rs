//! The parts of the assistant's window, each as the values that decide what
//! is drawn.

pub mod assistant_panel;
pub mod conversation;
pub mod message_input;
pub mod message_list;

pub use assistant_panel::AssistantPanel;
pub use message_input::MessageInput;
