//! Data carried by a conversation.

pub mod message;

pub use message::{Message, MessageRole, MessageView};
