//! The state of the application.

pub mod conversation;

pub use conversation::{ConversationError, ConversationState, ConversationView};
