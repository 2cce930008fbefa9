//! State and rules of a chat assistant front end: the conversation, the
//! single-line message editor with its selection and blinking cursor, and the
//! requests and tool calls exchanged with a chat-completions service.
//!
//! Everything here works on plain values, so that a windowing shell can feed it
//! events and draw what it answers. Where an operation has an effect outside
//! the state it works on, such as a redraw, a timer to arm or a request to
//! send, it says so in what it returns.

pub mod agent;
pub mod chatbox;
pub mod components;
pub mod dialog;
pub mod keybindings;
pub mod models;
pub mod offsets;
pub mod state;
pub mod text;

pub use agent::AgentService;
pub use chatbox::{InteractiveChatInput, InteractiveChatbox};
pub use components::{AssistantPanel, MessageInput};
pub use models::{Message, MessageRole};
pub use state::ConversationState;
