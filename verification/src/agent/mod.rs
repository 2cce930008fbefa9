//! Talking to the chat-completions service: the data exchanged, the tools the
//! model may call, and the rules of one conversation turn.

pub mod json;
pub mod response;
pub mod service;
pub mod tools;
pub mod turn;
pub mod types;

pub use service::AgentService;
pub use types::{AgentRequest, AgentResponse, StreamEvent};
