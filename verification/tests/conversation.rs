use agent_ui::agent::service::{AgentConfig, AgentService};
use agent_ui::models::MessageRole;
use agent_ui::state::{ConversationError, ConversationState};
use std::sync::Arc;

const WELCOME: &str = "你好！我是 AI 代码助手，我可以帮你：\n\n• 阅读和分析代码\n• 搜索代码库\n• 执行命令\n• 编写和修改文件\n\n有什么可以帮你的吗？";

fn service() -> Arc<AgentService> {
    Arc::new(AgentService::new(AgentConfig::from_settings(None, None, None)))
}

#[test]
fn a_new_conversation_opens_with_the_greeting() {
    let state = ConversationState::new();
    assert_eq!(state.messages().len(), 1);
    assert_eq!(state.messages()[0].role, MessageRole::Assistant);
    assert_eq!(state.messages()[0].content, WELCOME);
    assert_eq!(state.input(), "");
    assert!(!state.is_loading());
    assert!(state.agent_service().is_none());
}

#[test]
fn input_is_set_and_cleared() {
    let mut state = ConversationState::new();
    state.set_input("draft".to_string());
    assert_eq!(state.input(), "draft");
    state.clear_input();
    assert_eq!(state.input(), "");
}

#[test]
fn messages_are_appended() {
    let mut state = ConversationState::new();
    state.add_user_message("q".to_string());
    state.add_assistant_message("a".to_string());
    assert_eq!(state.messages().len(), 3);
    assert!(state.messages()[1].is_user());
    assert_eq!(state.messages()[1].content, "q");
    assert!(state.messages()[2].is_assistant());
    assert_eq!(state.messages()[2].content, "a");
}

#[test]
fn blank_input_is_not_sent() {
    let mut state = ConversationState::new();
    assert!(!state.send_message());
    state.set_input("  \t\n".to_string());
    assert!(!state.send_message());
    assert_eq!(state.messages().len(), 1);
    assert_eq!(state.input(), "  \t\n");
}

#[test]
fn without_a_service_a_stock_reply_follows() {
    let mut state = ConversationState::new();
    state.set_input("hello".to_string());
    assert!(state.send_message());
    assert_eq!(state.input(), "");
    assert!(!state.is_loading());
    assert_eq!(state.messages().len(), 3);
    assert!(state.messages()[1].is_user());
    assert_eq!(state.messages()[1].content, "hello");
    assert!(state.messages()[2].is_assistant());
    assert_eq!(state.messages()[2].content, "让我帮你分析一下。");
}

#[test]
fn stock_replies_go_round() {
    let mut state = ConversationState::new();
    let mut replies = Vec::new();
    for _ in 0..4 {
        state.set_input("x".to_string());
        assert!(state.send_message());
        replies.push(state.messages()[state.messages().len() - 1].content.clone());
    }
    assert_eq!(
        replies,
        vec!["让我帮你分析一下。", "我理解了你的问题。", "让我帮你分析一下。", "我理解了你的问题。"]
    );
    state.add_assistant_message("extra".to_string());
    state.set_input("x".to_string());
    state.send_message();
    assert_eq!(state.messages()[state.messages().len() - 1].content, "我会尽力帮助你。");
    assert_eq!(state.messages().len(), 12);
    for _ in 0..4 {
        state.add_assistant_message("extra".to_string());
    }
    state.set_input("x".to_string());
    state.send_message();
    assert_eq!(state.messages().len(), 18);
    assert_eq!(state.messages()[17].content, "这是一个很好的想法！");
}

#[test]
fn exchange_appends_message_and_reply() {
    let mut state = ConversationState::new();
    state.exchange("  ".to_string());
    assert_eq!(state.messages().len(), 3);
    assert_eq!(state.messages()[1].content, "  ");
    assert_eq!(state.messages()[2].content, "让我帮你分析一下。");
}

#[test]
fn with_a_service_sending_waits_for_the_answer() {
    let mut state = ConversationState::with_agent_service(service());
    assert!(state.agent_service().is_some());
    state.set_input("hello".to_string());
    assert!(state.send_message());
    assert!(state.is_loading());
    assert_eq!(state.input(), "");
    assert_eq!(state.messages().len(), 2);
    assert_eq!(state.messages()[1].content, "hello");
    state.set_input("again".to_string());
    assert!(!state.send_message());
    assert_eq!(state.input(), "again");
    assert_eq!(state.messages().len(), 2);
    state.finish_async_send("answer".to_string());
    assert!(!state.is_loading());
    assert_eq!(state.messages().len(), 3);
    assert!(state.messages()[2].is_assistant());
    assert_eq!(state.messages()[2].content, "answer");
    assert!(state.send_message());
}

#[test]
fn a_service_can_be_set_later() {
    let mut state = ConversationState::new();
    state.set_agent_service(service());
    assert!(state.agent_service().is_some());
    state.set_input("hello".to_string());
    assert!(state.send_message());
    assert!(state.is_loading());
}

#[test]
fn async_send_needs_a_service() {
    let mut state = ConversationState::new();
    assert_eq!(state.start_async_send(), Err(ConversationError::AgentNotConfigured));
    assert!(!state.is_loading());
    assert_eq!(ConversationError::AgentNotConfigured.message(), "Agent service not configured");
    state.set_agent_service(service());
    assert_eq!(state.start_async_send(), Ok(()));
    assert!(state.is_loading());
}

#[test]
fn the_transcript_names_the_roles() {
    let mut state = ConversationState::new();
    state.add_user_message("q".to_string());
    let transcript = state.transcript("next".to_string());
    assert_eq!(transcript.len(), 3);
    assert_eq!(transcript[0].role, "assistant");
    assert_eq!(transcript[0].content, WELCOME);
    assert_eq!(transcript[1].role, "user");
    assert_eq!(transcript[1].content, "q");
    assert_eq!(transcript[2].role, "user");
    assert_eq!(transcript[2].content, "next");
}

#[test]
fn a_plain_conversation_opens_with_the_short_greeting() {
    let mut state = ConversationState::plain();
    assert_eq!(state.messages().len(), 1);
    assert!(state.messages()[0].is_assistant());
    assert_eq!(state.messages()[0].content, "你好！我是 AI 助手，有什么可以帮你的吗？");
    assert!(state.agent_service().is_none());
    state.set_input("hi".to_string());
    assert!(state.send_message());
    assert_eq!(state.messages().len(), 3);
    assert_eq!(state.messages()[2].content, "让我帮你分析一下。");
}

#[test]
fn the_default_conversation_is_a_new_one() {
    let state = ConversationState::default();
    assert_eq!(state.messages().len(), 1);
    assert_eq!(state.messages()[0].content, WELCOME);
    assert_eq!(state.input(), "");
    assert!(!state.is_loading());
}
