use agent_ui::chatbox::layout::{prepaint, prepaint_ready};
use agent_ui::chatbox::{InteractiveChatInput, TextRun};

#[test]
fn an_empty_input_shows_the_placeholder() {
    let input = InteractiveChatInput::new();
    assert!(prepaint_ready(&input));
    let state = prepaint(&input);
    assert_eq!(state.text, "Type your message...");
    assert!(state.placeholder_shown);
    assert_eq!(state.runs, vec![TextRun { len: 20, underlined: false }]);
    assert_eq!(state.cursor, Some(0));
    assert_eq!(state.selection, None);
}

#[test]
fn text_is_one_run_with_the_cursor() {
    let mut input = InteractiveChatInput::new();
    input.set_text("aé😀b".to_string());
    input.move_to(3);
    let state = prepaint(&input);
    assert_eq!(state.text, "aé😀b");
    assert!(!state.placeholder_shown);
    assert_eq!(state.runs, vec![TextRun { len: 8, underlined: false }]);
    assert_eq!(state.cursor, Some(3));
    assert_eq!(state.selection, None);
}

#[test]
fn a_selection_replaces_the_cursor() {
    let mut input = InteractiveChatInput::new();
    input.set_text("aé😀b".to_string());
    input.move_to(7);
    input.select_to(1);
    let state = prepaint(&input);
    assert_eq!(state.cursor, None);
    assert_eq!(state.selection, Some(1..7));
}

#[test]
fn marked_text_is_underlined() {
    let mut input = InteractiveChatInput::new();
    input.set_text("ab".to_string());
    input.move_to(1);
    input.replace_and_mark_text_in_range(None, "你", None);
    let state = prepaint(&input);
    assert_eq!(
        state.runs,
        vec![
            TextRun { len: 1, underlined: false },
            TextRun { len: 3, underlined: true },
            TextRun { len: 1, underlined: false },
        ]
    );
    assert_eq!(state.cursor, Some(4));
}

#[test]
fn empty_runs_are_left_out() {
    let mut input = InteractiveChatInput::new();
    input.replace_and_mark_text_in_range(None, "ni", None);
    let state = prepaint(&input);
    assert_eq!(state.runs, vec![TextRun { len: 2, underlined: true }]);
    input.replace_text_in_range(None, "你好");
    input.replace_and_mark_text_in_range(Some(0..1), "x", None);
    let state = prepaint(&input);
    assert_eq!(state.text, "x好");
    assert_eq!(
        state.runs,
        vec![TextRun { len: 1, underlined: true }, TextRun { len: 3, underlined: false }]
    );
}

#[test]
fn a_stale_marked_range_is_not_ready() {
    let mut input = InteractiveChatInput::new();
    input.replace_and_mark_text_in_range(None, "你好", None);
    input.set_text("é".to_string());
    assert!(!prepaint_ready(&input));
    input.unmark_text();
    assert!(prepaint_ready(&input));
}

#[test]
fn a_marked_range_is_measured_against_the_placeholder_while_empty() {
    let mut input = InteractiveChatInput::new();
    input.replace_and_mark_text_in_range(None, "你好", None);
    input.set_text(String::new());
    assert!(prepaint_ready(&input));
    let state = prepaint(&input);
    assert!(state.placeholder_shown);
    assert_eq!(
        state.runs,
        vec![TextRun { len: 6, underlined: true }, TextRun { len: 14, underlined: false }]
    );
}

#[test]
fn runs_cover_the_line() {
    let mut input = InteractiveChatInput::new();
    input.set_text("aé😀b".to_string());
    let state = prepaint(&input);
    assert_eq!(state.runs.iter().map(|run| run.len).sum::<usize>(), 8);
    input.replace_and_mark_text_in_range(Some(1..2), "xyz", None);
    let state = prepaint(&input);
    assert_eq!(state.text, "axyz😀b");
    assert_eq!(state.runs.iter().map(|run| run.len).sum::<usize>(), 9);
    assert!(state.runs.iter().all(|run| run.len > 0));
}
