use agent_ui::dialog::Dialog;

fn typed(keys: &[&str]) -> Dialog {
    let mut dialog = Dialog::new();
    for key in keys {
        dialog.handle_key_down(key);
    }
    dialog
}

#[test]
fn a_new_dialog_is_empty() {
    let dialog = Dialog::new();
    assert_eq!(dialog.title(), "对话框标题");
    assert_eq!(dialog.message(), "这是一个消息对话框。您可以在这里放置任何您想要的内容。");
    assert_eq!(dialog.input_text(), "");
    assert_eq!(dialog.cursor_position(), 0);
}

#[test]
fn keys_are_typed_at_the_cursor() {
    let dialog = typed(&["h", "i"]);
    assert_eq!(dialog.input_text(), "hi");
    assert_eq!(dialog.cursor_position(), 2);
    let dialog = typed(&["h", "i", "left", "x"]);
    assert_eq!(dialog.input_text(), "hxi");
    assert_eq!(dialog.cursor_position(), 2);
}

#[test]
fn backspace_deletes_before_the_cursor() {
    let dialog = typed(&["a", "b", "c", "left", "backspace"]);
    assert_eq!(dialog.input_text(), "ac");
    assert_eq!(dialog.cursor_position(), 1);
    let dialog = typed(&["a", "left", "backspace"]);
    assert_eq!(dialog.input_text(), "a");
    assert_eq!(dialog.cursor_position(), 0);
    let dialog = typed(&["backspace"]);
    assert_eq!(dialog.input_text(), "");
    assert_eq!(dialog.cursor_position(), 0);
}

#[test]
fn arrows_stay_within_the_line() {
    let dialog = typed(&["a", "b", "right"]);
    assert_eq!(dialog.cursor_position(), 2);
    let dialog = typed(&["a", "b", "left", "left", "left"]);
    assert_eq!(dialog.cursor_position(), 0);
    let dialog = typed(&["a", "b", "left", "left", "right"]);
    assert_eq!(dialog.cursor_position(), 1);
}

#[test]
fn other_keys_are_ignored() {
    let dialog = typed(&["a", "enter", "escape", "é", "shift", "", "😀"]);
    assert_eq!(dialog.input_text(), "a");
    assert_eq!(dialog.cursor_position(), 1);
}

#[test]
fn single_byte_keys_are_text_whatever_they_are() {
    let dialog = typed(&[" ", "1", "-"]);
    assert_eq!(dialog.input_text(), " 1-");
    assert_eq!(dialog.cursor_position(), 3);
}

#[test]
fn any_key_shows_the_cursor() {
    let mut dialog = Dialog::new();
    dialog.sync_focus(false);
    assert!(!dialog.cursor_blinker().is_visible());
    dialog.handle_key_down("shift");
    assert!(dialog.cursor_blinker().is_visible());
    assert!(dialog.cursor_painted(true));
    assert!(!dialog.cursor_painted(false));
}

#[test]
fn dialog_focus_switches_the_blinking() {
    let mut dialog = Dialog::new();
    dialog.sync_focus(true);
    assert!(dialog.cursor_blinker().is_enabled());
    assert!(!dialog.cursor_blinker().is_visible());
    dialog.blink(1);
    assert!(dialog.cursor_blinker().is_visible());
    dialog.blink(1);
    assert!(dialog.cursor_blinker().is_visible());
    dialog.blink(2);
    assert!(!dialog.cursor_blinker().is_visible());
}

#[test]
fn a_dialog_stays_well_formed() {
    let mut dialog = Dialog::new();
    assert!(dialog.is_well_formed());
    for key in ["a", "é", "left", "b", "backspace", "right", "right", "~", "enter"] {
        dialog.handle_key_down(key);
        assert!(dialog.is_well_formed());
    }
    assert_eq!(dialog.input_text(), "a~");
}
