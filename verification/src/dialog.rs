//! A small dialog with one line of input, typed a key at a time.
//!
//! The line holds ASCII only: a key is taken as text when its name is a
//! single byte. So every cursor position is a character boundary.

use vstd::prelude::*;
use vstd::utf8::*;
use crate::chatbox::blink::{BlinkEffect, BlinkerState, CursorBlinker, TimerRequest};
use crate::offsets::lemmas::{lemma_ascii_offsets, lemma_single_byte};
use crate::offsets::{byte_len, splice, Encoding};
use crate::text::same_text;

verus! {

/// The dialog.
pub struct Dialog {
    title: String,
    message: String,
    input_text: String,
    cursor_position: usize,
    cursor_blinker: CursorBlinker,
}

/// The dialog as the contracts see it.
pub ghost struct DialogView {
    pub title: Seq<char>,
    pub message: Seq<char>,
    pub input: Seq<char>,
    /// The number of characters before the cursor.
    pub cursor: int,
    pub blinker: BlinkerState,
}

impl DialogView {
    /// The line is ASCII and the cursor lies within it.
    pub open spec fn well_formed(self) -> bool {
        &&& is_ascii_chars(self.input)
        &&& 0 <= self.cursor <= self.input.len()
    }

    /// The line and the cursor after a key was pressed.
    pub open spec fn typed(self, key: Seq<char>) -> (Seq<char>, int) {
        if key == "backspace"@ {
            if self.cursor > 0 {
                (self.input.remove(self.cursor - 1), self.cursor - 1)
            } else {
                (self.input, self.cursor)
            }
        } else if key == "left"@ {
            (self.input, if self.cursor > 0 {
                self.cursor - 1
            } else {
                self.cursor
            })
        } else if key == "right"@ {
            (self.input, if self.cursor < self.input.len() {
                self.cursor + 1
            } else {
                self.cursor
            })
        } else if Encoding::Utf8.len(key) == 1 {
            (self.input.insert(self.cursor, key[0]), self.cursor + 1)
        } else {
            (self.input, self.cursor)
        }
    }

    /// The dialog after a key was pressed: the line and the cursor as
    /// [`Self::typed`] says, and the cursor shown.
    pub open spec fn after_key(self, key: Seq<char>) -> DialogView {
        DialogView {
            input: self.typed(key).0,
            cursor: self.typed(key).1,
            blinker: BlinkerState { visible: true, ..self.blinker },
            ..self
        }
    }
}

impl View for Dialog {
    type V = DialogView;

    closed spec fn view(&self) -> DialogView {
        DialogView {
            title: self.title@,
            message: self.message@,
            input: self.input_text@,
            cursor: self.cursor_position as int,
            blinker: self.cursor_blinker@,
        }
    }
}

impl Dialog {
    /// A dialog with its title and message, an empty line and the cursor at
    /// its start.
    pub fn new() -> (r: Self)
        ensures
            r@ == (DialogView {
                title: "对话框标题"@,
                message: "这是一个消息对话框。您可以在这里放置任何您想要的内容。"@,
                input: Seq::<char>::empty(),
                cursor: 0,
                blinker: BlinkerState { interval_ms: 530, epoch: 0, visible: true, enabled: false },
            }),
            r@.well_formed(),
    {
        Dialog {
            title: "对话框标题".to_owned(),
            message: "这是一个消息对话框。您可以在这里放置任何您想要的内容。".to_owned(),
            input_text: String::new(),
            cursor_position: 0,
            cursor_blinker: CursorBlinker::new(),
        }
    }

    pub fn title(&self) -> (r: &str)
        ensures
            r@ == self@.title,
    {
        self.title.as_str()
    }

    pub fn message(&self) -> (r: &str)
        ensures
            r@ == self@.message,
    {
        self.message.as_str()
    }

    pub fn input_text(&self) -> (r: &str)
        ensures
            r@ == self@.input,
    {
        self.input_text.as_str()
    }

    pub fn cursor_position(&self) -> (r: usize)
        ensures
            r == self@.cursor,
    {
        self.cursor_position
    }

    /// Whether the line is ASCII and the cursor lies within it. This holds
    /// of every dialog that [`Self::new`] made, whatever keys it was given.
    pub fn is_well_formed(&self) -> (r: bool)
        ensures
            r == self@.well_formed(),
    {
        let ascii = self.input_text.as_str().is_ascii();
        if ascii {
            proof {
                lemma_ascii_offsets(self@.input, self@.input.len() as int);
                assert(self@.input.take(self@.input.len() as int) =~= self@.input);
            }
            self.cursor_position <= byte_len(self.input_text.as_str())
        } else {
            false
        }
    }

    pub fn cursor_blinker(&self) -> (r: &CursorBlinker)
        ensures
            r@ == self@.blinker,
    {
        &self.cursor_blinker
    }

    /// A key was pressed. Backspace deletes the character before the cursor,
    /// the left and right arrows move the cursor within the line, and a key
    /// whose name is a single byte is typed at the cursor. Any key shows the
    /// cursor; the dialog has to be drawn again in every case.
    pub fn handle_key_down(&mut self, key: &str)
        requires
            old(self)@.well_formed(),
        ensures
            final(self)@ == old(self)@.after_key(key@),
            final(self)@.well_formed(),
    {
        let len = byte_len(self.input_text.as_str());
        proof {
            lemma_ascii_offsets(self@.input, self@.input.len() as int);
            assert(self@.input.take(self@.input.len() as int) =~= self@.input);
            lemma_ascii_offsets(self@.input, self@.cursor);
        }
        if same_text(key, "backspace") {
            if self.cursor_position > 0 && len > 0 {
                proof {
                    lemma_ascii_offsets(self@.input, self@.cursor - 1);
                    reveal_strlit("");
                    assert(""@ =~= Seq::<char>::empty());
                }
                let text = splice(
                    self.input_text.as_str(),
                    self.cursor_position - 1,
                    self.cursor_position,
                    "",
                );
                assert(text@ =~= self@.input.remove(self@.cursor - 1));
                self.input_text = text;
                self.cursor_position = self.cursor_position - 1;
            }
        } else if same_text(key, "left") {
            if self.cursor_position > 0 {
                self.cursor_position = self.cursor_position - 1;
            }
        } else if same_text(key, "right") {
            if self.cursor_position < len {
                self.cursor_position = self.cursor_position + 1;
            }
        } else if byte_len(key) == 1 {
            proof {
                lemma_single_byte(key@);
            }
            let text = splice(
                self.input_text.as_str(),
                self.cursor_position,
                self.cursor_position,
                key,
            );
            assert(text@ =~= self@.input.insert(self@.cursor, key@[0]));
            let grown = byte_len(text.as_str());
            proof {
                assert(is_ascii_chars(text@)) by {
                    assert forall|i: int| 0 <= i < text@.len() implies '\0' <= #[trigger] text@[i]
                        <= '\u{7f}' by {
                        if i < self@.cursor {
                            assert(text@[i] == self@.input[i]);
                        } else if i == self@.cursor {
                            assert(text@[i] == key@[0]);
                        } else {
                            assert(text@[i] == self@.input[i - 1]);
                        }
                    }
                }
                lemma_ascii_offsets(text@, text@.len() as int);
                assert(text@.take(text@.len() as int) =~= text@);
            }
            self.input_text = text;
            self.cursor_position = self.cursor_position + 1;
        }
        self.cursor_blinker.show_cursor();
    }

    /// The dialog is about to be drawn: the cursor blinks while the dialog
    /// has the focus, and is hidden while it has not.
    pub fn sync_focus(&mut self, focused: bool) -> (effect: BlinkEffect)
        requires
            focused && !old(self)@.blinker.enabled ==> old(self)@.blinker.epoch < usize::MAX,
        ensures
            final(self)@ == (DialogView {
                blinker: if focused {
                    old(self)@.blinker.switched_on()
                } else {
                    old(self)@.blinker.switched_off()
                },
                ..old(self)@
            }),
            effect == if focused {
                old(self)@.blinker.switch_on_effect()
            } else {
                BlinkEffect { notify: true, timer: TimerRequest::Release }
            },
    {
        if focused {
            self.cursor_blinker.enable()
        } else {
            self.cursor_blinker.disable()
        }
    }

    /// The blink timer ran out with `epoch`: see
    /// [`CursorBlinker::start_blinking`].
    pub fn blink(&mut self, epoch: usize) -> (effect: BlinkEffect)
        requires
            old(self)@.blinker.accepts(epoch as int) ==> old(self)@.blinker.epoch < usize::MAX,
        ensures
            final(self)@ == (DialogView {
                blinker: old(self)@.blinker.toggled(epoch as int),
                ..old(self)@
            }),
            effect == old(self)@.blinker.toggle_effect(epoch as int),
    {
        self.cursor_blinker.start_blinking(epoch)
    }

    /// Whether the cursor is to be painted: the dialog has the focus and the
    /// blinking shows the cursor right now.
    pub fn cursor_painted(&self, focused: bool) -> (r: bool)
        ensures
            r == (focused && self@.blinker.visible),
    {
        focused && self.cursor_blinker.is_visible()
    }
}

} // verus!
