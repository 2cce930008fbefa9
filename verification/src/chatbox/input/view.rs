//! The editor as the contracts see it: its state as plain values, and every
//! operation as a function from one state to the next.

use vstd::prelude::*;
use std::ops::Range;
use crate::chatbox::blink::{BlinkEffect, BlinkerState};
use crate::keybindings::InputAction;
use crate::offsets::{
    char_index, convert_offset, first_start_above, is_boundary, last_start_below, Encoding,
};
use crate::text::replace_each;

verus! {

/// What an operation on the editor asks of the host.
#[derive(Debug, Clone, Copy, PartialEq, Eq, Structural)]
pub struct InputEffect {
    /// Whether the editor has to be drawn again.
    pub notify: bool,
    /// What the cursor's blinking asks for.
    pub blink: BlinkEffect,
}

impl InputEffect {
    /// Nothing to do.
    pub open spec fn nothing() -> InputEffect {
        InputEffect { notify: false, blink: BlinkEffect::nothing() }
    }

    /// The effect of `self` followed by `next`.
    pub open spec fn followed_by(self, next: InputEffect) -> InputEffect {
        InputEffect {
            notify: self.notify || next.notify,
            blink: self.blink.followed_by(next.blink),
        }
    }

    /// Nothing to do.
    pub fn none() -> (r: InputEffect)
        ensures
            r == InputEffect::nothing(),
    {
        InputEffect { notify: false, blink: BlinkEffect::none() }
    }

    /// The effect of `self` followed by `next`.
    pub fn and_then(self, next: InputEffect) -> (r: InputEffect)
        ensures
            r == self.followed_by(next),
    {
        InputEffect {
            notify: self.notify || next.notify,
            blink: self.blink.and_then(next.blink),
        }
    }
}

/// What came of an action on the editor.
#[derive(Debug)]
pub struct ActionOutcome {
    pub effect: InputEffect,
    /// Text to put on the clipboard.
    pub clipboard: Option<String>,
    /// Whether to show the system's character palette.
    pub show_character_palette: bool,
}

/// A selection as an input method sees it: a range of UTF-16 code units and
/// the end at which the cursor stands.
#[derive(Debug)]
pub struct Utf16Selection {
    pub range: Range<usize>,
    pub reversed: bool,
}

/// Where the pointer is, relative to the line of text as it was last laid
/// out.
#[derive(Debug, Clone, Copy, PartialEq, Eq)]
pub enum PointerTarget {
    /// Above the line.
    Above,
    /// Below the line.
    Below,
    /// On the line, nearest to this byte offset.
    Index(usize),
}

/// The editor as the contracts see it.
pub ghost struct ChatInputView {
    pub text: Seq<char>,
    pub placeholder: Seq<char>,
    /// The selected bytes; the cursor alone when `start >= end`.
    pub selected: Range<usize>,
    /// Whether the cursor stands at the start of the selection.
    pub reversed: bool,
    /// The bytes that an input method is composing.
    pub marked: Option<Range<usize>>,
    /// Whether the pointer is being dragged.
    pub selecting: bool,
    pub blinker: BlinkerState,
}

/// The range from `start` to `end`.
pub open spec fn span(start: int, end: int) -> Range<usize> {
    Range { start: start as usize, end: end as usize }
}

impl ChatInputView {
    /// The length of the text in bytes.
    pub open spec fn byte_len(self) -> int {
        Encoding::Utf8.len(self.text)
    }

    /// Whether nothing is selected.
    pub open spec fn collapsed(self) -> bool {
        self.selected.start >= self.selected.end
    }

    /// The end of the selection at which the cursor stands.
    pub open spec fn cursor(self) -> usize {
        if self.reversed {
            self.selected.start
        } else {
            self.selected.end
        }
    }

    /// The end of the selection that stays put while the cursor moves.
    pub open spec fn anchor(self) -> usize {
        if self.reversed {
            self.selected.end
        } else {
            self.selected.start
        }
    }

    /// Whether both ends of a range lie on character boundaries of the text.
    pub open spec fn on_boundaries(self, range: Range<usize>) -> bool {
        is_boundary(self.text, range.start as int) && is_boundary(self.text, range.end as int)
    }

    /// Whether the selection and the marked range lie on character boundaries.
    pub open spec fn well_formed(self) -> bool {
        &&& self.on_boundaries(self.selected)
        &&& self.marked matches Some(marked) ==> self.on_boundaries(marked)
    }

    /// Whether what the next edit replaces lies on character boundaries.
    pub open spec fn can_edit(self) -> bool {
        self.on_boundaries(self.edit_range(None))
    }

    /// Whether a range given in UTF-16 can be read: its ends, as byte
    /// offsets, are in order.
    pub open spec fn can_read(self, range_utf16: Range<usize>) -> bool {
        self.from_utf16(range_utf16.start) <= self.from_utf16(range_utf16.end)
    }

    /// Whether the text and `new_text` are short enough for the selection of
    /// any composition with `new_text` to be a pair of byte offsets.
    pub open spec fn has_room_for(self, new_text: Seq<char>) -> bool {
        3 * self.byte_len() + Encoding::Utf8.len(new_text) <= usize::MAX
    }

    /// The byte offset of the last character that starts before `offset`.
    pub open spec fn previous(self, offset: usize) -> usize {
        last_start_below(self.text, offset as int) as usize
    }

    /// The byte offset of the first character that starts after `offset`.
    pub open spec fn next(self, offset: usize) -> usize {
        first_start_above(self.text, offset as int) as usize
    }

    /// The byte offset that a UTF-16 offset stands for.
    pub open spec fn from_utf16(self, offset: usize) -> usize {
        convert_offset(self.text, Encoding::Utf16, Encoding::Utf8, offset as int) as usize
    }

    /// The UTF-16 offset that a byte offset stands for.
    pub open spec fn to_utf16(self, offset: usize) -> usize {
        convert_offset(self.text, Encoding::Utf8, Encoding::Utf16, offset as int) as usize
    }

    pub open spec fn range_from_utf16(self, range: Range<usize>) -> Range<usize> {
        Range { start: self.from_utf16(range.start), end: self.from_utf16(range.end) }
    }

    pub open spec fn range_to_utf16(self, range: Range<usize>) -> Range<usize> {
        Range { start: self.to_utf16(range.start), end: self.to_utf16(range.end) }
    }

    /// The bytes that an edit replaces: the given range, converted from
    /// UTF-16; without one the marked range; without that the selection.
    pub open spec fn edit_range(self, range_utf16: Option<Range<usize>>) -> Range<usize> {
        match range_utf16 {
            Some(range) => self.range_from_utf16(range),
            None => match self.marked {
                Some(marked) => marked,
                None => self.selected,
            },
        }
    }

    /// The text between two byte offsets.
    pub open spec fn text_between(self, range: Range<usize>) -> Seq<char> {
        self.text.subrange(
            char_index(self.text, range.start as int),
            char_index(self.text, range.end as int),
        )
    }

    /// Where the pointer points in the text.
    pub open spec fn pointed_at(self, target: Option<PointerTarget>) -> usize {
        if self.text.len() == 0 {
            0
        } else {
            match target {
                None => 0,
                Some(PointerTarget::Above) => 0,
                Some(PointerTarget::Below) => self.byte_len() as usize,
                Some(PointerTarget::Index(index)) => index,
            }
        }
    }

    /// What a change of the text or the selection asks of the host: to draw
    /// the editor again, and what showing the cursor steadily asks for.
    pub open spec fn pause_effect(self) -> InputEffect {
        InputEffect { notify: true, blink: self.blinker.pause_effect() }
    }

    /// With the cursor alone at `offset`, shown steadily.
    pub open spec fn moved_to(self, offset: usize) -> ChatInputView {
        ChatInputView {
            selected: Range { start: offset, end: offset },
            blinker: self.blinker.paused(),
            ..self
        }
    }

    /// With the cursor moved to `offset` and the other end of the selection
    /// left where it was.
    pub open spec fn selected_to(self, offset: usize) -> ChatInputView {
        let anchor = self.anchor();
        ChatInputView {
            selected: if offset < anchor {
                Range { start: offset, end: anchor }
            } else {
                Range { start: anchor, end: offset }
            },
            reversed: offset < anchor || (offset == anchor && self.reversed),
            blinker: self.blinker.paused(),
            ..self
        }
    }

    /// With the whole text selected and the cursor at its end.
    pub open spec fn all_selected(self) -> ChatInputView {
        ChatInputView {
            selected: span(0, self.byte_len()),
            reversed: self.reversed && self.byte_len() == 0,
            blinker: self.blinker.paused().paused(),
            ..self
        }
    }

    /// With the cursor moved one character back, or to the start of the
    /// selection if there is one.
    pub open spec fn after_left(self) -> ChatInputView {
        if self.collapsed() {
            self.moved_to(self.previous(self.cursor()))
        } else {
            self.moved_to(self.selected.start)
        }
    }

    /// With the cursor moved one character on, or to the end of the selection
    /// if there is one.
    pub open spec fn after_right(self) -> ChatInputView {
        if self.collapsed() {
            self.moved_to(self.next(self.selected.end))
        } else {
            self.moved_to(self.selected.end)
        }
    }

    /// With the character before the cursor selected, if nothing was.
    pub open spec fn reaching_back(self) -> ChatInputView {
        if self.collapsed() {
            self.selected_to(self.previous(self.cursor()))
        } else {
            self
        }
    }

    /// With the character after the cursor selected, if nothing was.
    pub open spec fn reaching_on(self) -> ChatInputView {
        if self.collapsed() {
            self.selected_to(self.next(self.cursor()))
        } else {
            self
        }
    }

    /// How often the cursor is shown steadily when the selection, or the
    /// character beside the cursor, is deleted: once for selecting the
    /// character, if nothing was selected, and once for deleting.
    pub open spec fn reach_steps(self) -> int {
        if self.collapsed() {
            2
        } else {
            1
        }
    }

    /// What selecting the character beside the cursor asks of the host, if
    /// nothing was selected.
    pub open spec fn reach_effect(self) -> InputEffect {
        if self.collapsed() {
            self.pause_effect()
        } else {
            InputEffect::nothing()
        }
    }

    /// With the text up to `range.start`, then `new_text`, then the text from
    /// `range.end` on; the cursor alone behind `new_text`, nothing marked.
    pub open spec fn replaced(self, range: Range<usize>, new_text: Seq<char>) -> ChatInputView {
        let at = (range.start + Encoding::Utf8.len(new_text)) as usize;
        ChatInputView {
            text: self.text.take(char_index(self.text, range.start as int)) + new_text
                + self.text.skip(char_index(self.text, range.end as int)),
            selected: Range { start: at, end: at },
            marked: None,
            blinker: self.blinker.paused(),
            ..self
        }
    }

    /// With what the next edit replaces taken out.
    pub open spec fn erased(self) -> ChatInputView {
        self.replaced(self.edit_range(None), Seq::<char>::empty())
    }

    /// Where the selection goes when an input method replaces `range` by
    /// `new_text` and asks for `new_selected_utf16`: that range, read in the
    /// new text, with its start moved on by `range.start` and its end by
    /// `range.end`; behind `new_text` if it asks for none.
    pub open spec fn composed_selection(
        self,
        range: Range<usize>,
        new_text: Seq<char>,
        new_selected_utf16: Option<Range<usize>>,
    ) -> (int, int) {
        let replaced = self.replaced(range, new_text);
        match new_selected_utf16 {
            Some(chosen) => (
                replaced.from_utf16(chosen.start) + range.start,
                replaced.from_utf16(chosen.end) + range.end,
            ),
            None => (replaced.selected.start as int, replaced.selected.end as int),
        }
    }

    /// As [`Self::replaced`], with `new_text` marked as being composed and
    /// the selection at [`Self::composed_selection`].
    pub open spec fn composed(
        self,
        range: Range<usize>,
        new_text: Seq<char>,
        new_selected_utf16: Option<Range<usize>>,
    ) -> ChatInputView {
        let replaced = self.replaced(range, new_text);
        let selection = self.composed_selection(range, new_text, new_selected_utf16);
        ChatInputView {
            marked: if new_text.len() > 0 {
                Some(Range { start: range.start, end: replaced.selected.start })
            } else {
                None
            },
            selected: span(selection.0, selection.1),
            ..replaced
        }
    }

    /// Whether `action` can be performed: what it edits or copies lies on
    /// character boundaries, and the blinking can move on. `pasting` says
    /// whether the clipboard holds text.
    pub open spec fn ready_for(self, action: InputAction, pasting: bool) -> bool {
        match action {
            InputAction::Backspace => self.reaching_back().can_edit() && self.blinker.can_advance(
                self.reach_steps(),
            ),
            InputAction::Delete => self.reaching_on().can_edit() && self.blinker.can_advance(
                self.reach_steps(),
            ),
            InputAction::SelectAll => self.blinker.can_advance(2),
            InputAction::Paste => pasting ==> self.can_edit() && self.blinker.can_advance(1),
            InputAction::Cut => !self.collapsed() ==> self.on_boundaries(self.selected)
                && self.can_edit() && self.blinker.can_advance(1),
            InputAction::Copy => !self.collapsed() ==> self.on_boundaries(self.selected),
            InputAction::ShowCharacterPalette => true,
            _ => self.blinker.can_advance(1),
        }
    }

    /// The editor after `action`; `pasted` is the clipboard's text, if any.
    pub open spec fn performed(
        self,
        action: InputAction,
        pasted: Option<Seq<char>>,
    ) -> ChatInputView {
        match action {
            InputAction::Backspace => self.reaching_back().erased(),
            InputAction::Delete => self.reaching_on().erased(),
            InputAction::Left => self.after_left(),
            InputAction::Right => self.after_right(),
            InputAction::SelectLeft => self.selected_to(self.previous(self.cursor())),
            InputAction::SelectRight => self.selected_to(self.next(self.cursor())),
            InputAction::SelectAll => self.all_selected(),
            InputAction::Home => self.moved_to(0),
            InputAction::End => self.moved_to(self.byte_len() as usize),
            InputAction::ShowCharacterPalette => self,
            InputAction::Paste => match pasted {
                Some(text) => self.replaced(
                    self.edit_range(None),
                    replace_each(text, '\n', seq![' ']),
                ),
                None => self,
            },
            InputAction::Cut => if self.collapsed() {
                self
            } else {
                self.erased()
            },
            InputAction::Copy => self,
        }
    }

    /// What `action` asks of the host; `pasting` says whether the clipboard
    /// holds text.
    pub open spec fn perform_effect(self, action: InputAction, pasting: bool) -> InputEffect {
        match action {
            InputAction::Backspace => self.reach_effect().followed_by(
                self.reaching_back().pause_effect(),
            ),
            InputAction::Delete => self.reach_effect().followed_by(
                self.reaching_on().pause_effect(),
            ),
            InputAction::SelectAll => self.pause_effect().followed_by(
                self.moved_to(0).pause_effect(),
            ),
            InputAction::ShowCharacterPalette => InputEffect::nothing(),
            InputAction::Copy => InputEffect::nothing(),
            InputAction::Paste => if pasting {
                self.pause_effect()
            } else {
                InputEffect::nothing()
            },
            InputAction::Cut => if self.collapsed() {
                InputEffect::nothing()
            } else {
                self.pause_effect()
            },
            _ => self.pause_effect(),
        }
    }
}

} // verus!
