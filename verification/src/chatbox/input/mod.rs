//! The single-line message editor.
//!
//! The text is held as UTF-8 and every position is a byte offset into it. The
//! selection is a range of such offsets with a flag that says at which end the
//! cursor stands; while an input method composes, the text it has not yet
//! committed is the marked range. The input method itself speaks in UTF-16
//! code units, so ranges are converted both ways at that border.

pub mod laws;
pub mod view;

use vstd::prelude::*;
use vstd::utf8::*;
use std::ops::Range;
use crate::chatbox::blink::{BlinkEffect, BlinkerState, CursorBlinker, TimerRequest};
use crate::chatbox::input::laws::lemma_splice_cursor;
use crate::chatbox::input::view::{
    span, ActionOutcome, ChatInputView, InputEffect, PointerTarget, Utf16Selection,
};
use crate::keybindings::InputAction;
use crate::offsets::lemmas::{
    lemma_convert_monotone, lemma_converted_is_boundary, lemma_ends_are_boundaries,
    lemma_first_start_is_boundary, lemma_last_start_is_boundary,
};
use crate::offsets::{
    byte_len, convert, convert_offset, first_start_above, last_start_below, next_boundary,
    on_boundary, previous_boundary, slice, splice, Encoding,
};
use crate::text::{replace_char, replace_each};

verus! {

/// The editor.
pub struct InteractiveChatInput {
    content: String,
    placeholder: String,
    selected_range: Range<usize>,
    selection_reversed: bool,
    marked_range: Option<Range<usize>>,
    is_selecting: bool,
    cursor_blinker: CursorBlinker,
}

impl View for InteractiveChatInput {
    type V = ChatInputView;

    closed spec fn view(&self) -> ChatInputView {
        ChatInputView {
            text: self.content@,
            placeholder: self.placeholder@,
            selected: self.selected_range,
            reversed: self.selection_reversed,
            marked: self.marked_range,
            selecting: self.is_selecting,
            blinker: self.cursor_blinker@,
        }
    }
}

impl InteractiveChatInput {
    /// A new editor: no text, the cursor at the start, blinking off.
    pub open spec fn new_view() -> ChatInputView {
        ChatInputView {
            text: Seq::<char>::empty(),
            placeholder: "Type your message..."@,
            selected: span(0, 0),
            reversed: false,
            marked: None,
            selecting: false,
            blinker: BlinkerState { interval_ms: 530, epoch: 0, visible: true, enabled: false },
        }
    }

    /// An empty editor with the cursor at the start.
    pub fn new() -> (r: Self)
        ensures
            r@ == Self::new_view(),
            r@.well_formed(),
    {
        let r = InteractiveChatInput {
            content: String::new(),
            placeholder: "Type your message...".to_owned(),
            selected_range: 0..0,
            selection_reversed: false,
            marked_range: None,
            is_selecting: false,
            cursor_blinker: CursorBlinker::new(),
        };
        proof {
            encode_utf8_valid_utf8(r.content@);
        }
        r
    }

    pub fn get_text(&self) -> (r: String)
        ensures
            r@ == self@.text,
    {
        self.content.clone()
    }

    /// Sets the text shown while the editor is empty.
    pub fn set_placeholder(&mut self, placeholder: String)
        ensures
            final(self)@ == (ChatInputView { placeholder: placeholder@, ..old(self)@ }),
    {
        self.placeholder = placeholder;
    }

    pub fn placeholder(&self) -> (r: &str)
        ensures
            r@ == self@.placeholder,
    {
        self.placeholder.as_str()
    }

    pub fn selected_range(&self) -> (r: Range<usize>)
        ensures
            r == self@.selected,
    {
        self.selected_range.start..self.selected_range.end
    }

    pub fn selection_reversed(&self) -> (r: bool)
        ensures
            r == self@.reversed,
    {
        self.selection_reversed
    }

    pub fn marked_range(&self) -> (r: Option<Range<usize>>)
        ensures
            r == self@.marked,
    {
        match &self.marked_range {
            Some(marked) => Some(marked.start..marked.end),
            None => None,
        }
    }

    pub fn is_selecting(&self) -> (r: bool)
        ensures
            r == self@.selecting,
    {
        self.is_selecting
    }

    pub fn cursor_blinker(&self) -> (r: &CursorBlinker)
        ensures
            r@ == self@.blinker,
    {
        &self.cursor_blinker
    }

    /// The length of the text in bytes.
    pub fn len(&self) -> (r: usize)
        ensures
            r == self@.byte_len(),
    {
        byte_len(self.content.as_str())
    }

    /// Whether both ends of a range lie on character boundaries of the text.
    pub fn is_on_boundaries(&self, range: &Range<usize>) -> (r: bool)
        ensures
            r == self@.on_boundaries(*range),
    {
        on_boundary(self.content.as_str(), range.start) && on_boundary(
            self.content.as_str(),
            range.end,
        )
    }

    /// Whether the selection and the marked range lie on character boundaries.
    pub fn is_well_formed(&self) -> (r: bool)
        ensures
            r == self@.well_formed(),
    {
        let selected = self.selected_range.start..self.selected_range.end;
        match &self.marked_range {
            Some(marked) => self.is_on_boundaries(&selected) && self.is_on_boundaries(marked),
            None => self.is_on_boundaries(&selected),
        }
    }

    /// The end of the selection at which the cursor stands.
    pub fn cursor_offset(&self) -> (r: usize)
        ensures
            r == self@.cursor(),
    {
        if self.selection_reversed {
            self.selected_range.start
        } else {
            self.selected_range.end
        }
    }

    /// The byte offset of the last character that starts before `offset`; 0
    /// if there is none.
    pub fn previous_boundary(&self, offset: usize) -> (r: usize)
        ensures
            r == last_start_below(self@.text, offset as int),
            r == self@.previous(offset),
    {
        previous_boundary(self.content.as_str(), offset)
    }

    /// The byte offset of the first character that starts after `offset`; the
    /// length of the text if there is none.
    pub fn next_boundary(&self, offset: usize) -> (r: usize)
        ensures
            r == first_start_above(self@.text, offset as int),
            r == self@.next(offset),
    {
        next_boundary(self.content.as_str(), offset)
    }

    /// The byte offset of the first character boundary that lies `offset`
    /// UTF-16 code units or more into the text; the end of the text if it is
    /// shorter.
    pub fn offset_from_utf16(&self, offset: usize) -> (r: usize)
        ensures
            r == convert_offset(self@.text, Encoding::Utf16, Encoding::Utf8, offset as int),
            r == self@.from_utf16(offset),
            r <= self@.byte_len(),
    {
        convert(self.content.as_str(), Encoding::Utf16, Encoding::Utf8, offset)
    }

    /// The number of UTF-16 code units before the first character boundary
    /// that lies `offset` bytes or more into the text; the length of the text
    /// in UTF-16 if it is shorter.
    pub fn offset_to_utf16(&self, offset: usize) -> (r: usize)
        ensures
            r == convert_offset(self@.text, Encoding::Utf8, Encoding::Utf16, offset as int),
            r == self@.to_utf16(offset),
            r <= self@.byte_len(),
    {
        convert(self.content.as_str(), Encoding::Utf8, Encoding::Utf16, offset)
    }

    pub fn range_to_utf16(&self, range: &Range<usize>) -> (r: Range<usize>)
        ensures
            r == self@.range_to_utf16(*range),
    {
        self.offset_to_utf16(range.start)..self.offset_to_utf16(range.end)
    }

    pub fn range_from_utf16(&self, range_utf16: &Range<usize>) -> (r: Range<usize>)
        ensures
            r == self@.range_from_utf16(*range_utf16),
            self@.on_boundaries(r),
            range_utf16.start <= range_utf16.end ==> r.start <= r.end,
    {
        let start = self.offset_from_utf16(range_utf16.start);
        let end = self.offset_from_utf16(range_utf16.end);
        proof {
            lemma_converted_is_boundary(self@.text, Encoding::Utf16, range_utf16.start as int);
            lemma_converted_is_boundary(self@.text, Encoding::Utf16, range_utf16.end as int);
            if range_utf16.start <= range_utf16.end {
                lemma_convert_monotone(
                    self@.text,
                    Encoding::Utf16,
                    Encoding::Utf8,
                    range_utf16.start as int,
                    range_utf16.end as int,
                );
            }
        }
        start..end
    }

    /// Shows the cursor steadily and asks for the editor to be drawn again.
    fn pause(&mut self) -> (effect: InputEffect)
        requires
            old(self)@.blinker.can_advance(1),
        ensures
            final(self)@ == (ChatInputView {
                blinker: old(self)@.blinker.paused(),
                ..old(self)@
            }),
            effect == old(self)@.pause_effect(),
    {
        let blink = self.cursor_blinker.pause_blinking();
        InputEffect { notify: true, blink }
    }

    /// Puts the cursor alone at `offset` and shows it steadily.
    pub fn move_to(&mut self, offset: usize) -> (effect: InputEffect)
        requires
            old(self)@.blinker.can_advance(1),
        ensures
            final(self)@ == old(self)@.moved_to(offset),
            effect == old(self)@.pause_effect(),
    {
        self.selected_range = offset..offset;
        self.pause()
    }

    /// Moves the cursor to `offset`, leaving the other end of the selection
    /// where it was.
    pub fn select_to(&mut self, offset: usize) -> (effect: InputEffect)
        requires
            old(self)@.blinker.can_advance(1),
        ensures
            final(self)@ == old(self)@.selected_to(offset),
            effect == old(self)@.pause_effect(),
    {
        if self.selection_reversed {
            self.selected_range.start = offset
        } else {
            self.selected_range.end = offset
        };
        if self.selected_range.end < self.selected_range.start {
            self.selection_reversed = !self.selection_reversed;
            self.selected_range = self.selected_range.end..self.selected_range.start;
        }
        self.pause()
    }

    /// Moves the cursor one character back, or to the start of the selection.
    pub fn left(&mut self) -> (effect: InputEffect)
        requires
            old(self)@.blinker.can_advance(1),
        ensures
            final(self)@ == old(self)@.after_left(),
            effect == old(self)@.pause_effect(),
            old(self)@.well_formed() ==> final(self)@.well_formed(),
    {
        proof {
            lemma_last_start_is_boundary(self@.text, self@.cursor() as int);
        }
        if self.selected_range.start >= self.selected_range.end {
            let target = self.previous_boundary(self.cursor_offset());
            self.move_to(target)
        } else {
            let target = self.selected_range.start;
            self.move_to(target)
        }
    }

    /// Moves the cursor one character on, or to the end of the selection.
    pub fn right(&mut self) -> (effect: InputEffect)
        requires
            old(self)@.blinker.can_advance(1),
        ensures
            final(self)@ == old(self)@.after_right(),
            effect == old(self)@.pause_effect(),
            old(self)@.well_formed() ==> final(self)@.well_formed(),
    {
        proof {
            lemma_first_start_is_boundary(self@.text, self@.selected.end as int);
        }
        if self.selected_range.start >= self.selected_range.end {
            let target = self.next_boundary(self.selected_range.end);
            self.move_to(target)
        } else {
            let target = self.selected_range.end;
            self.move_to(target)
        }
    }

    /// Extends the selection one character back.
    pub fn select_left(&mut self) -> (effect: InputEffect)
        requires
            old(self)@.blinker.can_advance(1),
        ensures
            final(self)@ == old(self)@.selected_to(old(self)@.previous(old(self)@.cursor())),
            effect == old(self)@.pause_effect(),
            old(self)@.well_formed() ==> final(self)@.well_formed(),
    {
        proof {
            lemma_last_start_is_boundary(self@.text, self@.cursor() as int);
        }
        let target = self.previous_boundary(self.cursor_offset());
        self.select_to(target)
    }

    /// Extends the selection one character on.
    pub fn select_right(&mut self) -> (effect: InputEffect)
        requires
            old(self)@.blinker.can_advance(1),
        ensures
            final(self)@ == old(self)@.selected_to(old(self)@.next(old(self)@.cursor())),
            effect == old(self)@.pause_effect(),
            old(self)@.well_formed() ==> final(self)@.well_formed(),
    {
        proof {
            lemma_first_start_is_boundary(self@.text, self@.cursor() as int);
        }
        let target = self.next_boundary(self.cursor_offset());
        self.select_to(target)
    }

    /// Selects the whole text, with the cursor at its end.
    pub fn select_all(&mut self) -> (effect: InputEffect)
        requires
            old(self)@.blinker.can_advance(2),
        ensures
            final(self)@ == old(self)@.all_selected(),
            effect == old(self)@.pause_effect().followed_by(
                old(self)@.moved_to(0).pause_effect(),
            ),
            old(self)@.marked is None ==> final(self)@.well_formed(),
    {
        proof {
            lemma_ends_are_boundaries(self@.text);
        }
        let first = self.move_to(0);
        let end = self.len();
        let second = self.select_to(end);
        first.and_then(second)
    }

    /// Puts the cursor at the start of the text.
    pub fn home(&mut self) -> (effect: InputEffect)
        requires
            old(self)@.blinker.can_advance(1),
        ensures
            final(self)@ == old(self)@.moved_to(0),
            effect == old(self)@.pause_effect(),
    {
        self.move_to(0)
    }

    /// Puts the cursor at the end of the text.
    pub fn end(&mut self) -> (effect: InputEffect)
        requires
            old(self)@.blinker.can_advance(1),
        ensures
            final(self)@ == old(self)@.moved_to(old(self)@.byte_len() as usize),
            effect == old(self)@.pause_effect(),
    {
        let end = self.len();
        self.move_to(end)
    }

    /// Replaces [`ChatInputView::edit_range`] by `new_text` and puts the
    /// cursor behind it. A range given in UTF-16 always lies on character
    /// boundaries; the marked range and the selection must.
    pub fn replace_text_in_range(
        &mut self,
        range_utf16: Option<Range<usize>>,
        new_text: &str,
    ) -> (effect: InputEffect)
        requires
            range_utf16 is None ==> old(self)@.can_edit(),
            old(self)@.blinker.can_advance(1),
        ensures
            final(self)@ == old(self)@.replaced(old(self)@.edit_range(range_utf16), new_text@),
            effect == old(self)@.pause_effect(),
            final(self)@.well_formed(),
            final(self)@.byte_len() == old(self)@.edit_range(range_utf16).start
                + Encoding::Utf8.len(new_text@) + (old(self)@.byte_len() - old(self)@.edit_range(
                range_utf16,
            ).end),
    {
        let range = self.target_range(&range_utf16);
        let content = splice(self.content.as_str(), range.start, range.end, new_text);
        let added = byte_len(new_text);
        let total = byte_len(content.as_str());
        proof {
            lemma_splice_cursor(self@.text, range.start as int, range.end as int, new_text@);
        }
        let at = range.start + added;
        self.content = content;
        self.selected_range = at..at;
        self.marked_range = None;
        self.pause()
    }

    /// What an input method composes: replaces [`ChatInputView::edit_range`]
    /// by `new_text`, marks `new_text` as not yet committed, and puts the
    /// selection at [`ChatInputView::composed_selection`].
    pub fn replace_and_mark_text_in_range(
        &mut self,
        range_utf16: Option<Range<usize>>,
        new_text: &str,
        new_selected_range_utf16: Option<Range<usize>>,
    ) -> (effect: InputEffect)
        requires
            range_utf16 is None ==> old(self)@.can_edit(),
            old(self)@.blinker.can_advance(1),
            old(self)@.composed_selection(
                old(self)@.edit_range(range_utf16),
                new_text@,
                new_selected_range_utf16,
            ).0 <= usize::MAX,
            old(self)@.composed_selection(
                old(self)@.edit_range(range_utf16),
                new_text@,
                new_selected_range_utf16,
            ).1 <= usize::MAX,
        ensures
            final(self)@ == old(self)@.composed(
                old(self)@.edit_range(range_utf16),
                new_text@,
                new_selected_range_utf16,
            ),
            effect == old(self)@.pause_effect(),
            final(self)@.marked matches Some(marked) ==> final(self)@.on_boundaries(marked),
    {
        let range = self.target_range(&range_utf16);
        let content = splice(self.content.as_str(), range.start, range.end, new_text);
        let added = byte_len(new_text);
        let total = byte_len(content.as_str());
        proof {
            lemma_splice_cursor(self@.text, range.start as int, range.end as int, new_text@);
        }
        let at = range.start + added;
        self.content = content;
        if !new_text.is_empty() {
            self.marked_range = Some(range.start..at);
        } else {
            self.marked_range = None;
        }
        self.selected_range = match &new_selected_range_utf16 {
            Some(chosen) => {
                let new_range = self.range_from_utf16(chosen);
                new_range.start + range.start..new_range.end + range.end
            },
            None => at..at,
        };
        self.pause()
    }

    /// The bytes that an edit replaces.
    fn target_range(&self, range_utf16: &Option<Range<usize>>) -> (r: Range<usize>)
        requires
            *range_utf16 is None ==> self@.can_edit(),
        ensures
            r == self@.edit_range(*range_utf16),
            self@.on_boundaries(r),
    {
        match range_utf16 {
            Some(range) => self.range_from_utf16(range),
            None => match &self.marked_range {
                Some(marked) => marked.start..marked.end,
                None => self.selected_range.start..self.selected_range.end,
            },
        }
    }

    /// Deletes the selection, or the character before the cursor.
    pub fn backspace(&mut self) -> (effect: InputEffect)
        requires
            old(self)@.reaching_back().can_edit(),
            old(self)@.blinker.can_advance(old(self)@.reach_steps()),
        ensures
            final(self)@ == old(self)@.reaching_back().erased(),
            effect == old(self)@.reach_effect().followed_by(
                old(self)@.reaching_back().pause_effect(),
            ),
            final(self)@.well_formed(),
    {
        let mut effect = InputEffect::none();
        if self.selected_range.start >= self.selected_range.end {
            let target = self.previous_boundary(self.cursor_offset());
            effect = self.select_to(target);
        }
        let second = self.replace_text_in_range(None, "");
        proof {
            reveal_strlit("");
            assert(""@ =~= Seq::<char>::empty());
        }
        effect.and_then(second)
    }

    /// Deletes the selection, or the character after the cursor.
    pub fn delete(&mut self) -> (effect: InputEffect)
        requires
            old(self)@.reaching_on().can_edit(),
            old(self)@.blinker.can_advance(old(self)@.reach_steps()),
        ensures
            final(self)@ == old(self)@.reaching_on().erased(),
            effect == old(self)@.reach_effect().followed_by(
                old(self)@.reaching_on().pause_effect(),
            ),
            final(self)@.well_formed(),
    {
        let mut effect = InputEffect::none();
        if self.selected_range.start >= self.selected_range.end {
            let target = self.next_boundary(self.cursor_offset());
            effect = self.select_to(target);
        }
        let second = self.replace_text_in_range(None, "");
        proof {
            reveal_strlit("");
            assert(""@ =~= Seq::<char>::empty());
        }
        effect.and_then(second)
    }

    /// The text in a range given in UTF-16, with the range adjusted to
    /// character boundaries. The range must not end up reversed.
    pub fn text_for_range(&self, range_utf16: Range<usize>) -> (r: (String, Range<usize>))
        requires
            self@.can_read(range_utf16),
        ensures
            r.0@ == self@.text_between(self@.range_from_utf16(range_utf16)),
            r.1 == self@.range_to_utf16(self@.range_from_utf16(range_utf16)),
    {
        let range = self.range_from_utf16(&range_utf16);
        let actual = self.range_to_utf16(&range);
        let text = slice(self.content.as_str(), range.start, range.end);
        (text.to_owned(), actual)
    }

    /// The selection in UTF-16.
    pub fn selected_text_range(&self) -> (r: Utf16Selection)
        ensures
            r.range == self@.range_to_utf16(self@.selected),
            r.reversed == self@.reversed,
    {
        let selected = self.selected_range.start..self.selected_range.end;
        Utf16Selection {
            range: self.range_to_utf16(&selected),
            reversed: self.selection_reversed,
        }
    }

    /// The marked range in UTF-16, if an input method is composing.
    pub fn marked_text_range(&self) -> (r: Option<Range<usize>>)
        ensures
            r == match self@.marked {
                Some(marked) => Some(self@.range_to_utf16(marked)),
                None => None,
            },
    {
        match &self.marked_range {
            Some(marked) => Some(self.range_to_utf16(marked)),
            None => None,
        }
    }

    /// Forgets the marked range: the input method has committed.
    pub fn unmark_text(&mut self)
        ensures
            final(self)@ == (ChatInputView { marked: None, ..old(self)@ }),
    {
        self.marked_range = None;
    }

    /// The selected text, for the clipboard; `None` if nothing is selected.
    pub fn copy(&self) -> (r: Option<String>)
        requires
            !self@.collapsed() ==> self@.on_boundaries(self@.selected),
        ensures
            self@.collapsed() ==> r is None,
            !self@.collapsed() ==> r is Some && r->0@ == self@.text_between(self@.selected),
    {
        if self.selected_range.start < self.selected_range.end {
            let text = slice(
                self.content.as_str(),
                self.selected_range.start,
                self.selected_range.end,
            );
            Some(text.to_owned())
        } else {
            None
        }
    }

    /// The selected text, for the clipboard, which is then taken out of the
    /// editor together with anything marked; nothing happens if nothing is
    /// selected.
    pub fn cut(&mut self) -> (r: (Option<String>, InputEffect))
        requires
            !old(self)@.collapsed() ==> old(self)@.on_boundaries(old(self)@.selected)
                && old(self)@.can_edit() && old(self)@.blinker.can_advance(1),
        ensures
            old(self)@.collapsed() ==> r.0 is None && r.1 == InputEffect::nothing() && final(self)@
                == old(self)@,
            !old(self)@.collapsed() ==> r.0 is Some && r.0->0@ == old(self)@.text_between(
                old(self)@.selected,
            ) && r.1 == old(self)@.pause_effect() && final(self)@ == old(self)@.erased()
                && final(self)@.well_formed(),
    {
        if self.selected_range.start < self.selected_range.end {
            let text = slice(
                self.content.as_str(),
                self.selected_range.start,
                self.selected_range.end,
            ).to_owned();
            let effect = self.replace_text_in_range(None, "");
            proof {
                reveal_strlit("");
                assert(""@ =~= Seq::<char>::empty());
            }
            (Some(text), effect)
        } else {
            (None, InputEffect::none())
        }
    }

    /// Puts the clipboard's text in place of the selection, each line break
    /// turned into a space; nothing happens if the clipboard holds no text.
    pub fn paste(&mut self, clipboard: Option<&str>) -> (effect: InputEffect)
        requires
            clipboard is Some ==> old(self)@.can_edit() && old(self)@.blinker.can_advance(1),
        ensures
            clipboard is None ==> effect == InputEffect::nothing() && final(self)@ == old(self)@,
            clipboard matches Some(text) ==> effect == old(self)@.pause_effect()
                && final(self)@ == old(self)@.replaced(
                old(self)@.edit_range(None),
                replace_each(text@, '\n', seq![' ']),
            ) && final(self)@.well_formed(),
    {
        match clipboard {
            Some(text) => {
                proof {
                    reveal_strlit(" ");
                    assert(" "@ =~= seq![' ']);
                }
                let line = replace_char(text, '\n', " ");
                self.replace_text_in_range(None, line.as_str())
            },
            None => InputEffect::none(),
        }
    }

    /// The byte offset that the pointer points at: 0 while the text is empty
    /// or was never laid out, or when the pointer is above the line; the end
    /// of the text when it is below; else the offset nearest to it.
    pub fn index_for_mouse_position(&self, target: Option<PointerTarget>) -> (r: usize)
        ensures
            r == self@.pointed_at(target),
    {
        if self.content.as_str().is_empty() {
            return 0;
        }
        match target {
            None => 0,
            Some(PointerTarget::Above) => 0,
            Some(PointerTarget::Below) => self.len(),
            Some(PointerTarget::Index(index)) => index,
        }
    }

    /// The pointer's button goes down: a drag begins, and the cursor goes
    /// where the pointer is, with the selection reaching there if shift is
    /// held.
    pub fn on_mouse_down(&mut self, shift: bool, target: Option<PointerTarget>) -> (effect:
        InputEffect)
        requires
            old(self)@.blinker.can_advance(1),
        ensures
            final(self)@ == if shift {
                (ChatInputView { selecting: true, ..old(self)@ }).selected_to(
                    old(self)@.pointed_at(target),
                )
            } else {
                (ChatInputView { selecting: true, ..old(self)@ }).moved_to(
                    old(self)@.pointed_at(target),
                )
            },
            effect == old(self)@.pause_effect(),
    {
        self.is_selecting = true;
        let index = self.index_for_mouse_position(target);
        if shift {
            self.select_to(index)
        } else {
            self.move_to(index)
        }
    }

    /// The pointer's button goes up: the drag is over.
    pub fn on_mouse_up(&mut self)
        ensures
            final(self)@ == (ChatInputView { selecting: false, ..old(self)@ }),
    {
        self.is_selecting = false;
    }

    /// The pointer moves: during a drag the selection reaches to where it is.
    pub fn on_mouse_move(&mut self, target: Option<PointerTarget>) -> (effect: InputEffect)
        requires
            old(self)@.selecting ==> old(self)@.blinker.can_advance(1),
        ensures
            final(self)@ == if old(self)@.selecting {
                old(self)@.selected_to(old(self)@.pointed_at(target))
            } else {
                old(self)@
            },
            effect == if old(self)@.selecting {
                old(self)@.pause_effect()
            } else {
                InputEffect::nothing()
            },
    {
        if self.is_selecting {
            let index = self.index_for_mouse_position(target);
            self.select_to(index)
        } else {
            InputEffect::none()
        }
    }

    /// Empties the editor.
    pub fn clear(&mut self) -> (effect: InputEffect)
        requires
            old(self)@.blinker.can_advance(1),
        ensures
            final(self)@ == (ChatInputView {
                text: Seq::<char>::empty(),
                selected: span(0, 0),
                reversed: false,
                marked: None,
                blinker: old(self)@.blinker.paused(),
                ..old(self)@
            }),
            effect == old(self)@.pause_effect(),
            final(self)@.well_formed(),
    {
        self.content = String::new();
        self.selected_range = 0..0;
        self.selection_reversed = false;
        self.marked_range = None;
        proof {
            lemma_ends_are_boundaries(self.content@);
        }
        self.pause()
    }

    /// Puts `text` in place of the whole text, with the cursor at its end.
    /// The marked range stays as it was.
    pub fn set_text(&mut self, text: String) -> (effect: InputEffect)
        requires
            old(self)@.blinker.can_advance(1),
        ensures
            final(self)@ == (ChatInputView {
                text: text@,
                selected: span(Encoding::Utf8.len(text@), Encoding::Utf8.len(text@)),
                blinker: old(self)@.blinker.paused(),
                ..old(self)@
            }),
            effect == old(self)@.pause_effect(),
            final(self)@.on_boundaries(final(self)@.selected),
    {
        let len = byte_len(text.as_str());
        proof {
            lemma_ends_are_boundaries(text@);
        }
        self.content = text;
        self.selected_range = len..len;
        self.pause()
    }

    /// The editor is about to be drawn: the cursor blinks while the editor
    /// has the focus, and is hidden while it has not.
    pub fn sync_focus(&mut self, focused: bool) -> (effect: BlinkEffect)
        requires
            focused && !old(self)@.blinker.enabled ==> old(self)@.blinker.epoch < usize::MAX,
        ensures
            final(self)@ == (ChatInputView {
                blinker: if focused {
                    old(self)@.blinker.switched_on()
                } else {
                    old(self)@.blinker.switched_off()
                },
                ..old(self)@
            }),
            effect == if focused {
                old(self)@.blinker.switch_on_effect()
            } else {
                BlinkEffect { notify: true, timer: TimerRequest::Release }
            },
    {
        if focused {
            self.cursor_blinker.enable()
        } else {
            self.cursor_blinker.disable()
        }
    }

    /// The blink timer ran out with `epoch`: see
    /// [`CursorBlinker::start_blinking`].
    pub fn blink(&mut self, epoch: usize) -> (effect: BlinkEffect)
        requires
            old(self)@.blinker.accepts(epoch as int) ==> old(self)@.blinker.epoch < usize::MAX,
        ensures
            final(self)@ == (ChatInputView {
                blinker: old(self)@.blinker.toggled(epoch as int),
                ..old(self)@
            }),
            effect == old(self)@.blinker.toggle_effect(epoch as int),
    {
        self.cursor_blinker.start_blinking(epoch)
    }

    /// The timer armed by a pause ran out with `epoch`: see
    /// [`CursorBlinker::resume_cursor_blinking`].
    pub fn resume_blinking(&mut self, epoch: usize) -> (effect: BlinkEffect)
        requires
            old(self)@.blinker.accepts(epoch as int) ==> old(self)@.blinker.epoch < usize::MAX,
        ensures
            final(self)@ == (ChatInputView {
                blinker: old(self)@.blinker.toggled(epoch as int),
                ..old(self)@
            }),
            effect == old(self)@.blinker.toggle_effect(epoch as int),
    {
        self.cursor_blinker.resume_cursor_blinking(epoch)
    }

    /// Whether the cursor is to be painted: the editor has the focus, nothing
    /// is selected, and the blinking shows the cursor right now.
    pub fn cursor_painted(&self, focused: bool) -> (r: bool)
        ensures
            r == (focused && self@.collapsed() && self@.blinker.visible),
    {
        focused && self.selected_range.start >= self.selected_range.end
            && self.cursor_blinker.is_visible()
    }

    /// Whether what the next edit replaces lies on character boundaries.
    pub fn can_edit(&self) -> (r: bool)
        ensures
            r == self@.can_edit(),
    {
        match &self.marked_range {
            Some(marked) => self.is_on_boundaries(marked),
            None => {
                let selected = self.selected_range.start..self.selected_range.end;
                self.is_on_boundaries(&selected)
            },
        }
    }

    /// Whether the next edit is on character boundaries once the character
    /// beside the cursor is selected, if nothing is: before it for
    /// `backwards`, after it else.
    fn can_erase(&self, backwards: bool) -> (r: bool)
        ensures
            r == if backwards {
                self@.reaching_back().can_edit()
            } else {
                self@.reaching_on().can_edit()
            },
    {
        if self.marked_range.is_some() || self.selected_range.start < self.selected_range.end {
            self.can_edit()
        } else {
            let cursor = self.cursor_offset();
            let target = if backwards {
                self.previous_boundary(cursor)
            } else {
                self.next_boundary(cursor)
            };
            proof {
                lemma_last_start_is_boundary(self@.text, cursor as int);
                lemma_first_start_is_boundary(self@.text, cursor as int);
            }
            let anchor = if self.selection_reversed {
                self.selected_range.end
            } else {
                self.selected_range.start
            };
            on_boundary(self.content.as_str(), anchor) && on_boundary(self.content.as_str(), target)
        }
    }

    fn reach_steps(&self) -> (r: usize)
        ensures
            r == self@.reach_steps(),
    {
        if self.selected_range.start >= self.selected_range.end {
            2
        } else {
            1
        }
    }

    /// Whether `action` can be performed; see [`ChatInputView::ready_for`].
    pub fn is_ready_for(&self, action: InputAction, pasting: bool) -> (r: bool)
        ensures
            r == self@.ready_for(action, pasting),
    {
        match action {
            InputAction::Backspace => self.can_erase(true) && self.cursor_blinker.can_advance(
                self.reach_steps(),
            ),
            InputAction::Delete => self.can_erase(false) && self.cursor_blinker.can_advance(
                self.reach_steps(),
            ),
            InputAction::SelectAll => self.cursor_blinker.can_advance(2),
            InputAction::Paste => !pasting || (self.can_edit() && self.cursor_blinker.can_advance(
                1,
            )),
            InputAction::Cut => {
                let selected = self.selected_range.start..self.selected_range.end;
                self.selected_range.start >= self.selected_range.end || (self.is_on_boundaries(
                    &selected,
                ) && self.can_edit() && self.cursor_blinker.can_advance(1))
            },
            InputAction::Copy => {
                let selected = self.selected_range.start..self.selected_range.end;
                self.selected_range.start >= self.selected_range.end || self.is_on_boundaries(
                    &selected,
                )
            },
            InputAction::ShowCharacterPalette => true,
            _ => self.cursor_blinker.can_advance(1),
        }
    }

    /// Performs the action that a key stands for. `clipboard` is the text on
    /// the clipboard, which only pasting reads.
    pub fn perform(&mut self, action: InputAction, clipboard: Option<&str>) -> (r:
        ActionOutcome)
        requires
            old(self)@.ready_for(action, clipboard is Some),
        ensures
            final(self)@ == old(self)@.performed(
                action,
                match clipboard {
                    Some(text) => Some(text@),
                    None => None,
                },
            ),
            r.show_character_palette == (action == InputAction::ShowCharacterPalette),
            r.clipboard is Some == ((action == InputAction::Copy || action == InputAction::Cut)
                && !old(self)@.collapsed()),
            r.clipboard matches Some(text) ==> text@ == old(self)@.text_between(
                old(self)@.selected,
            ),
            r.effect == old(self)@.perform_effect(action, clipboard is Some),
    {
        let quiet = InputEffect::none();
        match action {
            InputAction::Backspace => ActionOutcome {
                effect: self.backspace(),
                clipboard: None,
                show_character_palette: false,
            },
            InputAction::Delete => ActionOutcome {
                effect: self.delete(),
                clipboard: None,
                show_character_palette: false,
            },
            InputAction::Left => ActionOutcome {
                effect: self.left(),
                clipboard: None,
                show_character_palette: false,
            },
            InputAction::Right => ActionOutcome {
                effect: self.right(),
                clipboard: None,
                show_character_palette: false,
            },
            InputAction::SelectLeft => ActionOutcome {
                effect: self.select_left(),
                clipboard: None,
                show_character_palette: false,
            },
            InputAction::SelectRight => ActionOutcome {
                effect: self.select_right(),
                clipboard: None,
                show_character_palette: false,
            },
            InputAction::SelectAll => ActionOutcome {
                effect: self.select_all(),
                clipboard: None,
                show_character_palette: false,
            },
            InputAction::Home => ActionOutcome {
                effect: self.home(),
                clipboard: None,
                show_character_palette: false,
            },
            InputAction::End => ActionOutcome {
                effect: self.end(),
                clipboard: None,
                show_character_palette: false,
            },
            InputAction::ShowCharacterPalette => ActionOutcome {
                effect: quiet,
                clipboard: None,
                show_character_palette: true,
            },
            InputAction::Paste => ActionOutcome {
                effect: self.paste(clipboard),
                clipboard: None,
                show_character_palette: false,
            },
            InputAction::Cut => {
                let (text, effect) = self.cut();
                ActionOutcome { effect, clipboard: text, show_character_palette: false }
            },
            InputAction::Copy => ActionOutcome {
                effect: quiet,
                clipboard: self.copy(),
                show_character_palette: false,
            },
        }
    }

    /// Whether a range given in UTF-16 can be read by
    /// [`Self::text_for_range`]. A range whose ends are in order can.
    pub fn can_read(&self, range_utf16: &Range<usize>) -> (r: bool)
        ensures
            r == self@.can_read(*range_utf16),
            range_utf16.start <= range_utf16.end ==> r,
    {
        let range = self.range_from_utf16(range_utf16);
        range.start <= range.end
    }

    /// Whether the text and `new_text` are short enough for any composition
    /// with `new_text`; see [`lemma_room_to_compose`].
    pub fn has_room_for(&self, new_text: &str) -> (r: bool)
        ensures
            r == self@.has_room_for(new_text@),
    {
        let len = self.len();
        let added = byte_len(new_text);
        len <= (usize::MAX - added) / 3
    }
}

} // verus!
