//! What holds of the editor's operations in general.

use vstd::prelude::*;
use vstd::utf8::*;
use std::ops::Range;
use crate::chatbox::input::view::ChatInputView;
use crate::offsets::lemmas::{
    lemma_boundary_is_prefix, lemma_byte_len, lemma_converted_is_boundary,
    lemma_first_start_is_boundary, lemma_last_start_is_boundary, lemma_len_bounds,
    lemma_len_concat, lemma_len_prefix, lemma_len_push, lemma_prefix_is_boundary,
    lemma_reach_exact,
};
use crate::offsets::{back_and_forth, char_index, is_boundary, last_start_below, Encoding};

verus! {

/// Behind the text that a splice puts in there is a character boundary of
/// the new text, and the new text reaches at least that far.
pub proof fn lemma_splice_cursor(text: Seq<char>, start: int, end: int, insert: Seq<char>)
    requires
        is_boundary(text, start),
        is_boundary(text, end),
    ensures
        ({
            let spliced = text.take(char_index(text, start)) + insert + text.skip(
                char_index(text, end),
            );
            &&& is_boundary(spliced, start)
            &&& is_boundary(spliced, start + Encoding::Utf8.len(insert))
            &&& Encoding::Utf8.len(spliced) == start + Encoding::Utf8.len(insert) + (
            Encoding::Utf8.len(text) - end)
            &&& 0 <= start <= Encoding::Utf8.len(text)
            &&& 0 <= end <= Encoding::Utf8.len(text)
            &&& 0 <= Encoding::Utf8.len(insert)
        }),
{
    let i = char_index(text, start);
    let j = char_index(text, end);
    lemma_boundary_is_prefix(text, start);
    lemma_boundary_is_prefix(text, end);
    let head = text.take(i);
    let spliced = head + insert + text.skip(j);
    lemma_len_concat(Encoding::Utf8, head, insert);
    lemma_len_concat(Encoding::Utf8, head + insert, text.skip(j));
    lemma_len_bounds(text.skip(j));
    lemma_len_bounds(insert);
    lemma_len_bounds(head);
    assert(text =~= text.take(j) + text.skip(j));
    lemma_len_concat(Encoding::Utf8, text.take(j), text.skip(j));
    lemma_len_prefix(Encoding::Utf8, text, i, i);
    assert(spliced.take(i) =~= head);
    assert(spliced.take(i + insert.len()) =~= head + insert);
    lemma_prefix_is_boundary(spliced, i);
    lemma_prefix_is_boundary(spliced, i + insert.len());
}

/// A text with room for `new_text` can take any composition with it: the
/// selection that the composition asks for is a pair of byte offsets.
pub proof fn lemma_room_to_compose(
    input: ChatInputView,
    range_utf16: Option<Range<usize>>,
    new_text: Seq<char>,
    new_selected_utf16: Option<Range<usize>>,
)
    requires
        input.has_room_for(new_text),
        range_utf16 is None ==> input.can_edit(),
    ensures
        0 <= input.composed_selection(input.edit_range(range_utf16), new_text, new_selected_utf16).0
            <= usize::MAX,
        0 <= input.composed_selection(input.edit_range(range_utf16), new_text, new_selected_utf16).1
            <= usize::MAX,
{
    let range = input.edit_range(range_utf16);
    lemma_len_bounds(new_text);
    lemma_len_bounds(input.text);
    if let Some(given) = range_utf16 {
        lemma_converted_is_boundary(input.text, Encoding::Utf16, given.start as int);
        lemma_converted_is_boundary(input.text, Encoding::Utf16, given.end as int);
    }
    lemma_splice_cursor(input.text, range.start as int, range.end as int, new_text);
    let replaced = input.replaced(range, new_text);
    if let Some(chosen) = new_selected_utf16 {
        lemma_converted_is_boundary(replaced.text, Encoding::Utf16, chosen.start as int);
        lemma_converted_is_boundary(replaced.text, Encoding::Utf16, chosen.end as int);
    }
}

/// Selecting moves the cursor to the offset and leaves the other end of the
/// selection where it was.
pub proof fn selecting_keeps_the_anchor(input: ChatInputView, offset: usize)
    ensures
        input.selected_to(offset).cursor() == offset,
        input.selected_to(offset).anchor() == input.anchor(),
        input.selected_to(offset).selected.start <= input.selected_to(offset).selected.end,
        input.selected_to(offset).text == input.text,
{
}

/// Moving and selecting between character boundaries keeps the editor well
/// formed, and so does an edit, as long as the text fits into memory.
pub proof fn boundaries_are_kept(input: ChatInputView, offset: usize, new_text: Seq<char>)
    requires
        input.well_formed(),
        is_boundary(input.text, offset as int),
        input.byte_len() + Encoding::Utf8.len(new_text) <= usize::MAX,
    ensures
        input.moved_to(offset).well_formed(),
        input.selected_to(offset).well_formed(),
        input.after_left().well_formed(),
        input.after_right().well_formed(),
        input.replaced(input.edit_range(None), new_text).well_formed(),
{
    lemma_len_bounds(new_text);
    lemma_last_start_is_boundary(input.text, input.cursor() as int);
    lemma_first_start_is_boundary(input.text, input.selected.end as int);
    let range = input.edit_range(None);
    lemma_splice_cursor(input.text, range.start as int, range.end as int, new_text);
}

/// Stepping left and then right leads the cursor back to where it stood,
/// unless it stood at the start of the text.
pub proof fn left_then_right(input: ChatInputView)
    requires
        input.selected.start == input.selected.end,
        is_boundary(input.text, input.selected.end as int),
        0 < input.selected.end,
    ensures
        input.after_left().after_right().selected == input.selected,
        input.after_left().after_right().text == input.text,
{
    let offset = input.selected.end as int;
    lemma_last_start_is_boundary(input.text, offset);
    back_and_forth(input.text, offset);
}

/// Typing a character and then pressing backspace gives back the text and
/// puts the cursor where it stood.
pub proof fn typing_then_backspace(input: ChatInputView, c: char)
    requires
        input.selected.start == input.selected.end,
        input.marked is None,
        is_boundary(input.text, input.selected.end as int),
        input.byte_len() + 4 <= usize::MAX,
    ensures
        input.replaced(input.selected, seq![c]).reaching_back().erased().text == input.text,
        input.replaced(input.selected, seq![c]).reaching_back().erased().selected
            == input.selected,
{
    let text = input.text;
    let offset = input.selected.end as int;
    let i = char_index(text, offset);
    let typed = input.replaced(input.selected, seq![c]);
    let width = Encoding::Utf8.width(c);
    lemma_boundary_is_prefix(text, offset);
    lemma_splice_cursor(text, offset, offset, seq![c]);
    lemma_len_push(Encoding::Utf8, Seq::<char>::empty(), c);
    assert(Seq::<char>::empty().push(c) =~= seq![c]);
    assert(Encoding::Utf8.len(seq![c]) == width);
    assert(typed.text.take(i) =~= text.take(i));
    assert(typed.text.take(i + 1) =~= text.take(i).push(c));
    assert(typed.text.skip(i + 1) =~= text.skip(i));
    lemma_len_push(Encoding::Utf8, text.take(i), c);
    // The character just typed starts at the old cursor and ends at the new one.
    lemma_reach_exact(Encoding::Utf8, typed.text, offset, i, 0);
    lemma_reach_exact(Encoding::Utf8, typed.text, offset + width, i + 1, 0);
    lemma_prefix_is_boundary(typed.text, i);
    lemma_prefix_is_boundary(typed.text, i + 1);
    // No character starts in between, so stepping back leads to the old cursor.
    assert forall|between: int| offset < between < offset + width implies !is_boundary(
        typed.text,
        between,
    ) by {
        if is_boundary(typed.text, between) {
            lemma_boundary_is_prefix(typed.text, between);
            let k = char_index(typed.text, between);
            if k <= i {
                lemma_len_prefix(Encoding::Utf8, typed.text, k, i);
            } else {
                lemma_len_prefix(Encoding::Utf8, typed.text, i + 1, k);
            }
        }
    }
    lemma_byte_len(typed.text);
    lemma_steps_back_to(typed.text, offset, offset + width);
    assert(text =~= text.take(i) + text.skip(i));
    assert(typed.reaching_back().erased().text =~= text);
}

/// If a character starts at `start` and none starts between `start` and
/// `end`, stepping back from `end` leads to `start`.
proof fn lemma_steps_back_to(text: Seq<char>, start: int, end: int)
    requires
        0 <= start < end,
        start < encode_utf8(text).len(),
        is_boundary(text, start),
        forall|between: int| start < between < end ==> !is_boundary(text, between),
    ensures
        last_start_below(text, end) == start,
    decreases end - start,
{
    if end - 1 > start {
        lemma_steps_back_to(text, start, end - 1);
    }
}

} // verus!
