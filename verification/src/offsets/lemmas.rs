//! What is proved of measures, boundaries and conversions, for the proofs of
//! the functions that work on them.

use vstd::prelude::*;
use vstd::utf8::*;
use crate::offsets::{
    char_index, convert_offset, first_start_above, is_boundary, last_start_below, Encoding,
};

verus! {

/// Measuring a text with one more character at its end.
pub proof fn lemma_len_push(encoding: Encoding, text: Seq<char>, c: char)
    ensures
        encoding.len(text.push(c)) == encoding.len(text) + encoding.width(c),
{
    assert(text.push(c).drop_last() =~= text);
}

/// Measuring two texts joined is adding their measures.
pub proof fn lemma_len_concat(encoding: Encoding, a: Seq<char>, b: Seq<char>)
    ensures
        encoding.len(a + b) == encoding.len(a) + encoding.len(b),
    decreases b.len(),
{
    if b.len() == 0 {
        assert(a + b =~= a);
    } else {
        lemma_len_concat(encoding, a, b.drop_last());
        assert((a + b).drop_last() =~= a + b.drop_last());
    }
}

/// A measure is never negative, and UTF-16 never exceeds UTF-8.
pub proof fn lemma_len_bounds(text: Seq<char>)
    ensures
        0 <= Encoding::Utf16.len(text) <= Encoding::Utf8.len(text),
        text.len() <= Encoding::Utf16.len(text),
    decreases text.len(),
{
    if text.len() > 0 {
        lemma_len_bounds(text.drop_last());
    }
}

/// A longer leading part measures more: strictly more when it is strictly
/// longer.
pub proof fn lemma_len_prefix(encoding: Encoding, text: Seq<char>, j: int, k: int)
    requires
        0 <= j <= k <= text.len(),
    ensures
        encoding.len(text.take(j)) + (k - j) <= encoding.len(text.take(k)),
        encoding.len(text.take(k)) <= encoding.len(text),
        0 <= encoding.len(text.take(j)),
{
    assert(text.take(k) =~= text.take(j) + text.subrange(j, k));
    lemma_len_concat(encoding, text.take(j), text.subrange(j, k));
    assert(text =~= text.take(k) + text.skip(k));
    lemma_len_concat(encoding, text.take(k), text.skip(k));
    lemma_len_bounds(text.subrange(j, k));
    lemma_len_bounds(text.skip(k));
    lemma_len_bounds(text.take(j));
    lemma_len_bounds(text.take(k));
    lemma_len_units(encoding, text.subrange(j, k));
    lemma_len_units(encoding, text.skip(k));
    lemma_len_units(encoding, text.take(j));
}

/// Every character takes at least one unit.
pub proof fn lemma_len_units(encoding: Encoding, text: Seq<char>)
    ensures
        text.len() <= encoding.len(text),
    decreases text.len(),
{
    if text.len() > 0 {
        lemma_len_units(encoding, text.drop_last());
    }
}

/// The UTF-8 form of one character has as many bytes as its width says.
pub proof fn lemma_encode_scalar_len(c: char)
    ensures
        encode_scalar(c as u32).len() == Encoding::Utf8.width(c),
{
    char_is_scalar(c);
}

/// The UTF-8 form of a text of one character.
pub proof fn lemma_encode_single(c: char)
    ensures
        encode_utf8(seq![c]) == encode_scalar(c as u32),
{
    let one = seq![c];
    char_is_scalar(c);
    assert(one[0] == c);
    assert(one.drop_first() =~= Seq::<char>::empty());
    assert(encode_utf8(one.drop_first()) =~= Seq::<u8>::empty()) by {
        reveal_with_fuel(encode_utf8, 1);
    }
    assert(encode_utf8(one) =~= encode_scalar(c as u32) + encode_utf8(one.drop_first()));
    assert(encode_utf8(one) =~= encode_scalar(c as u32));
}

/// The UTF-8 form of two texts joined is their UTF-8 forms joined.
pub proof fn lemma_encode_concat(a: Seq<char>, b: Seq<char>)
    ensures
        encode_utf8(a + b) == encode_utf8(a) + encode_utf8(b),
    decreases a.len(),
{
    if a.len() == 0 {
        assert(a + b =~= b);
        assert(encode_utf8(a) + encode_utf8(b) =~= encode_utf8(b));
    } else {
        lemma_encode_concat(a.drop_first(), b);
        assert((a + b).drop_first() =~= a.drop_first() + b);
        assert((a + b)[0] == a[0]);
        assert(encode_utf8(a + b) =~= encode_utf8(a) + encode_utf8(b));
    }
}

/// The UTF-8 measure of a text is the number of bytes of its UTF-8 form.
pub proof fn lemma_byte_len(text: Seq<char>)
    ensures
        encode_utf8(text).len() == Encoding::Utf8.len(text),
    decreases text.len(),
{
    if text.len() > 0 {
        let front = text.drop_last();
        let c = text.last();
        lemma_byte_len(front);
        assert(text =~= front + seq![c]);
        lemma_encode_concat(front, seq![c]);
        lemma_encode_single(c);
        lemma_encode_scalar_len(c);
    }
}

/// Taking the first character off a text takes its width off the measure.
pub proof fn lemma_len_first(encoding: Encoding, text: Seq<char>)
    requires
        text.len() > 0,
    ensures
        encoding.len(text) == encoding.width(text[0]) + encoding.len(text.drop_first()),
{
    let head = seq![text[0]];
    assert(text =~= head + text.drop_first());
    lemma_len_concat(encoding, head, text.drop_first());
    assert(head.drop_last() =~= Seq::<char>::empty());
    assert(encoding.len(head) == encoding.width(text[0])) by {
        reveal_with_fuel(Encoding::len, 2);
    }
}

/// The UTF-8 form of a text without its first character is the UTF-8 form of
/// the text without the bytes of that character.
proof fn lemma_encode_rest(text: Seq<char>)
    requires
        text.len() > 0,
    ensures
        valid_utf8(encode_utf8(text)),
        pop_first_scalar(encode_utf8(text)) == encode_utf8(text.drop_first()),
        length_of_first_scalar(encode_utf8(text)) == Encoding::Utf8.width(text[0]),
{
    encode_utf8_valid_utf8(text);
    encode_utf8_first_scalar(text);
    lemma_encode_scalar_len(text[0]);
    assert(pop_first_scalar(encode_utf8(text)) =~= encode_utf8(text.drop_first()));
}

/// Where a leading part of the text ends, there is a character boundary.
pub proof fn lemma_prefix_is_boundary(text: Seq<char>, k: int)
    requires
        0 <= k <= text.len(),
    ensures
        is_boundary(text, Encoding::Utf8.len(text.take(k))),
        0 <= Encoding::Utf8.len(text.take(k)) <= encode_utf8(text).len(),
    decreases text.len(),
{
    lemma_byte_len(text);
    lemma_len_prefix(Encoding::Utf8, text, k, k);
    encode_utf8_valid_utf8(text);
    if k > 0 {
        let rest = text.drop_first();
        lemma_encode_rest(text);
        lemma_prefix_is_boundary(rest, k - 1);
        assert(text.take(k).drop_first() =~= rest.take(k - 1));
        lemma_len_first(Encoding::Utf8, text.take(k));
        lemma_len_prefix(Encoding::Utf8, rest, 0, k - 1);
    }
}

/// A character boundary is where a leading part of the text ends: the part
/// made of the characters before it.
pub proof fn lemma_boundary_is_prefix(text: Seq<char>, offset: int)
    requires
        is_boundary(text, offset),
    ensures
        0 <= char_index(text, offset) <= text.len(),
        Encoding::Utf8.len(text.take(char_index(text, offset))) == offset,
{
    let k = lemma_boundary_prefix_exists(text, offset);
    lemma_reach_exact(Encoding::Utf8, text, offset, k, 0);
}

proof fn lemma_boundary_prefix_exists(text: Seq<char>, offset: int) -> (k: int)
    requires
        is_boundary(text, offset),
    ensures
        0 <= k <= text.len(),
        Encoding::Utf8.len(text.take(k)) == offset,
    decreases text.len(),
{
    encode_utf8_valid_utf8(text);
    if offset == 0 {
        0
    } else {
        assert(text.len() > 0) by {
            if text.len() == 0 {
                assert(encode_utf8(text).len() == 0);
            }
        }
        let rest = text.drop_first();
        lemma_encode_rest(text);
        encode_utf8_valid_utf8(rest);
        let w = Encoding::Utf8.width(text[0]);
        assert(is_boundary(rest, offset - w));
        let j = lemma_boundary_prefix_exists(rest, offset - w);
        assert(text.take(j + 1).drop_first() =~= rest.take(j));
        lemma_len_first(Encoding::Utf8, text.take(j + 1));
        j + 1
    }
}

/// If the first `k` characters take exactly `target` units, the search for
/// `target` stops at `k`, wherever at or before `k` it starts.
pub proof fn lemma_reach_exact(encoding: Encoding, text: Seq<char>, target: int, k: int, from: int)
    requires
        0 <= from <= k <= text.len(),
        encoding.len(text.take(k)) == target,
    ensures
        encoding.reach_from(text, target, from) == k,
    decreases k - from,
{
    if from < k {
        lemma_len_prefix(encoding, text, from, k);
        lemma_reach_exact(encoding, text, target, k, from + 1);
    }
}

/// The search stops within the text, and no shorter leading part reaches the
/// target.
pub proof fn lemma_reach_bounds(encoding: Encoding, text: Seq<char>, target: int, from: int)
    requires
        0 <= from <= text.len(),
    ensures
        from <= encoding.reach_from(text, target, from) <= text.len(),
        encoding.reach_from(text, target, from) < text.len() ==> encoding.len(
            text.take(encoding.reach_from(text, target, from)),
        ) >= target,
        forall|j: int|
            from <= j < encoding.reach_from(text, target, from) ==> encoding.len(
                #[trigger] text.take(j),
            ) < target,
    decreases text.len() - from,
{
    if from < text.len() && encoding.len(text.take(from)) < target {
        lemma_reach_bounds(encoding, text, target, from + 1);
    }
}

/// The bytes before and after the end of a leading part are the UTF-8 forms of
/// that part and of the rest.
pub proof fn lemma_split_bytes(text: Seq<char>, k: int)
    requires
        0 <= k <= text.len(),
    ensures
        encode_utf8(text).subrange(0, Encoding::Utf8.len(text.take(k))) == encode_utf8(
            text.take(k),
        ),
        encode_utf8(text).subrange(
            Encoding::Utf8.len(text.take(k)),
            encode_utf8(text).len() as int,
        ) == encode_utf8(text.skip(k)),
{
    assert(text =~= text.take(k) + text.skip(k));
    lemma_encode_concat(text.take(k), text.skip(k));
    lemma_byte_len(text.take(k));
    let whole = encode_utf8(text.take(k)) + encode_utf8(text.skip(k));
    let cut = Encoding::Utf8.len(text.take(k));
    assert(whole.subrange(0, cut) =~= encode_utf8(text.take(k)));
    assert(whole.subrange(cut, whole.len() as int) =~= encode_utf8(text.skip(k)));
}

/// Two texts with the same UTF-8 form are the same text.
pub proof fn lemma_encode_injective(a: Seq<char>, b: Seq<char>)
    requires
        encode_utf8(a) == encode_utf8(b),
    ensures
        a == b,
{
    encode_utf8_decode_utf8(a);
    encode_utf8_decode_utf8(b);
}

/// Beyond the end of the text there are no characters, so the search for the
/// last start may as well begin at the end.
pub proof fn lemma_last_start_beyond(text: Seq<char>, offset: int)
    ensures
        offset >= encode_utf8(text).len() ==> last_start_below(text, offset) == last_start_below(
            text,
            encode_utf8(text).len() as int,
        ),
    decreases offset,
{
    if offset > encode_utf8(text).len() {
        lemma_last_start_beyond(text, offset - 1);
    }
}

/// The start and the end of a text are character boundaries.
pub proof fn lemma_ends_are_boundaries(text: Seq<char>)
    ensures
        is_boundary(text, 0),
        is_boundary(text, Encoding::Utf8.len(text)),
{
    lemma_prefix_is_boundary(text, 0);
    lemma_prefix_is_boundary(text, text.len() as int);
    assert(text.take(0) =~= Seq::<char>::empty());
    assert(text.take(text.len() as int) =~= text);
}

/// The last character start below an offset is a character boundary within
/// the text, at or before the offset.
pub proof fn lemma_last_start_is_boundary(text: Seq<char>, offset: int)
    requires
        0 <= offset,
    ensures
        is_boundary(text, last_start_below(text, offset)),
        0 <= last_start_below(text, offset) <= offset,
        last_start_below(text, offset) <= Encoding::Utf8.len(text),
        0 < offset && 0 < text.len() ==> last_start_below(text, offset) < offset,
    decreases offset,
{
    lemma_ends_are_boundaries(text);
    lemma_byte_len(text);
    lemma_len_units(Encoding::Utf8, text);
    if offset > 0 && !(offset - 1 < encode_utf8(text).len() && is_boundary(text, offset - 1)) {
        lemma_last_start_is_boundary(text, offset - 1);
    }
}

/// The first character start above an offset is a character boundary within
/// the text, and lies after the offset unless the offset is at or beyond the
/// end.
pub proof fn lemma_first_start_is_boundary(text: Seq<char>, offset: int)
    requires
        0 <= offset,
    ensures
        is_boundary(text, first_start_above(text, offset)),
        0 <= first_start_above(text, offset) <= Encoding::Utf8.len(text),
        offset < Encoding::Utf8.len(text) ==> offset < first_start_above(text, offset),
    decreases encode_utf8(text).len() - offset,
{
    lemma_ends_are_boundaries(text);
    lemma_byte_len(text);
    if offset + 1 < encode_utf8(text).len() && !is_boundary(text, offset + 1) {
        lemma_first_start_is_boundary(text, offset + 1);
    }
}

/// A converted position is a character boundary within the text.
pub proof fn lemma_converted_is_boundary(text: Seq<char>, from: Encoding, offset: int)
    ensures
        is_boundary(text, convert_offset(text, from, Encoding::Utf8, offset)),
        0 <= convert_offset(text, from, Encoding::Utf8, offset) <= Encoding::Utf8.len(text),
        0 <= convert_offset(text, from, Encoding::Utf16, offset) <= Encoding::Utf8.len(text),
{
    lemma_reach_bounds(from, text, offset, 0);
    let k = from.chars_to_reach(text, offset);
    lemma_prefix_is_boundary(text, k);
    lemma_len_prefix(Encoding::Utf8, text, k, k);
    lemma_len_bounds(text.take(k));
}

/// Converting cannot put two positions out of order.
pub proof fn lemma_convert_monotone(
    text: Seq<char>,
    from: Encoding,
    to: Encoding,
    low: int,
    high: int,
)
    requires
        low <= high,
    ensures
        convert_offset(text, from, to, low) <= convert_offset(text, from, to, high),
{
    lemma_reach_bounds(from, text, low, 0);
    lemma_reach_bounds(from, text, high, 0);
    let j = from.chars_to_reach(text, low);
    let k = from.chars_to_reach(text, high);
    if k < j {
        assert(from.len(text.take(k)) < low);
    }
    if j <= k {
        lemma_len_prefix(to, text, j, k);
    }
}

/// In a text of ASCII characters every character takes one byte, so a byte
/// offset within the text is a character boundary and counts the characters
/// before it.
pub proof fn lemma_ascii_offsets(text: Seq<char>, k: int)
    requires
        is_ascii_chars(text),
        0 <= k <= text.len(),
    ensures
        Encoding::Utf8.len(text.take(k)) == k,
        is_boundary(text, k),
        char_index(text, k) == k,
    decreases k,
{
    if k > 0 {
        lemma_ascii_offsets(text, k - 1);
        assert(text.take(k).drop_last() =~= text.take(k - 1));
        assert(text.take(k).last() == text[k - 1]);
        assert('\0' <= text[k - 1] <= '\u{7f}');
    } else {
        assert(text.take(0) =~= Seq::<char>::empty());
    }
    lemma_prefix_is_boundary(text, k);
    lemma_reach_exact(Encoding::Utf8, text, k, k, 0);
}

/// A character that takes one byte is an ASCII character.
pub proof fn lemma_one_byte_is_ascii(c: char)
    requires
        Encoding::Utf8.width(c) == 1,
    ensures
        '\0' <= c <= '\u{7f}',
{
    assert((c as u32) < 0x80);
}

/// A text of one byte is a single ASCII character.
pub proof fn lemma_single_byte(text: Seq<char>)
    requires
        Encoding::Utf8.len(text) == 1,
    ensures
        text.len() == 1,
        is_ascii_chars(text),
{
    lemma_len_units(Encoding::Utf8, text);
    lemma_len_units(Encoding::Utf8, text.drop_last());
    assert(text.len() == 1);
    assert(text.drop_last() =~= Seq::<char>::empty());
    assert(text.last() == text[0]);
    assert(Encoding::Utf8.len(text.drop_last()) == 0);
    let c: char = text[0];
    assert(Encoding::Utf8.width(c) == 1);
    lemma_one_byte_is_ascii(c);
    assert forall|i: int| 0 <= i < text.len() implies '\0' <= #[trigger] text[i] <= '\u{7f}' by {
        assert(text[i] == c);
    }
}

/// Between the last character start below an offset and the offset itself
/// no character starts.
pub proof fn lemma_last_start_gap(text: Seq<char>, offset: int, between: int)
    requires
        last_start_below(text, offset) < between < offset,
        between < encode_utf8(text).len(),
    ensures
        !is_boundary(text, between),
    decreases offset,
{
    if offset > 0 && !(offset - 1 < encode_utf8(text).len() && is_boundary(text, offset - 1)) {
        if between < offset - 1 {
            lemma_last_start_gap(text, offset - 1, between);
        }
    }
}

/// If a character boundary lies after an offset and none lies in between,
/// it is the first character start above the offset, or the end of the text.
pub proof fn lemma_first_start_next(text: Seq<char>, offset: int, target: int)
    requires
        0 <= offset < target <= encode_utf8(text).len(),
        is_boundary(text, target),
        forall|between: int| offset < between < target ==> !is_boundary(text, between),
    ensures
        first_start_above(text, offset) == target,
    decreases target - offset,
{
    if offset + 1 < encode_utf8(text).len() && offset + 1 < target {
        lemma_first_start_next(text, offset + 1, target);
    }
}

} // verus!
