//! Positions in a text: byte offsets in its UTF-8 form, the character
//! boundaries among them, and the matching positions counted in UTF-16 code
//! units, which is how an input method addresses text.

pub mod lemmas;

use vstd::prelude::*;
use vstd::std_specs::iter::IteratorSpec;
use vstd::string::*;
use vstd::utf8::*;
use crate::offsets::lemmas::{
    lemma_boundary_is_prefix, lemma_byte_len, lemma_encode_injective, lemma_first_start_next,
    lemma_last_start_beyond, lemma_last_start_gap, lemma_last_start_is_boundary, lemma_len_bounds,
    lemma_len_prefix, lemma_len_push, lemma_len_units, lemma_prefix_is_boundary, lemma_reach_bounds,
    lemma_reach_exact, lemma_split_bytes,
};

verus! {

/// A way of measuring text: in bytes of UTF-8 or in code units of UTF-16.
#[derive(Debug, Clone, Copy, PartialEq, Eq, Structural)]
pub enum Encoding {
    Utf8,
    Utf16,
}

impl Encoding {
    /// How many units one character takes.
    pub open spec fn width(self, c: char) -> int {
        match self {
            Encoding::Utf8 => if (c as u32) < 0x80 {
                1
            } else if (c as u32) < 0x800 {
                2
            } else if (c as u32) < 0x1_0000 {
                3
            } else {
                4
            },
            Encoding::Utf16 => if (c as u32) < 0x1_0000 {
                1
            } else {
                2
            },
        }
    }

    /// How many units a text takes.
    pub open spec fn len(self, text: Seq<char>) -> int
        decreases text.len(),
    {
        if text.len() == 0 {
            0
        } else {
            self.len(text.drop_last()) + self.width(text.last())
        }
    }

    /// The least number of characters, not below `from`, whose leading part of
    /// the text takes at least `target` units; the whole text if none does.
    pub open spec fn reach_from(self, text: Seq<char>, target: int, from: int) -> int
        decreases text.len() - from,
    {
        if from >= text.len() || self.len(text.take(from)) >= target {
            from
        } else {
            self.reach_from(text, target, from + 1)
        }
    }

    /// The least number of leading characters that take at least `target`
    /// units; the whole text if it is shorter than that.
    pub open spec fn chars_to_reach(self, text: Seq<char>, target: int) -> int {
        self.reach_from(text, target, 0)
    }

    /// How many units one character takes.
    pub fn width_of(self, c: char) -> (w: usize)
        ensures
            w == self.width(c),
    {
        let v: u32 = c as u32;
        match self {
            Encoding::Utf8 => if v < 0x80 {
                1
            } else if v < 0x800 {
                2
            } else if v < 0x1_0000 {
                3
            } else {
                4
            },
            Encoding::Utf16 => if v < 0x1_0000 {
                1
            } else {
                2
            },
        }
    }
}

/// The position, measured in `to`, of the first character boundary that lies
/// at or after `offset`, measured in `from`; the end of the text if `offset`
/// lies beyond it.
pub open spec fn convert_offset(text: Seq<char>, from: Encoding, to: Encoding, offset: int) -> int {
    to.len(text.take(from.chars_to_reach(text, offset)))
}

/// Whether a byte offset falls between two characters of the text, or at its
/// start or end.
pub open spec fn is_boundary(text: Seq<char>, offset: int) -> bool {
    is_char_boundary(encode_utf8(text), offset)
}

/// The byte offset of the last character that starts before `offset`; 0 if
/// there is none.
pub open spec fn last_start_below(text: Seq<char>, offset: int) -> int
    decreases offset,
{
    if offset <= 0 {
        0
    } else if offset - 1 < encode_utf8(text).len() && is_boundary(text, offset - 1) {
        offset - 1
    } else {
        last_start_below(text, offset - 1)
    }
}

/// The byte offset of the first character that starts after `offset`; the
/// length of the text if there is none.
pub open spec fn first_start_above(text: Seq<char>, offset: int) -> int
    decreases encode_utf8(text).len() - offset,
{
    if offset + 1 >= encode_utf8(text).len() {
        encode_utf8(text).len() as int
    } else if is_boundary(text, offset + 1) {
        offset + 1
    } else {
        first_start_above(text, offset + 1)
    }
}

/// The number of characters that lie before a byte offset.
pub open spec fn char_index(text: Seq<char>, offset: int) -> int {
    Encoding::Utf8.chars_to_reach(text, offset)
}

/// The number of bytes of the text's UTF-8 form.
pub fn byte_len(text: &str) -> (n: usize)
    ensures
        n == Encoding::Utf8.len(text@),
        n == encode_utf8(text@).len(),
{
    proof {
        lemma_byte_len(text@);
    }
    text.as_bytes().len()
}

/// Converts a position measured in `from` into the same position measured in
/// `to`. A position inside a character, or beyond the end, moves forward to
/// the next boundary, or to the end.
pub fn convert(text: &str, from: Encoding, to: Encoding, offset: usize) -> (r: usize)
    ensures
        r == convert_offset(text@, from, to, offset as int),
        r <= Encoding::Utf8.len(text@),
{
    let total = byte_len(text);
    let mut chars = text.chars();
    let mut source: usize = 0;
    let mut target: usize = 0;
    let ghost mut k: int = 0;
    proof {
        assert(text@.take(0) =~= Seq::<char>::empty());
    }
    loop
        invariant
            0 <= k <= text@.len(),
            chars.remaining() == text@.skip(k),
            source == from.len(text@.take(k)),
            target == to.len(text@.take(k)),
            from.chars_to_reach(text@, offset as int) == from.reach_from(text@, offset as int, k),
            total == Encoding::Utf8.len(text@),
        ensures
            from.chars_to_reach(text@, offset as int) == k,
        decreases text@.len() - k,
    {
        if source >= offset {
            break ;
        }
        match chars.next() {
            Some(c) => {
                proof {
                    assert(c == text@[k]);
                    assert(text@.take(k + 1) =~= text@.take(k).push(c));
                    lemma_len_push(from, text@.take(k), c);
                    lemma_len_push(to, text@.take(k), c);
                    lemma_len_push(Encoding::Utf8, text@.take(k), c);
                    lemma_len_prefix(Encoding::Utf8, text@, k + 1, k + 1);
                    lemma_len_bounds(text@.take(k + 1));
                    k = k + 1;
                }
                source = source + from.width_of(c);
                target = target + to.width_of(c);
            },
            None => {
                break ;
            },
        }
    }
    proof {
        lemma_len_prefix(Encoding::Utf8, text@, k, k);
        lemma_len_bounds(text@.take(k));
    }
    target
}

/// The byte offset of the last character that starts before `offset`; 0 if
/// there is none.
pub fn previous_boundary(text: &str, offset: usize) -> (r: usize)
    ensures
        r == last_start_below(text@, offset as int),
{
    let len = byte_len(text);
    let mut i: usize = if offset < len {
        offset
    } else {
        len
    };
    proof {
        lemma_last_start_beyond(text@, offset as int);
    }
    while i > 0
        invariant
            i <= len,
            len == encode_utf8(text@).len(),
            last_start_below(text@, offset as int) == last_start_below(text@, i as int),
        decreases i,
    {
        i = i - 1;
        if i < len && text.is_char_boundary(i) {
            return i;
        }
    }
    0
}

/// The byte offset of the first character that starts after `offset`; the
/// length of the text if there is none.
pub fn next_boundary(text: &str, offset: usize) -> (r: usize)
    ensures
        r == first_start_above(text@, offset as int),
{
    let len = byte_len(text);
    if offset >= len {
        return len;
    }
    let mut i: usize = offset;
    while i + 1 < len
        invariant
            i < len,
            len == encode_utf8(text@).len(),
            first_start_above(text@, offset as int) == first_start_above(text@, i as int),
        decreases len - i,
    {
        if text.is_char_boundary(i + 1) {
            return i + 1;
        }
        i = i + 1;
    }
    len
}

/// Whether a byte offset falls between two characters, or at the start or end.
pub fn on_boundary(text: &str, offset: usize) -> (r: bool)
    ensures
        r == is_boundary(text@, offset as int),
{
    text.is_char_boundary(offset)
}

/// The part of the text between two character boundaries.
pub fn slice(text: &str, start: usize, end: usize) -> (r: &str)
    requires
        is_boundary(text@, start as int),
        is_boundary(text@, end as int),
        start <= end,
    ensures
        r@ == text@.subrange(char_index(text@, start as int), char_index(text@, end as int)),
        char_index(text@, start as int) <= char_index(text@, end as int) <= text@.len(),
{
    let ghost i = char_index(text@, start as int);
    let ghost j = char_index(text@, end as int);
    proof {
        lemma_boundary_is_prefix(text@, start as int);
        lemma_boundary_is_prefix(text@, end as int);
        if j < i {
            lemma_len_prefix(Encoding::Utf8, text@, j, i);
        }
        lemma_split_bytes(text@, j);
    }
    let head = text.split_at(end).0;
    proof {
        lemma_encode_injective(head@, text@.take(j));
        assert(text@.take(j).take(i) =~= text@.take(i));
        lemma_prefix_is_boundary(head@, i);
        lemma_split_bytes(head@, i);
    }
    let part = head.split_at(start).1;
    proof {
        lemma_encode_injective(part@, head@.skip(i));
        assert(text@.take(j).skip(i) =~= text@.subrange(i, j));
    }
    part
}

/// The text with the part between two character boundaries replaced. The two
/// need not be in order: the text up to `start` is followed by `insert` and
/// then by the text from `end` on.
pub fn splice(text: &str, start: usize, end: usize, insert: &str) -> (r: String)
    requires
        is_boundary(text@, start as int),
        is_boundary(text@, end as int),
    ensures
        r@ == text@.take(char_index(text@, start as int)) + insert@ + text@.skip(
            char_index(text@, end as int),
        ),
{
    let ghost i = char_index(text@, start as int);
    let ghost j = char_index(text@, end as int);
    proof {
        lemma_boundary_is_prefix(text@, start as int);
        lemma_boundary_is_prefix(text@, end as int);
        lemma_split_bytes(text@, i);
        lemma_split_bytes(text@, j);
    }
    let head = text.split_at(start).0;
    let tail = text.split_at(end).1;
    proof {
        lemma_encode_injective(head@, text@.take(i));
        lemma_encode_injective(tail@, text@.skip(j));
    }
    crate::text::concat3(head, insert, tail)
}

/// Converting a position and converting the result back gives the position
/// again, moved forward to the next character boundary if it was inside a
/// character, or to the end if it was beyond.
pub proof fn convert_round_trip(text: Seq<char>, from: Encoding, to: Encoding, offset: int)
    ensures
        convert_offset(text, to, from, convert_offset(text, from, to, offset)) == convert_offset(
            text,
            from,
            from,
            offset,
        ),
{
    lemma_reach_bounds(from, text, offset, 0);
    let k = from.chars_to_reach(text, offset);
    lemma_reach_exact(to, text, to.len(text.take(k)), k, 0);
}

/// A byte offset on a character boundary stays where it is when it is
/// converted to UTF-16 and back.
pub proof fn boundary_round_trip(text: Seq<char>, offset: int)
    requires
        is_boundary(text, offset),
    ensures
        convert_offset(
            text,
            Encoding::Utf16,
            Encoding::Utf8,
            convert_offset(text, Encoding::Utf8, Encoding::Utf16, offset),
        ) == offset,
{
    convert_round_trip(text, Encoding::Utf8, Encoding::Utf16, offset);
    lemma_boundary_is_prefix(text, offset);
}

/// Stepping back from a character boundary and forward again leads back to
/// it.
pub proof fn back_and_forth(text: Seq<char>, offset: int)
    requires
        is_boundary(text, offset),
        0 < offset,
    ensures
        first_start_above(text, last_start_below(text, offset)) == offset,
{
    lemma_boundary_is_prefix(text, offset);
    lemma_len_prefix(Encoding::Utf8, text, char_index(text, offset), char_index(text, offset));
    lemma_byte_len(text);
    lemma_len_units(Encoding::Utf8, text);
    lemma_last_start_is_boundary(text, offset);
    let previous = last_start_below(text, offset);
    assert(text.len() > 0) by {
        if text.len() == 0 {
            assert(text.take(char_index(text, offset)) =~= Seq::<char>::empty());
        }
    }
    assert forall|between: int| previous < between < offset implies !is_boundary(
        text,
        between,
    ) by {
        lemma_last_start_gap(text, offset, between);
    }
    lemma_first_start_next(text, previous, offset);
}

} // verus!
