//! What is drawn of the editor: the line of text, cut into runs of one style
//! each, and either the cursor or the selection.

use vstd::prelude::*;
use std::ops::Range;
use crate::chatbox::input::view::ChatInputView;
use crate::chatbox::input::InteractiveChatInput;
use crate::offsets::{byte_len, Encoding};

verus! {

/// A stretch of the line drawn in one style.
#[derive(Debug, Clone, Copy, PartialEq, Eq, Structural)]
pub struct TextRun {
    /// Its length in bytes.
    pub len: usize,
    /// Whether it is underlined, as text that is being composed is.
    pub underlined: bool,
}

/// What to draw.
#[derive(Debug)]
pub struct PrepaintState {
    /// The line: the text, or the placeholder while there is none.
    pub text: String,
    /// Whether the line is the placeholder, to be drawn faintly.
    pub placeholder_shown: bool,
    /// The runs of the line, in order.
    pub runs: Vec<TextRun>,
    /// The byte offset of the cursor, when nothing is selected.
    pub cursor: Option<usize>,
    /// The selected bytes, when something is.
    pub selection: Option<Range<usize>>,
}

/// The line that is drawn: the text, or the placeholder while there is none.
pub open spec fn displayed(input: ChatInputView) -> Seq<char> {
    if input.text.len() == 0 {
        input.placeholder
    } else {
        input.text
    }
}

/// A run of `len` bytes, left out if it is empty.
pub open spec fn run(len: int, underlined: bool) -> Seq<TextRun> {
    if len > 0 {
        seq![TextRun { len: len as usize, underlined }]
    } else {
        Seq::<TextRun>::empty()
    }
}

/// The runs of a line of `total` bytes: a single run, or, around a marked
/// range, what precedes it, the range underlined, and what follows, each left
/// out if empty.
pub open spec fn text_runs(total: int, marked: Option<Range<usize>>) -> Seq<TextRun> {
    match marked {
        Some(marked) => run(marked.start as int, false) + run(marked.end - marked.start, true)
            + run(total - marked.end, false),
        None => seq![TextRun { len: total as usize, underlined: false }],
    }
}

/// Whether the marked range fits the line that is drawn.
pub open spec fn can_prepaint(input: ChatInputView) -> bool {
    input.marked matches Some(marked) ==> marked.start <= marked.end <= Encoding::Utf8.len(
        displayed(input),
    )
}

fn push_run(runs: &mut Vec<TextRun>, len: usize, underlined: bool)
    ensures
        final(runs)@ == old(runs)@ + run(len as int, underlined),
{
    if len > 0 {
        runs.push(TextRun { len, underlined });
        assert(runs@ =~= old(runs)@ + run(len as int, underlined));
    } else {
        assert(runs@ =~= old(runs)@ + run(len as int, underlined));
    }
}

/// Whether the marked range fits the line that is drawn.
pub fn prepaint_ready(input: &InteractiveChatInput) -> (r: bool)
    ensures
        r == can_prepaint(input@),
{
    match input.marked_range() {
        Some(marked) => {
            let text = input.get_text();
            let total = if text.as_str().is_empty() {
                byte_len(input.placeholder())
            } else {
                byte_len(text.as_str())
            };
            marked.start <= marked.end && marked.end <= total
        },
        None => true,
    }
}

/// What to draw of the editor.
pub fn prepaint(input: &InteractiveChatInput) -> (r: PrepaintState)
    requires
        can_prepaint(input@),
    ensures
        r.text@ == displayed(input@),
        r.placeholder_shown == (input@.text.len() == 0),
        r.runs@ == text_runs(Encoding::Utf8.len(displayed(input@)), input@.marked),
        r.cursor == if input@.collapsed() {
            Some(input@.cursor())
        } else {
            None
        },
        r.selection == if input@.collapsed() {
            None
        } else {
            Some(input@.selected)
        },
{
    let content = input.get_text();
    let placeholder_shown = content.as_str().is_empty();
    let text = if placeholder_shown {
        input.placeholder().to_owned()
    } else {
        content
    };
    let total = byte_len(text.as_str());
    let mut runs: Vec<TextRun> = Vec::new();
    match input.marked_range() {
        Some(marked) => {
            push_run(&mut runs, marked.start, false);
            push_run(&mut runs, marked.end - marked.start, true);
            push_run(&mut runs, total - marked.end, false);
            assert(runs@ =~= text_runs(total as int, input@.marked));
        },
        None => {
            runs.push(TextRun { len: total, underlined: false });
            assert(runs@ =~= text_runs(total as int, input@.marked));
        },
    }
    let selected = input.selected_range();
    if selected.start >= selected.end {
        PrepaintState {
            text,
            placeholder_shown,
            runs,
            cursor: Some(input.cursor_offset()),
            selection: None,
        }
    } else {
        PrepaintState { text, placeholder_shown, runs, cursor: None, selection: Some(selected) }
    }
}

/// The bytes that runs cover together.
pub open spec fn covered(runs: Seq<TextRun>) -> int
    decreases runs.len(),
{
    if runs.len() == 0 {
        0
    } else {
        covered(runs.drop_last()) + runs.last().len
    }
}

/// Covering by two sequences of runs is covering by each.
proof fn lemma_covered_concat(first: Seq<TextRun>, second: Seq<TextRun>)
    ensures
        covered(first + second) == covered(first) + covered(second),
    decreases second.len(),
{
    if second.len() == 0 {
        assert(first + second =~= first);
    } else {
        lemma_covered_concat(first, second.drop_last());
        assert((first + second).drop_last() =~= first + second.drop_last());
    }
}

/// The runs of a line cover the line, neither more nor less, and none of
/// them is empty where a range is marked.
pub proof fn runs_cover_the_line(total: int, marked: Option<Range<usize>>)
    requires
        0 <= total <= usize::MAX,
        marked matches Some(range) ==> range.start <= range.end <= total,
    ensures
        covered(text_runs(total, marked)) == total,
        marked is Some ==> forall|i: int|
            0 <= i < text_runs(total, marked).len() ==> (#[trigger] text_runs(total, marked)[i]).len
                > 0,
{
    reveal_with_fuel(covered, 2);
    match marked {
        Some(range) => {
            let before = run(range.start as int, false);
            let within = run(range.end - range.start, true);
            let after = run(total - range.end, false);
            assert(before.len() > 0 ==> before.drop_last() =~= Seq::<TextRun>::empty());
            assert(within.len() > 0 ==> within.drop_last() =~= Seq::<TextRun>::empty());
            assert(after.len() > 0 ==> after.drop_last() =~= Seq::<TextRun>::empty());
            lemma_covered_concat(before, within);
            lemma_covered_concat(before + within, after);
        },
        None => {
            let only = text_runs(total, marked);
            assert(only.drop_last() =~= Seq::<TextRun>::empty());
        },
    }
}

} // verus!
