//! General properties of the prompt evaluator, stated over the same spec
//! functions that the contracts of `ask` and the setters use.

use vstd::prelude::*;

use crate::buffer::confirm_exit;
use crate::buffer::confirm_transcript;
use crate::buffer::is_yes;
use crate::buffer::lemma_single_line_reads_whole;
use crate::buffer::line_at;
use crate::buffer::line_end;
use crate::builder::Answer;
use crate::builder::Source;
use crate::builder::StateBuilder;
use crate::colour::Colour;

verus! {

/// Law: with no modifiers set, the answer `ask` returns from a redirected
/// source is the input text itself, whenever that text is a single line.
pub proof fn lemma_plain_ask_returns_input<F: Fn(Answer) -> bool>(b: StateBuilder<F>)
    requires
        !b.no_echo,
        !b.no_answer,
        !b.confirm,
        b.source matches Source::Redirected(ib) && ib.pos == 0,
        forall|j: int| 0 <= j < b.source_text().len() ==> b.source_text()[j] != '\n',
    ensures
        b.raw_answer() == b.source_text(),
{
    lemma_single_line_reads_whole(b.source_text());
}

/// Law: when the line at the current position already confirms, the
/// confirmation loop exits after that one read and renders its message and
/// question exactly once.
pub proof fn lemma_confirm_first_yes(text: Seq<char>, pos: int, unit: Seq<char>)
    requires
        0 <= pos <= text.len(),
        is_yes(line_at(text, pos)),
    ensures
        confirm_exit(text, pos) == Some(line_end(text, pos)),
        confirm_transcript(text, pos, unit) == unit,
{
    reveal_strlit("y");
    reveal_strlit("Y");
    if pos == text.len() {
        assert(line_at(text, pos).len() == 0);
        assert(false);
    }
}

/// Law: a trailing prompt character changes only the displayed message; the
/// captured answer and the input consumed are untouched.
pub proof fn lemma_prompt_only_affects_display<F: Fn(Answer) -> bool>(b: StateBuilder<F>, c: char)
    ensures
        b.with_prompt(c).raw_answer() == b.raw_answer(),
        b.with_prompt(c).answer_pos() == b.answer_pos(),
        b.with_prompt(c).end_pos() == b.end_pos(),
        b.with_prompt(c).displayed() == b.msg@ + seq![c],
{
}

/// Law: calling a setter twice leaves only the last value in effect.
pub proof fn lemma_setter_last_value_wins<F: Fn(Answer) -> bool>(
    b: StateBuilder<F>,
    c1: char,
    c2: char,
    col1: Colour,
    col2: Colour,
    d1: String,
    d2: String,
)
    ensures
        b.with_prompt(c1).with_prompt(c2) == b.with_prompt(c2),
        b.with_fg_colour(col1).with_fg_colour(col2) == b.with_fg_colour(col2),
        b.with_bg_colour(col1).with_bg_colour(col2) == b.with_bg_colour(col2),
        b.with_default(d1).with_default(d2) == b.with_default(d2),
        b.with_no_echo().with_no_echo() == b.with_no_echo(),
        b.with_no_answer().with_no_answer() == b.with_no_answer(),
        b.with_confirm().with_confirm() == b.with_confirm(),
{
}

/// Law: the order of independent setters does not change the final
/// configuration.
pub proof fn lemma_independent_setters_commute<F: Fn(Answer) -> bool>(
    b: StateBuilder<F>,
    c: char,
    col: Colour,
    d: String,
)
    ensures
        b.with_prompt(c).with_fg_colour(col) == b.with_fg_colour(col).with_prompt(c),
        b.with_prompt(c).with_bg_colour(col) == b.with_bg_colour(col).with_prompt(c),
        b.with_no_echo().with_no_answer() == b.with_no_answer().with_no_echo(),
        b.with_confirm().with_no_answer() == b.with_no_answer().with_confirm(),
        b.with_default(d).with_prompt(c) == b.with_prompt(c).with_default(d),
{
}

} // verus!

