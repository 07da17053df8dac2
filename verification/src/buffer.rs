//! In-memory input and output buffers used when the prompt's input or output
//! is redirected away from the terminal, together with the line-reading model
//! that the prompt evaluator is specified against.

use vstd::prelude::*;
use vstd::string::StrSliceExecFns;
use vstd::string::StringExecFns;

verus! {

/// The position one past the end of the line that starts at `pos`: just past
/// the first `'\n'` at or after `pos`, or `text.len()` if there is none.
pub open spec fn line_end(text: Seq<char>, pos: int) -> int
    decreases text.len() - pos when 0 <= pos <= text.len()
{
    if pos >= text.len() {
        pos
    } else if text[pos] == '\n' {
        pos + 1
    } else {
        line_end(text, pos + 1)
    }
}

/// The line that starts at `pos`, including its `'\n'` if it has one.
pub open spec fn line_at(text: Seq<char>, pos: int) -> Seq<char> {
    text.subrange(pos, line_end(text, pos))
}

/// Removes a trailing `'\n'`, and a `'\r'` just before it, from one line.
pub open spec fn strip_eol(line: Seq<char>) -> Seq<char> {
    if line.len() > 0 && line.last() == '\n' {
        let l = line.drop_last();
        if l.len() > 0 && l.last() == '\r' {
            l.drop_last()
        } else {
            l
        }
    } else {
        line
    }
}

/// A line of input confirms the prompt exactly when, with its line ending
/// stripped, it equals `y` or `Y`.
pub open spec fn is_yes(line: Seq<char>) -> bool {
    strip_eol(line) == "y"@ || strip_eol(line) == "Y"@
}

/// The position just past the first confirming line at or after `pos`, or
/// `None` if no line from `pos` on confirms (in which case the confirmation
/// loop would re-read forever).
pub open spec fn confirm_exit(text: Seq<char>, pos: int) -> Option<int>
    decreases text.len() - pos when 0 <= pos <= text.len() via confirm_exit_decreases
{
    if pos >= text.len() {
        None
    } else {
        let e = line_end(text, pos);
        if is_yes(text.subrange(pos, e)) {
            Some(e)
        } else {
            confirm_exit(text, e)
        }
    }
}

#[via_fn]
proof fn confirm_exit_decreases(text: Seq<char>, pos: int) {
    if 0 <= pos < text.len() {
        lemma_line_end_bounds(text, pos);
    }
}

/// What the confirmation loop writes before exiting: one `unit` (the message
/// followed by the confirmation question) per line read.
pub open spec fn confirm_transcript(text: Seq<char>, pos: int, unit: Seq<char>) -> Seq<char>
    decreases text.len() - pos when 0 <= pos <= text.len() via confirm_transcript_decreases
{
    if pos >= text.len() {
        unit
    } else {
        let e = line_end(text, pos);
        if is_yes(text.subrange(pos, e)) {
            unit
        } else {
            unit + confirm_transcript(text, e, unit)
        }
    }
}

#[via_fn]
proof fn confirm_transcript_decreases(text: Seq<char>, pos: int, unit: Seq<char>) {
    if 0 <= pos < text.len() {
        lemma_line_end_bounds(text, pos);
    }
}

/// `line_end` stays within the text and moves strictly forward on a
/// non-empty remainder.
pub proof fn lemma_line_end_bounds(text: Seq<char>, pos: int)
    requires
        0 <= pos <= text.len(),
    ensures
        pos <= line_end(text, pos) <= text.len(),
        pos < text.len() ==> pos + 1 <= line_end(text, pos),
    decreases text.len() - pos,
{
    if pos < text.len() && text[pos] != '\n' {
        lemma_line_end_bounds(text, pos + 1);
    }
}

/// Reading a line out of the remainder of the text reads the same line as
/// reading it in place.
pub proof fn lemma_line_shift(text: Seq<char>, pos: int)
    requires
        0 <= pos <= text.len(),
    ensures
        line_end(text.subrange(pos, text.len() as int), 0) == line_end(text, pos) - pos,
        line_at(text.subrange(pos, text.len() as int), 0) == line_at(text, pos),
    decreases text.len() - pos,
{
    let rest = text.subrange(pos, text.len() as int);
    lemma_line_end_bounds(text, pos);
    if pos >= text.len() {
        assert(line_at(rest, 0) =~= line_at(text, pos));
    } else if text[pos] == '\n' {
        assert(rest[0] == '\n');
        assert(line_at(rest, 0) =~= line_at(text, pos));
    } else {
        lemma_line_shift(text, pos + 1);
        let rest1 = text.subrange(pos + 1, text.len() as int);
        assert(rest.subrange(1, rest.len() as int) =~= rest1);
        assert(rest[0] != '\n');
        lemma_line_end_shift_one(rest);
        lemma_line_end_bounds(text, pos + 1);
        assert(line_at(rest, 0) =~= line_at(text, pos));
    }
}

/// Dropping a leading non-newline character shortens a line by one.
proof fn lemma_line_end_shift_one(s: Seq<char>)
    requires
        s.len() > 0,
        s[0] != '\n',
    ensures
        line_end(s, 0) == 1 + line_end(s.subrange(1, s.len() as int), 0),
    decreases s.len(),
{
    let t = s.subrange(1, s.len() as int);
    lemma_line_end_tail(s, t, 0);
}

/// `line_end` computed on a tail agrees with `line_end` computed in place.
proof fn lemma_line_end_tail(s: Seq<char>, t: Seq<char>, i: int)
    requires
        0 <= i <= t.len(),
        t =~= s.subrange(1, s.len() as int),
        s.len() == t.len() + 1,
    ensures
        line_end(s, i + 1) == 1 + line_end(t, i),
    decreases t.len() - i,
{
    if i < t.len() {
        assert(s[i + 1] == t[i]);
        if t[i] != '\n' {
            lemma_line_end_tail(s, t, i + 1);
        }
    }
}

/// A single line with no `'\n'` anywhere is read back whole.
pub proof fn lemma_single_line_reads_whole(text: Seq<char>)
    requires
        forall|j: int| 0 <= j < text.len() ==> text[j] != '\n',
    ensures
        line_at(text, 0) == text,
{
    lemma_line_end_at(text, 0);
    assert(line_at(text, 0) =~= text);
}

proof fn lemma_line_end_at(text: Seq<char>, pos: int)
    requires
        0 <= pos <= text.len(),
        forall|j: int| pos <= j < text.len() ==> text[j] != '\n',
    ensures
        line_end(text, pos) == text.len(),
    decreases text.len() - pos,
{
    if pos < text.len() {
        lemma_line_end_at(text, pos + 1);
    }
}

/// An in-memory input source: the prompt reads successive lines from `text`,
/// starting at the character position `pos`.
pub struct InBuffer {
    pub text: String,
    pub pos: usize,
}

impl InBuffer {
    /// The position has not run past the end of the text.
    pub open spec fn wf(&self) -> bool {
        self.pos <= self.text@.len()
    }

    /// A fresh input source positioned at the start of `text`.
    pub fn new(text: String) -> (r: InBuffer)
        ensures
            r.text == text,
            r.pos == 0,
            r.wf(),
    {
        InBuffer { text, pos: 0 }
    }

    /// Reads one line, including its `'\n'` if it has one; at the end of the
    /// text this returns the empty string, as reading an exhausted source does.
    pub fn read_line(&mut self) -> (r: String)
        requires
            old(self).wf(),
        ensures
            final(self).text == old(self).text,
            final(self).pos == line_end(old(self).text@, old(self).pos as int),
            r@ == line_at(old(self).text@, old(self).pos as int),
            final(self).wf(),
    {
        let ghost text = self.text@;
        let ghost start = self.pos as int;
        let n = self.text.as_str().unicode_len();
        let mut i = self.pos;
        loop
            invariant_except_break
                line_end(text, start) == line_end(text, i as int),
            invariant
                start <= i <= n == text.len(),
                self.text@ == text,
                self.pos == start,
            ensures
                start <= i <= n,
                self.text@ == text,
                self.pos == start,
                i == line_end(text, start),
            decreases n - i,
        {
            if i == n {
                break;
            }
            let c = self.text.as_str().get_char(i);
            if c == '\n' {
                i = i + 1;
                break;
            }
            i = i + 1;
        }
        let line = self.text.as_str().substring_char(self.pos, i);
        let r = String::from_str(line);
        self.pos = i;
        r
    }

    /// True exactly when some later line confirms the prompt, so that the
    /// confirmation loop would terminate when reading from this source.
    pub fn has_confirmation_line(&self) -> (r: bool)
        requires
            self.wf(),
        ensures
            r == (confirm_exit(self.text@, self.pos as int) is Some),
    {
        let ghost text = self.text@;
        let n = self.text.as_str().unicode_len();
        let mut probe = InBuffer { text: self.text.clone(), pos: self.pos };
        loop
            invariant
                self.text@ == text,
                self.pos <= n,
                probe.text@ == text,
                probe.pos <= n == text.len(),
                confirm_exit(text, self.pos as int) == confirm_exit(text, probe.pos as int),
            ensures
                confirm_exit(text, self.pos as int) is None,
            decreases n - probe.pos,
        {
            if probe.pos == n {
                break;
            }
            let ghost before = probe.pos as int;
            let line = probe.read_line();
            proof {
                lemma_line_end_bounds(text, before);
            }
            if is_confirmation(&line) {
                proof {
                    assert(confirm_exit(text, before) == Some(line_end(text, before)));
                }
                return true;
            }
        }
        false
    }
}

/// Removes a trailing `'\n'`, and a `'\r'` just before it, from one line.
pub fn strip_line_ending(s: &String) -> (r: String)
    ensures
        r@ == strip_eol(s@),
{
    let n = s.as_str().unicode_len();
    if n > 0 && s.as_str().get_char(n - 1) == '\n' {
        let m = if n > 1 && s.as_str().get_char(n - 2) == '\r' {
            n - 2
        } else {
            n - 1
        };
        let r = String::from_str(s.as_str().substring_char(0, m));
        proof {
            assert(s@.drop_last() =~= s@.subrange(0, s@.len() - 1));
            if s@.len() > 1 && s@.drop_last().last() == '\r' {
                assert(s@.drop_last().drop_last() =~= s@.subrange(0, s@.len() - 2));
            }
        }
        r
    } else {
        s.clone()
    }
}

/// The confirmation loop's exit decision: a line of input confirms exactly
/// when, stripped of its line ending, it equals `y` or `Y`.
pub fn is_confirmation(line: &String) -> (r: bool)
    ensures
        r == is_yes(line@),
{
    let stripped = strip_line_ending(line);
    let y = String::from_str("y");
    let yy = String::from_str("Y");
    stripped == y || stripped == yy
}

/// An in-memory output sink: everything the prompt renders is appended to
/// `text` verbatim, with no newline added.
pub struct OutBuffer {
    pub text: String,
}

impl OutBuffer {
    /// A fresh, empty sink.
    pub fn new() -> (r: OutBuffer)
        ensures
            r.text@ == Seq::<char>::empty(),
    {
        OutBuffer { text: String::new() }
    }

    /// Appends `s` verbatim.
    pub fn write_str(&mut self, s: &String)
        ensures
            final(self).text@ == old(self).text@ + s@,
    {
        self.text.append(s.as_str());
    }

    /// Everything written so far.
    pub fn contents(&self) -> (r: &String)
        ensures
            r == &self.text,
    {
        &self.text
    }
}

} // verus!
