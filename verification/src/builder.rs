//! The prompt evaluator: a configuration record built by chained setters and
//! consumed by `ask`, which runs the fixed evaluation pipeline — print the
//! message (with an optional confirmation loop), read one line (optionally
//! masked), validate it, and optionally discard it.

use std::io::Write;
use vstd::prelude::*;
use vstd::string::StrSliceExecFns;
use vstd::string::StringExecFns;

use crate::buffer::confirm_exit;
use crate::buffer::confirm_transcript;
use crate::buffer::is_confirmation;
use crate::buffer::is_yes;
use crate::buffer::lemma_line_end_bounds;
use crate::buffer::lemma_line_shift;
use crate::buffer::line_at;
use crate::buffer::line_end;
use crate::buffer::strip_eol;
use crate::buffer::InBuffer;
use crate::buffer::OutBuffer;
use crate::colour::paint;
use crate::colour::resolve_bg;
use crate::colour::resolve_fg;
use crate::colour::Colour;
use crate::colour::PaintColour;
use crate::errors::AskError;

verus! {

/// One line of captured user input.
pub type Answer = String;

/// Where the prompt reads from: the process's standard input, or an
/// in-memory buffer.
pub enum Source {
    Terminal,
    Redirected(InBuffer),
}

/// Where the prompt writes to: the console (each write gets its own line),
/// or an in-memory buffer (written verbatim).
pub enum Sink {
    Console,
    Redirected(OutBuffer),
}

/// The question that the confirmation loop prints after the message.
pub open spec fn confirm_question() -> Seq<char> {
    "Are you sure? Y/N"@
}

/// The prompt configuration: every field is optional and absence means the
/// default behaviour. Built by the chained setters and consumed by `ask`.
pub struct StateBuilder<F: Fn(Answer) -> bool> {
    pub msg: String,
    pub no_answer: bool,
    pub no_echo: bool,
    pub confirm: bool,
    pub default: Option<String>,
    pub prompt: Option<char>,
    pub bg_colour: Option<Colour>,
    pub fg_colour: Option<Colour>,
    pub validate: Option<F>,
    pub source: Source,
    pub sink: Sink,
}

impl<F: Fn(Answer) -> bool> StateBuilder<F> {
    /// A redirected input source is in bounds, and a configured predicate can
    /// be applied to any answer.
    pub open spec fn wf(&self) -> bool {
        &&& (self.source matches Source::Redirected(b) ==> b.wf())
        &&& (self.validate matches Some(f) ==> forall|a: Answer| call_requires(f, (a,)))
    }

    /// The message as displayed: the trailing prompt character is appended
    /// when one is configured.
    pub open spec fn displayed(&self) -> Seq<char> {
        match self.prompt {
            Some(c) => self.msg@ + seq![c],
            None => self.msg@,
        }
    }

    /// The text of a redirected input source (empty for the terminal).
    pub open spec fn source_text(&self) -> Seq<char> {
        match self.source {
            Source::Redirected(b) => b.text@,
            Source::Terminal => Seq::empty(),
        }
    }

    /// The read position of a redirected input source.
    pub open spec fn source_pos(&self) -> int {
        match self.source {
            Source::Redirected(b) => b.pos as int,
            Source::Terminal => 0,
        }
    }

    /// Where the answer line starts: after the confirmation loop has consumed
    /// its lines if confirmation is configured, else at the current position.
    pub open spec fn answer_pos(&self) -> int {
        if self.confirm {
            match confirm_exit(self.source_text(), self.source_pos()) {
                Some(q) => q,
                None => self.source_pos(),
            }
        } else {
            self.source_pos()
        }
    }

    /// The position of a redirected source after the answer line was read.
    pub open spec fn end_pos(&self) -> int {
        line_end(self.source_text(), self.answer_pos())
    }

    /// The raw answer captured from a redirected source: the answer line,
    /// with its line ending stripped when the masked-read path is used.
    pub open spec fn raw_answer(&self) -> Seq<char> {
        let line = line_at(self.source_text(), self.answer_pos());
        if self.no_echo {
            strip_eol(line)
        } else {
            line
        }
    }

    /// Everything `ask` renders: the message once, or, under confirmation,
    /// the message and the confirmation question once per line read.
    pub open spec fn transcript(&self) -> Seq<char> {
        if self.confirm {
            confirm_transcript(
                self.source_text(),
                self.source_pos(),
                self.displayed() + confirm_question(),
            )
        } else {
            self.displayed()
        }
    }

    /// The configuration fields (everything but the two streams) agree.
    pub open spec fn same_config(self, o: Self) -> bool {
        &&& self.msg == o.msg
        &&& self.no_answer == o.no_answer
        &&& self.no_echo == o.no_echo
        &&& self.confirm == o.confirm
        &&& self.default == o.default
        &&& self.prompt == o.prompt
        &&& self.bg_colour == o.bg_colour
        &&& self.fg_colour == o.fg_colour
        &&& self.validate == o.validate
    }

    /// The streams evolve as one run of the pipeline does: the sink grows by
    /// `written`, a redirected source keeps its text and ends at `pos`.
    pub open spec fn io_step(self, o: Self, written: Seq<char>, pos: int) -> bool {
        &&& (match o.sink {
            Sink::Redirected(ob) => self.sink matches Sink::Redirected(nb) && nb.text@ == ob.text@
                + written,
            Sink::Console => self.sink is Console,
        })
        &&& (match o.source {
            Source::Redirected(b) => self.source matches Source::Redirected(nb) && nb.text == b.text
                && nb.pos == pos,
            Source::Terminal => self.source is Terminal,
        })
    }
}

/// Relies on std::io::Stdin::read_line: reads one line from standard input,
/// including its newline; nothing is known of the text that arrives.
#[verifier::external_body]
fn read_line_stdin() -> (r: Result<String, AskError>)
    ensures
        r matches Err(e) ==> e == AskError::ReadStdin,
{
    let mut buf = String::new();
    match std::io::stdin().read_line(&mut buf) {
        Ok(_) => Ok(buf),
        Err(_) => Err(AskError::ReadStdin),
    }
}

/// Relies on rpassword::read_password: reads one line from the terminal with
/// echo suppressed and strips its line ending; nothing is known of the text
/// the user typed.
#[verifier::external_body]
fn read_password_terminal() -> (r: Result<String, AskError>)
    ensures
        r matches Err(e) ==> e == AskError::ReadMasked,
{
    match rpassword::read_password() {
        Ok(s) => Ok(s),
        Err(_) => Err(AskError::ReadMasked),
    }
}

/// Relies on rpassword::read_password_with_reader: reads the first line of
/// the given reader and strips a trailing `'\n'`, and a `'\r'` just before
/// it, if present.
#[verifier::external_body]
fn read_password_redirected(rest: &str) -> (r: Result<String, AskError>)
    ensures
        r matches Ok(a) ==> a@ == strip_eol(line_at(rest@, 0)),
        r matches Err(e) ==> e == AskError::ReadMasked,
{
    let mut cur = std::io::Cursor::new(rest.as_bytes());
    match rpassword::read_password_with_reader(Some(&mut cur)) {
        Ok(s) => Ok(s),
        Err(_) => Err(AskError::ReadMasked),
    }
}

/// Relies on std::io::Stdout (via the writeln macro): writes the rendered
/// text and a trailing newline to standard output, as console printing does.
#[verifier::external_body]
fn console_print_line(text: &String) {
    writeln!(std::io::stdout(), "{}", text).unwrap();
}

/// Relies on String::push: appends one character.
#[verifier::external_body]
fn push_char(s: &mut String, c: char)
    ensures
        final(s)@ == old(s)@ + seq![c],
{
    s.push(c);
}

impl<F: Fn(Answer) -> bool> StateBuilder<F> {
    /// Renders one piece of text in the resolved colours and writes it to the
    /// configured sink: appended verbatim when redirected, printed as its own
    /// line on the console.
    fn print(&mut self, fg: PaintColour, bg: PaintColour, text: &String)
        ensures
            final(self).same_config(*old(self)),
            final(self).source == old(self).source,
            match old(self).sink {
                Sink::Redirected(ob) => final(self).sink matches Sink::Redirected(nb)
                    && nb.text@ == ob.text@ + text@,
                Sink::Console => final(self).sink is Console,
            },
    {
        let out = paint(fg, bg, text);
        match &mut self.sink {
            Sink::Redirected(ob) => ob.write_str(&out),
            Sink::Console => console_print_line(&out),
        }
    }

    /// Prints the message, with the trailing prompt character appended when
    /// one is configured.
    fn print_message(&mut self, fg: PaintColour, bg: PaintColour)
        ensures
            final(self).same_config(*old(self)),
            final(self).source == old(self).source,
            match old(self).sink {
                Sink::Redirected(ob) => final(self).sink matches Sink::Redirected(nb)
                    && nb.text@ == ob.text@ + old(self).displayed(),
                Sink::Console => final(self).sink is Console,
            },
    {
        let mut message = self.msg.clone();
        match &self.prompt {
            Some(p) => {
                push_char(&mut message, *p);
            },
            None => {},
        }
        self.print(fg, bg, &message);
    }

    /// Prints the confirmation question.
    fn print_confirm(&mut self, fg: PaintColour, bg: PaintColour)
        ensures
            final(self).same_config(*old(self)),
            final(self).source == old(self).source,
            match old(self).sink {
                Sink::Redirected(ob) => final(self).sink matches Sink::Redirected(nb)
                    && nb.text@ == ob.text@ + confirm_question(),
                Sink::Console => final(self).sink is Console,
            },
    {
        let question = String::from_str("Are you sure? Y/N");
        self.print(fg, bg, &question);
    }

    /// Reads one raw line from the configured source. A redirected read
    /// cannot fail; a terminal read fails only with the standard-input error.
    fn read(&mut self) -> (r: Result<Answer, AskError>)
        requires
            old(self).wf(),
        ensures
            final(self).same_config(*old(self)),
            final(self).sink == old(self).sink,
            final(self).wf(),
            match old(self).source {
                Source::Redirected(b) => {
                    &&& final(self).source matches Source::Redirected(nb) && nb.text == b.text
                        && nb.pos == line_end(b.text@, b.pos as int)
                    &&& r matches Ok(a) && a@ == line_at(b.text@, b.pos as int)
                },
                Source::Terminal => {
                    &&& final(self).source is Terminal
                    &&& (r matches Err(e) ==> e == AskError::ReadStdin)
                },
            },
    {
        match &mut self.source {
            Source::Redirected(buf) => Ok(buf.read_line()),
            Source::Terminal => read_line_stdin(),
        }
    }

    /// Prints the message and the confirmation question, then reads a line,
    /// until a line confirms; a failed read only repeats the loop. The input
    /// must be redirected and must contain a confirming line, else the loop
    /// would never end.
    fn loop_confirm(&mut self, fg: PaintColour, bg: PaintColour)
        requires
            old(self).wf(),
            old(self).source matches Source::Redirected(b) && confirm_exit(
                b.text@,
                b.pos as int,
            ) is Some,
        ensures
            final(self).same_config(*old(self)),
            final(self).wf(),
            old(self).source matches Source::Redirected(b) ==> {
                &&& final(self).source matches Source::Redirected(nb) && nb.text == b.text
                    && confirm_exit(b.text@, b.pos as int) == Some(nb.pos as int)
                &&& match old(self).sink {
                    Sink::Redirected(ob) => final(self).sink matches Sink::Redirected(nsb)
                        && nsb.text@ == ob.text@ + confirm_transcript(
                        b.text@,
                        b.pos as int,
                        old(self).displayed() + confirm_question(),
                    ),
                    Sink::Console => final(self).sink is Console,
                }
            },
    {
        let ghost o = *old(self);
        let ghost bt = o.source->Redirected_0.text;
        let ghost text = bt@;
        let ghost start = o.source_pos();
        let ghost unit = o.displayed() + confirm_question();
        loop
            invariant_except_break
                self.source matches Source::Redirected(cb) && cb.text == bt && confirm_exit(
                    text,
                    cb.pos as int,
                ) == confirm_exit(text, start),
                match o.sink {
                    Sink::Redirected(ob) => self.sink matches Sink::Redirected(nsb) && nsb.text@
                        + confirm_transcript(text, self.source_pos(), unit) == ob.text@
                        + confirm_transcript(text, start, unit),
                    Sink::Console => self.sink is Console,
                },
            invariant
                self.wf(),
                self.same_config(o),
                text == bt@,
                unit == o.displayed() + confirm_question(),
                confirm_exit(text, start) is Some,
            ensures
                self.wf(),
                self.same_config(o),
                self.source matches Source::Redirected(nb) && nb.text == bt && confirm_exit(
                    text,
                    start,
                ) == Some(nb.pos as int),
                match o.sink {
                    Sink::Redirected(ob) => self.sink matches Sink::Redirected(nsb)
                        && nsb.text@ == ob.text@ + confirm_transcript(text, start, unit),
                    Sink::Console => self.sink is Console,
                },
            decreases text.len() - self.source_pos(),
        {
            let ghost head = *self;
            let ghost pos = self.source_pos();
            proof {
                // A position with a confirming line ahead is inside the text.
                assert(pos <= text.len());
                if pos == text.len() {
                    assert(confirm_exit(text, pos) is None);
                    assert(false);
                }
                lemma_line_end_bounds(text, pos);
            }
            self.print_message(fg, bg);
            self.print_confirm(fg, bg);
            let r = self.read();
            proof {
                if o.sink is Redirected {
                    let ob = head.sink->Redirected_0;
                    let nsb = self.sink->Redirected_0;
                    assert(nsb.text@ == ob.text@ + head.displayed() + confirm_question());
                    assert(head.displayed() == o.displayed());
                    assert((ob.text@ + o.displayed()) + confirm_question() =~= ob.text@ + (
                    o.displayed() + confirm_question()));
                    assert(nsb.text@ == ob.text@ + unit);
                }
            }
            match r {
                Ok(input) => {
                    if is_confirmation(&input) {
                        proof {
                            assert(is_yes(line_at(text, pos)));
                            assert(confirm_exit(text, pos) == Some(line_end(text, pos)));
                            assert(confirm_transcript(text, pos, unit) == unit);
                            if o.sink is Redirected {
                                let ob0 = o.sink->Redirected_0;
                                let hb = head.sink->Redirected_0;
                                let nsb = self.sink->Redirected_0;
                                assert(hb.text@ + confirm_transcript(text, pos, unit)
                                    == ob0.text@ + confirm_transcript(text, start, unit));
                                assert(nsb.text@ == ob0.text@ + confirm_transcript(
                                    text,
                                    start,
                                    unit,
                                ));
                            }
                        }
                        break;
                    }
                },
                Err(_) => {},
            }
            proof {
                assert(!is_yes(line_at(text, pos)));
                assert(confirm_exit(text, pos) == confirm_exit(text, line_end(text, pos)));
                assert(confirm_transcript(text, pos, unit) == unit + confirm_transcript(
                    text,
                    line_end(text, pos),
                    unit,
                ));
                if o.sink is Redirected {
                    let ob0 = o.sink->Redirected_0;
                    let hb = head.sink->Redirected_0;
                    let nsb = self.sink->Redirected_0;
                    assert(hb.text@ + (unit + confirm_transcript(text, line_end(text, pos), unit))
                        =~= (hb.text@ + unit) + confirm_transcript(text, line_end(text, pos), unit));
                    assert(nsb.text@ + confirm_transcript(text, self.source_pos(), unit)
                        == ob0.text@ + confirm_transcript(text, start, unit));
                }
            }
        }
    }

    /// The configured foreground colour, resolved to a concrete one.
    fn get_fg_colour(&self) -> (r: PaintColour)
        ensures
            r == resolve_fg(self.fg_colour),
    {
        match self.fg_colour {
            Some(Colour::Red) => PaintColour::Red,
            Some(Colour::Blue) => PaintColour::Blue,
            Some(Colour::Green) => PaintColour::Green,
            None => PaintColour::White,
        }
    }

    /// The configured background colour, resolved to a concrete one.
    fn get_bg_colour(&self) -> (r: PaintColour)
        ensures
            r == resolve_bg(self.bg_colour),
    {
        match self.bg_colour {
            Some(Colour::Red) => PaintColour::Red,
            Some(Colour::Blue) => PaintColour::Blue,
            Some(Colour::Green) => PaintColour::Green,
            None => PaintColour::Black,
        }
    }

    /// Runs the confirmation loop when confirmation is configured, else
    /// prints the message once.
    fn check_confirm(&mut self, fg: PaintColour, bg: PaintColour)
        requires
            old(self).wf(),
            old(self).confirm ==> (old(self).source matches Source::Redirected(b) && confirm_exit(
                b.text@,
                b.pos as int,
            ) is Some),
        ensures
            final(self).same_config(*old(self)),
            final(self).wf(),
            final(self).io_step(*old(self), old(self).transcript(), old(self).answer_pos()),
    {
        let ghost o = *old(self);
        if self.confirm {
            self.loop_confirm(fg, bg);
            proof {
                let b = o.source->Redirected_0;
                let nb = self.source->Redirected_0;
                assert(confirm_exit(b.text@, b.pos as int) == Some(nb.pos as int));
                assert(o.answer_pos() == nb.pos as int);
            }
        } else {
            self.print_message(fg, bg);
        }
    }

    /// Resolves the colours and prints the message (with the confirmation
    /// loop when configured) in them.
    fn check_colour(&mut self)
        requires
            old(self).wf(),
            old(self).confirm ==> (old(self).source matches Source::Redirected(b) && confirm_exit(
                b.text@,
                b.pos as int,
            ) is Some),
        ensures
            final(self).same_config(*old(self)),
            final(self).wf(),
            final(self).io_step(*old(self), old(self).transcript(), old(self).answer_pos()),
    {
        let fg = self.get_fg_colour();
        let bg = self.get_bg_colour();
        self.check_confirm(fg, bg);
    }

    /// Prints the message (and confirmation loop), then reads the answer line
    /// with terminal echo suppressed; the line ending is stripped from what
    /// was typed.
    fn read_no_echo(&mut self) -> (r: Result<Answer, AskError>)
        requires
            old(self).wf(),
            old(self).confirm ==> (old(self).source matches Source::Redirected(b) && confirm_exit(
                b.text@,
                b.pos as int,
            ) is Some),
        ensures
            final(self).same_config(*old(self)),
            final(self).wf(),
            final(self).io_step(*old(self), old(self).transcript(), old(self).end_pos()),
            old(self).source is Redirected ==> (r matches Ok(a) ==> a@ == strip_eol(
                line_at(old(self).source_text(), old(self).answer_pos()),
            )),
            r matches Err(e) ==> e == AskError::ReadMasked,
    {
        self.check_colour();
        match &mut self.source {
            Source::Redirected(buf) => {
                let n = buf.text.as_str().unicode_len();
                let rest = buf.text.as_str().substring_char(buf.pos, n);
                let r = read_password_redirected(rest);
                proof {
                    lemma_line_shift(buf.text@, buf.pos as int);
                }
                let _consumed = buf.read_line();
                r
            },
            Source::Terminal => read_password_terminal(),
        }
    }

    /// Prints the message (and confirmation loop) and reads the answer line,
    /// masked when echo suppression is configured.
    fn check_no_echo(&mut self) -> (r: Result<Answer, AskError>)
        requires
            old(self).wf(),
            old(self).confirm ==> (old(self).source matches Source::Redirected(b) && confirm_exit(
                b.text@,
                b.pos as int,
            ) is Some),
        ensures
            final(self).same_config(*old(self)),
            final(self).wf(),
            final(self).io_step(*old(self), old(self).transcript(), old(self).end_pos()),
            old(self).source is Redirected ==> {
                &&& (r matches Ok(a) ==> a@ == old(self).raw_answer())
                &&& (!old(self).no_echo ==> r is Ok)
            },
            r matches Err(e) ==> if old(self).no_echo {
                e == AskError::ReadMasked
            } else {
                e == AskError::ReadStdin
            },
    {
        if self.no_echo {
            self.read_no_echo()
        } else {
            self.check_colour();
            self.read()
        }
    }

    /// Applies the configured predicate, if any, to a clone of the answer:
    /// the answer passes through unchanged when it is accepted, and the whole
    /// operation fails with the validation error when it is rejected.
    fn check_validation(&self, answer: Answer) -> (r: Result<Answer, AskError>)
        requires
            self.wf(),
        ensures
            match self.validate {
                None => r == Ok::<Answer, AskError>(answer),
                Some(f) => match r {
                    Ok(a) => a == answer && call_ensures(f, (answer,), true),
                    Err(e) => e == AskError::Validation && call_ensures(f, (answer,), false),
                },
            },
    {
        match &self.validate {
            Some(f) => {
                let passed = (f)(answer.clone());
                if passed {
                    Ok(answer)
                } else {
                    Err(AskError::Validation)
                }
            },
            None => Ok(answer),
        }
    }

    /// Replaces the validated answer with an empty string when the answer is
    /// configured to be discarded.
    fn discard_answer(&self, answer: Answer) -> (r: Answer)
        ensures
            self.no_answer ==> r@ == Seq::<char>::empty(),
            !self.no_answer ==> r == answer,
    {
        if self.no_answer {
            String::new()
        } else {
            answer
        }
    }

    /// Runs the evaluation pipeline: print the message (with the confirmation
    /// loop when configured), read one line (masked when echo is suppressed),
    /// validate it, and discard it when so configured.
    ///
    /// When confirmation is configured the input must be redirected and must
    /// contain a confirming line, since the loop re-reads until one arrives.
    pub fn ask(&mut self) -> (r: Result<Answer, AskError>)
        requires
            old(self).wf(),
            old(self).confirm ==> (old(self).source matches Source::Redirected(b) && confirm_exit(
                b.text@,
                b.pos as int,
            ) is Some),
        ensures
            final(self).same_config(*old(self)),
            final(self).wf(),
            final(self).io_step(*old(self), old(self).transcript(), old(self).end_pos()),
            old(self).source is Redirected ==> {
                &&& (r matches Ok(a) ==> a@ == if old(self).no_answer {
                    Seq::<char>::empty()
                } else {
                    old(self).raw_answer()
                })
                &&& (r matches Ok(a) ==> (old(self).validate matches Some(f)
                    ==> exists|s: Answer| s@ == old(self).raw_answer() && #[trigger] call_ensures(
                    f,
                    (s,),
                    true,
                )))
                &&& (!old(self).no_echo && old(self).validate is None ==> r is Ok)
                &&& (r matches Err(e) ==> {
                    ||| (e == AskError::Validation && (old(self).validate matches Some(f)
                        && exists|s: Answer| s@ == old(self).raw_answer() && #[trigger] call_ensures(
                        f,
                        (s,),
                        false,
                    )))
                    ||| (e == AskError::ReadMasked && old(self).no_echo)
                })
            },
            old(self).source is Terminal ==> {
                &&& (r matches Ok(a) ==> (old(self).no_answer ==> a@ == Seq::<char>::empty()))
                &&& (r matches Ok(a) ==> (old(self).validate matches Some(f)
                    ==> exists|s: Answer| #[trigger] call_ensures(f, (s,), true) && a@ == if old(
                    self,
                ).no_answer {
                    Seq::<char>::empty()
                } else {
                    s@
                }))
                &&& (r matches Err(e) ==> {
                    ||| (e == AskError::ReadStdin && !old(self).no_echo)
                    ||| (e == AskError::ReadMasked && old(self).no_echo)
                    ||| (e == AskError::Validation && old(self).validate is Some)
                })
            },
    {
        let answer = match self.check_no_echo() {
            Ok(a) => a,
            Err(e) => {
                return Err(e);
            },
        };
        let ghost captured = answer;
        let validated_answer = match self.check_validation(answer) {
            Ok(a) => a,
            Err(e) => {
                return Err(e);
            },
        };
        let result = self.discard_answer(validated_answer);
        proof {
            match old(self).validate {
                Some(f) => {
                    assert(call_ensures(f, (captured,), true));
                    assert(result@ == if old(self).no_answer {
                        Seq::<char>::empty()
                    } else {
                        captured@
                    });
                    assert(exists|s: Answer|
                        #[trigger] call_ensures(f, (s,), true) && result@ == if old(
                            self,
                        ).no_answer {
                            Seq::<char>::empty()
                        } else {
                            s@
                        });
                },
                None => {},
            }
        }
        Ok(result)
    }

    /// Suppresses terminal echo for the read: the answer is captured through
    /// the masked-input path.
    pub fn no_echo(self) -> (r: Self)
        ensures
            r == self.with_no_echo(),
    {
        StateBuilder { no_echo: true, ..self }
    }

    /// Discards the captured answer: `ask` returns an empty string, though
    /// the read and the validation still run.
    pub fn no_answer(self) -> (r: Self)
        ensures
            r == self.with_no_answer(),
    {
        StateBuilder { no_answer: true, ..self }
    }

    /// Requires a confirming `y`/`Y` line before the answer is read.
    pub fn confirm(self) -> (r: Self)
        ensures
            r == self.with_confirm(),
    {
        StateBuilder { confirm: true, ..self }
    }

    /// Records a default answer string.
    pub fn default(self, msg: String) -> (r: Self)
        ensures
            r == self.with_default(msg),
    {
        StateBuilder { default: Some(msg), ..self }
    }

    /// Appends `prompt` to the displayed message; the returned answer is not
    /// affected.
    pub fn prompt(self, prompt: char) -> (r: Self)
        ensures
            r == self.with_prompt(prompt),
    {
        StateBuilder { prompt: Some(prompt), ..self }
    }

    /// Selects the background colour of the rendered message.
    pub fn bg_colour(self, colour: Colour) -> (r: Self)
        ensures
            r == self.with_bg_colour(colour),
    {
        StateBuilder { bg_colour: Some(colour), ..self }
    }

    /// Selects the foreground colour of the rendered message.
    pub fn fg_colour(self, colour: Colour) -> (r: Self)
        ensures
            r == self.with_fg_colour(colour),
    {
        StateBuilder { fg_colour: Some(colour), ..self }
    }

    /// Configures a validation predicate: `ask` fails with the validation
    /// error whenever the predicate rejects the captured answer.
    pub fn validate(self, f: F) -> (r: Self)
        requires
            forall|a: Answer| call_requires(f, (a,)),
        ensures
            r == self.with_validate(f),
            self.wf() ==> r.wf(),
    {
        StateBuilder { validate: Some(f), ..self }
    }

    /// Reads input from an in-memory buffer instead of standard input.
    pub fn redirect_in(self, buffer: InBuffer) -> (r: Self)
        ensures
            r == self.with_redirect_in(buffer),
    {
        StateBuilder { source: Source::Redirected(buffer), ..self }
    }

    /// Writes rendered text to an in-memory sink instead of standard output.
    pub fn redirect_out(self, sink: OutBuffer) -> (r: Self)
        ensures
            r == self.with_redirect_out(sink),
    {
        StateBuilder { sink: Sink::Redirected(sink), ..self }
    }

    /// The configuration after `no_echo`.
    pub open spec fn with_no_echo(self) -> Self {
        StateBuilder { no_echo: true, ..self }
    }

    /// The configuration after `no_answer`.
    pub open spec fn with_no_answer(self) -> Self {
        StateBuilder { no_answer: true, ..self }
    }

    /// The configuration after `confirm`.
    pub open spec fn with_confirm(self) -> Self {
        StateBuilder { confirm: true, ..self }
    }

    /// The configuration after `default`.
    pub open spec fn with_default(self, msg: String) -> Self {
        StateBuilder { default: Some(msg), ..self }
    }

    /// The configuration after `prompt`.
    pub open spec fn with_prompt(self, prompt: char) -> Self {
        StateBuilder { prompt: Some(prompt), ..self }
    }

    /// The configuration after `bg_colour`.
    pub open spec fn with_bg_colour(self, colour: Colour) -> Self {
        StateBuilder { bg_colour: Some(colour), ..self }
    }

    /// The configuration after `fg_colour`.
    pub open spec fn with_fg_colour(self, colour: Colour) -> Self {
        StateBuilder { fg_colour: Some(colour), ..self }
    }

    /// The configuration after `validate`.
    pub open spec fn with_validate(self, f: F) -> Self {
        StateBuilder { validate: Some(f), ..self }
    }

    /// The configuration after `redirect_in`.
    pub open spec fn with_redirect_in(self, buffer: InBuffer) -> Self {
        StateBuilder { source: Source::Redirected(buffer), ..self }
    }

    /// The configuration after `redirect_out`.
    pub open spec fn with_redirect_out(self, sink: OutBuffer) -> Self {
        StateBuilder { sink: Sink::Redirected(sink), ..self }
    }
}

/// A fresh configuration for the given message: no flags set, no colours, no
/// predicate, reading from standard input and printing to standard output.
pub fn input<F: Fn(Answer) -> bool>(msg: String) -> (r: StateBuilder<F>)
    ensures
        r.msg == msg,
        !r.no_answer,
        !r.no_echo,
        !r.confirm,
        r.default is None,
        r.prompt is None,
        r.bg_colour is None,
        r.fg_colour is None,
        r.validate is None,
        r.source is Terminal,
        r.sink is Console,
        r.wf(),
{
    StateBuilder {
        msg,
        no_answer: false,
        no_echo: false,
        confirm: false,
        default: None,
        prompt: None,
        bg_colour: None,
        fg_colour: None,
        validate: None,
        source: Source::Terminal,
        sink: Sink::Console,
    }
}

} // verus!
