use vstd::prelude::*;

use crate::commit::text::{push_char, trim_seq, trim_text};

verus! {

/// The pieces of `s` between `|` characters, in order; `s` with no `|` is
/// one piece.
pub open spec fn split_bars(s: Seq<char>) -> Seq<Seq<char>>
    decreases s.len(),
{
    if s.len() == 0 {
        seq![Seq::empty()]
    } else {
        let p = split_bars(s.drop_last());
        if s.last() == '|' {
            p.push(Seq::empty())
        } else {
            p.update(p.len() - 1, p.last().push(s.last()))
        }
    }
}

/// The pieces, each trimmed, with the empty ones left out.
pub open spec fn kept_lines(pieces: Seq<Seq<char>>) -> Seq<Seq<char>> {
    pieces.map_values(|p: Seq<char>| trim_seq(p)).filter(|t: Seq<char>| t.len() > 0)
}

/// The lines joined with a newline between each two.
pub open spec fn join_lines(lines: Seq<Seq<char>>) -> Seq<char>
    decreases lines.len(),
{
    if lines.len() == 0 {
        Seq::empty()
    } else if lines.len() == 1 {
        lines[0]
    } else {
        join_lines(lines.drop_last()) + seq!['\n'] + lines.last()
    }
}

/// The text of a field that is entered on one line, with `|` where a new
/// line begins.
pub open spec fn multiline_of(s: Seq<char>) -> Seq<char> {
    join_lines(kept_lines(split_bars(s)))
}

proof fn lemma_kept_lines_push(pieces: Seq<Seq<char>>, p: Seq<char>)
    ensures
        kept_lines(pieces.push(p)) == if trim_seq(p).len() > 0 {
            kept_lines(pieces).push(trim_seq(p))
        } else {
            kept_lines(pieces)
        },
{
    let f = |q: Seq<char>| trim_seq(q);
    let keep = |t: Seq<char>| t.len() > 0;
    assert(pieces.push(p).map_values(f) == pieces.map_values(f).push(trim_seq(p)));
    pieces.map_values(f).lemma_filter_push(trim_seq(p), keep);
}

/// Adds a piece to the lines collected so far, trimmed, unless nothing is
/// left of it after trimming.
fn push_line(out: &mut String, started: &mut bool, piece: &str, Ghost(lines): Ghost<Seq<Seq<char>>>)
    requires
        old(out)@ == join_lines(lines),
        *old(started) == (lines.len() > 0),
    ensures
        ({
            let next = if trim_seq(piece@).len() > 0 {
                lines.push(trim_seq(piece@))
            } else {
                lines
            };
            final(out)@ == join_lines(next) && *final(started) == (next.len() > 0)
        }),
{
    let t = trim_text(piece);
    if t.unicode_len() > 0 {
        let ghost next = lines.push(t@);
        assert(next.drop_last() == lines);
        if *started {
            push_char(out, '\n');
        }
        out.append(t);
        *started = true;
    }
}

/// Turns a field entered on one line into its lines: the input is cut at
/// every `|`, each piece is trimmed, empty pieces are dropped, and what is
/// left is joined with newlines. An input with nothing but blanks and `|`
/// gives the empty text, which stands for an omitted field.
pub fn parse_multiline(input: &str) -> (r: String)
    ensures
        r@ == multiline_of(input@),
{
    let n = input.unicode_len();
    let mut out = String::new();
    let mut cur = String::new();
    let mut started = false;
    let ghost mut done: Seq<Seq<char>> = Seq::empty();
    let mut i: usize = 0;
    assert(input@.take(0) == Seq::<char>::empty());
    while i < n
        invariant
            n == input@.len(),
            i <= n,
            split_bars(input@.take(i as int)) == done.push(cur@),
            out@ == join_lines(kept_lines(done)),
            started == (kept_lines(done).len() > 0),
        decreases n - i,
    {
        let c = input.get_char(i);
        assert(input@.take(i + 1).drop_last() == input@.take(i as int));
        if c == '|' {
            proof {
                lemma_kept_lines_push(done, cur@);
            }
            push_line(&mut out, &mut started, cur.as_str(), Ghost(kept_lines(done)));
            proof {
                done = done.push(cur@);
            }
            cur = String::new();
        } else {
            let ghost before = cur@;
            push_char(&mut cur, c);
            assert(done.push(before).update(done.len() as int, before.push(c)) == done.push(cur@));
        }
        i = i + 1;
    }
    assert(input@.take(n as int) == input@);
    proof {
        lemma_kept_lines_push(done, cur@);
    }
    push_line(&mut out, &mut started, cur.as_str(), Ghost(kept_lines(done)));
    out
}

/// The scope of a message as it stands after the type: the text trimmed and
/// put in parentheses.
pub open spec fn scope_of(text: Seq<char>) -> Seq<char> {
    seq!['('] + trim_seq(text) + seq![')']
}

/// Formats a scope entered by the user.
pub fn custom_scope(text: &str) -> (r: String)
    ensures
        r@ == scope_of(text@),
{
    let mut r = String::new();
    push_char(&mut r, '(');
    r.append(trim_text(text));
    push_char(&mut r, ')');
    r
}

/// What a required field does with a submitted line.
#[derive(Clone, Debug, PartialEq, Eq)]
pub enum RequiredOutcome {
    /// The line, trimmed, is the field's value.
    Accepted(String),
    /// The line was blank: show the error and ask again.
    ShowError,
    /// The line was blank and the error is already shown: ask again.
    Retry,
}

/// A field that must not be left blank. The error for a blank line is shown
/// once only: later blank lines are asked again without it.
pub struct RequiredField {
    pub error_shown: bool,
}

impl RequiredField {
    pub fn new() -> (r: RequiredField)
        ensures
            !r.error_shown,
    {
        RequiredField { error_shown: false }
    }

    /// Takes one submitted line.
    pub fn submit(&mut self, line: &str) -> (r: RequiredOutcome)
        ensures
            trim_seq(line@).len() > 0 ==> r is Accepted && r->Accepted_0@ == trim_seq(line@)
                && final(self).error_shown == old(self).error_shown,
            trim_seq(line@).len() == 0 && !old(self).error_shown ==> r is ShowError,
            trim_seq(line@).len() == 0 && old(self).error_shown ==> r is Retry,
            trim_seq(line@).len() == 0 ==> final(self).error_shown,
    {
        let t = trim_text(line);
        if t.unicode_len() > 0 {
            RequiredOutcome::Accepted(String::from_str(t))
        } else if !self.error_shown {
            self.error_shown = true;
            RequiredOutcome::ShowError
        } else {
            RequiredOutcome::Retry
        }
    }
}

} // verus!
