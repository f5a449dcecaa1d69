//! Text as lines: how a text is cut into lines when it is read, and how
//! lines are put together when they are stored.

use crate::text::{push_char, texts};
use vstd::prelude::*;

verus! {

/// The index of the first newline of `text`; its length where it has none.
pub open spec fn line_end(text: Seq<char>) -> nat
    decreases text.len(),
{
    if text.len() == 0 || text[0] == '\n' {
        0
    } else {
        1 + line_end(text.drop_first())
    }
}

/// `line` without the carriage return at its end, if it has one there.
pub open spec fn without_carriage_return(line: Seq<char>) -> Seq<char> {
    if line.len() > 0 && line.last() == '\r' {
        line.drop_last()
    } else {
        line
    }
}

/// The lines of `text`. A line ends at a newline, or at a carriage return
/// followed by a newline, and does not hold either. What follows the last
/// newline is a line too, unless it is empty, and it keeps a carriage return
/// at its end.
pub open spec fn text_lines(text: Seq<char>) -> Seq<Seq<char>>
    decreases text.len(),
{
    if text.len() == 0 {
        Seq::empty()
    } else if line_end(text) >= text.len() {
        seq![text]
    } else {
        seq![without_carriage_return(text.take(line_end(text) as int))] + text_lines(
            text.skip(line_end(text) as int + 1),
        )
    }
}

/// Whether `text` holds no newline.
pub open spec fn one_line(text: Seq<char>) -> bool {
    forall|i: int| 0 <= i < text.len() ==> text[i] != '\n'
}

/// The text that holds `lines` in order, each followed by a newline.
pub open spec fn joined(lines: Seq<Seq<char>>) -> Seq<char>
    decreases lines.len(),
{
    if lines.len() == 0 {
        Seq::empty()
    } else {
        lines.first() + seq!['\n'] + joined(lines.drop_first())
    }
}

/// Lines that are joined and cut again are the lines that they were, where
/// none of them holds a newline or ends in a carriage return.
pub proof fn joined_lines_cut_again(lines: Seq<Seq<char>>)
    requires
        forall|i: int|
            0 <= i < lines.len() ==> one_line(#[trigger] lines[i]) && without_carriage_return(
                lines[i],
            ) == lines[i],
    ensures
        text_lines(joined(lines)) == lines,
    decreases lines.len(),
{
    if lines.len() > 0 {
        joined_lines_cut_again(lines.drop_first());
        lemma_lines_at_newline(lines.first(), joined(lines.drop_first()));
        assert(seq![lines.first()] + lines.drop_first() =~= lines);
    }
}

/// Joining one more line puts it, and its newline, at the end.
pub(crate) proof fn lemma_joined_push(lines: Seq<Seq<char>>, line: Seq<char>)
    ensures
        joined(lines.push(line)) == joined(lines) + line + seq!['\n'],
    decreases lines.len(),
{
    if lines.len() == 0 {
        assert(lines.push(line).drop_first() =~= Seq::<Seq<char>>::empty());
        assert(joined(Seq::<Seq<char>>::empty()) =~= Seq::<char>::empty());
        assert(joined(lines.push(line)) =~= joined(lines) + line + seq!['\n']);
    } else {
        assert(lines.push(line).drop_first() =~= lines.drop_first().push(line));
        lemma_joined_push(lines.drop_first(), line);
        assert(joined(lines.push(line)) =~= joined(lines) + line + seq!['\n']);
    }
}

proof fn lemma_line_end_after(start: Seq<char>, rest: Seq<char>)
    requires
        one_line(start),
    ensures
        line_end(start + rest) == start.len() + line_end(rest),
    decreases start.len(),
{
    if start.len() == 0 {
        assert(start + rest =~= rest);
    } else {
        assert((start + rest)[0] == start[0]);
        assert((start + rest).drop_first() =~= start.drop_first() + rest);
        lemma_line_end_after(start.drop_first(), rest);
    }
}

proof fn lemma_lines_at_newline(start: Seq<char>, rest: Seq<char>)
    requires
        one_line(start),
    ensures
        text_lines(start + seq!['\n'] + rest) == seq![without_carriage_return(start)] + text_lines(
            rest,
        ),
{
    let text = start + seq!['\n'] + rest;
    assert(text =~= start + (seq!['\n'] + rest));
    lemma_line_end_after(start, seq!['\n'] + rest);
    assert(text.take(start.len() as int) =~= start);
    assert(text.skip(start.len() as int + 1) =~= rest);
}

proof fn lemma_lines_at_end(start: Seq<char>)
    requires
        one_line(start),
    ensures
        text_lines(start) == if start.len() == 0 {
            Seq::<Seq<char>>::empty()
        } else {
            seq![start]
        },
{
    assert(start + Seq::<char>::empty() =~= start);
    lemma_line_end_after(start, Seq::<char>::empty());
}

/// Cuts `contents` into its lines.
pub fn lines(contents: &str) -> (lines: Vec<String>)
    ensures
        texts(lines@) == text_lines(contents@),
{
    let mut lines: Vec<String> = Vec::new();
    let mut current = String::new();
    // A carriage return has been read and is held back until the next
    // character shows whether it belongs to a line ending.
    let mut held_back = false;
    let ghost mut start: Seq<char> = Seq::empty();
    proof {
        assert(texts(lines@) =~= Seq::<Seq<char>>::empty());
        assert(start + contents@.skip(0) =~= contents@);
    }
    for c in iter: contents.chars()
        invariant
            iter.seq() == contents@,
            one_line(start),
            start == if held_back {
                current@.push('\r')
            } else {
                current@
            },
            !held_back && current@.len() > 0 ==> current@.last() != '\r',
            text_lines(contents@) == texts(lines@) + text_lines(
                start + contents@.skip(iter.index() as int),
            ),
    {
        let ghost rest = contents@.skip(iter.index() + 1);
        let ghost done = texts(lines@);
        assert(contents@.skip(iter.index() as int) =~= seq![c] + rest);
        if c == '\n' {
            proof {
                assert(start + (seq![c] + rest) =~= start + seq!['\n'] + rest);
                lemma_lines_at_newline(start, rest);
                assert(without_carriage_return(start) =~= current@);
            }
            lines.push(current);
            current = String::new();
            held_back = false;
            proof {
                assert(texts(lines@) =~= done + seq![without_carriage_return(start)]);
                start = Seq::empty();
                assert(start + rest =~= rest);
            }
        } else {
            if held_back {
                push_char(&mut current, '\r');
            }
            if c == '\r' {
                held_back = true;
            } else {
                held_back = false;
                push_char(&mut current, c);
            }
            proof {
                assert(start + (seq![c] + rest) =~= start.push(c) + rest);
                start = start.push(c);
            }
        }
    }
    if held_back {
        push_char(&mut current, '\r');
    }
    proof {
        assert(contents@.skip(contents@.len() as int) =~= Seq::<char>::empty());
        assert(start + Seq::<char>::empty() =~= start);
        lemma_lines_at_end(start);
    }
    if !current.as_str().is_empty() {
        let ghost done = texts(lines@);
        lines.push(current);
        assert(texts(lines@) =~= done + seq![start]);
    } else {
        assert(texts(lines@) + Seq::<Seq<char>>::empty() =~= texts(lines@));
    }
    lines
}

} // verus!
