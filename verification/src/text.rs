//! Small operations on strings that the rest of the library shares.

use vstd::prelude::*;
use vstd::utf8::{encode_scalar, encode_utf8};

verus! {

/// The characters of each string of `strings`.
pub open spec fn texts(strings: Seq<String>) -> Seq<Seq<char>> {
    Seq::new(strings.len(), |i: int| strings[i]@)
}

/// The number of bytes that `c` takes in UTF-8.
pub open spec fn utf8_width(c: char) -> nat {
    encode_scalar(c as u32).len()
}

/// The longest start of `text` that takes at most `limit` bytes in UTF-8.
pub open spec fn truncated(text: Seq<char>, limit: int) -> Seq<char>
    decreases text.len(),
{
    if text.len() == 0 || utf8_width(text[0]) > limit {
        Seq::empty()
    } else {
        seq![text[0]] + truncated(text.drop_first(), limit - utf8_width(text[0]))
    }
}

/// The decimal digit for a number below ten.
pub open spec fn digit(n: nat) -> char {
    if n == 0 {
        '0'
    } else if n == 1 {
        '1'
    } else if n == 2 {
        '2'
    } else if n == 3 {
        '3'
    } else if n == 4 {
        '4'
    } else if n == 5 {
        '5'
    } else if n == 6 {
        '6'
    } else if n == 7 {
        '7'
    } else if n == 8 {
        '8'
    } else {
        '9'
    }
}

/// `n` written in decimal, without leading zeros.
pub open spec fn decimal(n: nat) -> Seq<char>
    decreases n,
{
    if n < 10 {
        seq![digit(n)]
    } else {
        decimal(n / 10).push(digit(n % 10))
    }
}

/// `count` spaces.
pub open spec fn spaces(count: nat) -> Seq<char> {
    Seq::new(count, |i: int| ' ')
}

/// Whether `c` is a control character: one below the space, the delete
/// character, or one of the thirty-two that follow it.
pub open spec fn control(c: char) -> bool {
    c as u32 <= 0x1f || 0x7f <= c as u32 <= 0x9f
}

/// Whether `c` is a control character.
pub fn is_control(c: char) -> (is: bool)
    ensures
        is == control(c),
{
    let code = c as u32;
    code <= 0x1f || (0x7f <= code && code <= 0x9f)
}

/// The number of bytes that `text` takes in UTF-8.
pub fn byte_len(text: &str) -> (len: usize)
    ensures
        len == encode_utf8(text@).len(),
{
    text.as_bytes().len()
}

/// The UTF-8 encoding of two texts in a row is their encodings in a row.
pub(crate) proof fn lemma_encode_concat(left: Seq<char>, right: Seq<char>)
    ensures
        encode_utf8(left + right) == encode_utf8(left) + encode_utf8(right),
    decreases left.len(),
{
    if left.len() == 0 {
        assert(left + right =~= right);
        assert(encode_utf8(left) + encode_utf8(right) =~= encode_utf8(right));
    } else {
        assert((left + right).drop_first() =~= left.drop_first() + right);
        lemma_encode_concat(left.drop_first(), right);
        assert(encode_utf8(left + right) =~= encode_utf8(left) + encode_utf8(right));
    }
}

fn char_width(c: char) -> (width: usize)
    ensures
        width == utf8_width(c),
        1 <= width <= 4,
{
    let code = c as u32;
    if code < 0x80 {
        1
    } else if code < 0x800 {
        2
    } else if code < 0x10000 {
        3
    } else {
        4
    }
}

/// The longest start of `text` that takes at most `limit` bytes in UTF-8.
pub fn truncate(text: &str, limit: usize) -> (short: String)
    ensures
        short@ == truncated(text@, limit as int),
{
    let mut short = String::new();
    let mut room = limit;
    let mut full = false;
    proof {
        assert(text@.skip(0) =~= text@);
    }
    for c in iter: text.chars()
        invariant
            iter.seq() == text@,
            truncated(text@, limit as int) == short@ + if full {
                Seq::<char>::empty()
            } else {
                truncated(text@.skip(iter.index() as int), room as int)
            },
    {
        if !full {
            let ghost rest = text@.skip(iter.index() as int);
            assert(rest[0] == c);
            assert(rest.drop_first() =~= text@.skip(iter.index() + 1));
            let width = char_width(c);
            if width <= room {
                assert(short@ + (seq![c] + truncated(rest.drop_first(), room - width))
                    =~= short@.push(c) + truncated(rest.drop_first(), room - width));
                push_char(&mut short, c);
                room = room - width;
            } else {
                full = true;
            }
        }
    }
    proof {
        assert(text@.skip(text@.len() as int) =~= Seq::<char>::empty());
        assert(short@ + Seq::<char>::empty() =~= short@);
    }
    short
}

fn digit_char(n: usize) -> (c: char)
    requires
        n < 10,
    ensures
        c == digit(n as nat),
{
    if n == 0 {
        '0'
    } else if n == 1 {
        '1'
    } else if n == 2 {
        '2'
    } else if n == 3 {
        '3'
    } else if n == 4 {
        '4'
    } else if n == 5 {
        '5'
    } else if n == 6 {
        '6'
    } else if n == 7 {
        '7'
    } else if n == 8 {
        '8'
    } else {
        '9'
    }
}

/// Writes `n` in decimal at the end of `text`.
pub fn push_decimal(text: &mut String, n: usize)
    ensures
        final(text)@ == old(text)@ + decimal(n as nat),
    decreases n,
{
    if n >= 10 {
        push_decimal(text, n / 10);
    }
    push_char(text, digit_char(n % 10));
    assert(text@ =~= old(text)@ + decimal(n as nat));
}

/// Writes `count` spaces at the end of `text`.
pub fn push_spaces(text: &mut String, count: usize)
    ensures
        final(text)@ == old(text)@ + spaces(count as nat),
{
    let mut done: usize = 0;
    assert(text@ =~= old(text)@ + spaces(0));
    while done < count
        invariant
            done <= count,
            text@ == old(text)@ + spaces(done as nat),
        decreases count - done,
    {
        push_char(text, ' ');
        done = done + 1;
        assert(text@ =~= old(text)@ + spaces(done as nat));
    }
}

/// Calls `String::push`.
///
/// Unproved: that the string afterwards is the string before with `c` at its end.
#[verifier::external_body]
pub(crate) fn push_char(text: &mut String, c: char)
    ensures
        final(text)@ == old(text)@.push(c),
{
    text.push(c);
}

/// Calls `String::pop`.
///
/// Unproved: that it takes the last character off the string and returns it,
/// and leaves an empty string as it is.
#[verifier::external_body]
pub(crate) fn pop_char(text: &mut String) -> (last: Option<char>)
    ensures
        old(text)@.len() > 0 ==> last == Some(old(text)@.last())
            && final(text)@ == old(text)@.drop_last(),
        old(text)@.len() == 0 ==> last.is_none() && final(text)@ == old(text)@,
{
    text.pop()
}

/// Whether two strings hold the same characters.
pub(crate) fn same_text(left: &str, right: &str) -> (same: bool)
    ensures
        same == (left@ == right@),
{
    left.to_owned() == right.to_owned()
}

} // verus!
