//! Text building blocks: decimal rendering and line splitting.

use vstd::prelude::*;
use vstd::string::StringExecFns;
use vstd::utf8::{decode_utf8, valid_utf8};

verus! {

/// The error of `core::str::from_utf8`, carried through unopened.
#[verifier::external_type_specification]
#[verifier::external_body]
pub struct ExUtf8Error(core::str::Utf8Error);

/// `core::str::from_utf8` succeeds exactly on well-formed UTF-8, and the
/// string slice it then returns is the decoding of those bytes.
pub assume_specification<'a>[ core::str::from_utf8 ](bytes: &'a [u8]) -> (r: Result<
    &'a str,
    core::str::Utf8Error,
>)
    ensures
        r is Ok <==> valid_utf8(bytes@),
        r matches Ok(text) ==> text@ == decode_utf8(bytes@),
;

/// `String::push` appends one character to the end of the string.
pub assume_specification[ String::push ](s: &mut String, c: char)
    ensures
        final(s)@ == old(s)@.push(c),
;

/// The character that stands for the decimal digit `d`.
pub open spec fn digit(d: nat) -> char {
    if d == 0 {
        '0'
    } else if d == 1 {
        '1'
    } else if d == 2 {
        '2'
    } else if d == 3 {
        '3'
    } else if d == 4 {
        '4'
    } else if d == 5 {
        '5'
    } else if d == 6 {
        '6'
    } else if d == 7 {
        '7'
    } else if d == 8 {
        '8'
    } else {
        '9'
    }
}

/// The decimal numeral of `n`: most significant digit first, no leading
/// zero except for zero itself.
pub open spec fn decimal(n: nat) -> Seq<char>
    decreases n,
{
    if n < 10 {
        seq![digit(n)]
    } else {
        decimal(n / 10).push(digit(n % 10))
    }
}

fn digit_char(d: u64) -> (c: char)
    requires
        d < 10,
    ensures
        c == digit(d as nat),
{
    if d == 0 {
        '0'
    } else if d == 1 {
        '1'
    } else if d == 2 {
        '2'
    } else if d == 3 {
        '3'
    } else if d == 4 {
        '4'
    } else if d == 5 {
        '5'
    } else if d == 6 {
        '6'
    } else if d == 7 {
        '7'
    } else if d == 8 {
        '8'
    } else {
        '9'
    }
}

/// Appends the decimal numeral of `n` to `out`.
pub fn push_decimal(out: &mut String, n: u64)
    ensures
        final(out)@ == old(out)@ + decimal(n as nat),
    decreases n,
{
    if n < 10 {
        out.push(digit_char(n));
    } else {
        push_decimal(out, n / 10);
        out.push(digit_char(n % 10));
    }
}

/// The decimal numeral of a signed number: a minus sign before the numeral
/// of the magnitude where the number is negative.
pub open spec fn signed_decimal(n: int) -> Seq<char> {
    if n < 0 {
        seq!['-'] + decimal((-n) as nat)
    } else {
        decimal(n as nat)
    }
}

/// Appends the decimal numeral of `n` to `out`.
pub fn push_signed_decimal(out: &mut String, n: i32)
    ensures
        final(out)@ == old(out)@ + signed_decimal(n as int),
{
    let wide: i64 = n as i64;
    if wide < 0 {
        out.push('-');
        push_decimal(out, (-wide) as u64);
        assert(out@ == old(out)@ + (seq!['-'] + decimal((-n) as nat)));
    } else {
        push_decimal(out, wide as u64);
    }
}

/// The text `head` followed by the text `tail`.
pub fn concat(head: &str, tail: &str) -> (out: String)
    ensures
        out@ == head@ + tail@,
{
    let mut out = head.to_owned();
    out.append(tail);
    out
}

/// The text that `bytes` encode, where they are well-formed UTF-8.
pub fn decode(bytes: &Vec<u8>) -> (out: Option<String>)
    ensures
        out is Some <==> valid_utf8(bytes@),
        out matches Some(text) ==> text@ == decode_utf8(bytes@),
{
    match core::str::from_utf8(bytes.as_slice()) {
        Ok(text) => Some(text.to_owned()),
        Err(_) => None,
    }
}

/// The pieces of `text` that its newline characters separate, in order.
/// A text with `n` newlines has `n + 1` pieces; a piece may be empty.
pub open spec fn lines(text: Seq<char>) -> Seq<Seq<char>>
    decreases text.len(),
{
    if text.len() == 0 {
        seq![Seq::empty()]
    } else {
        let before = lines(text.drop_last());
        if text.last() == '\n' {
            before.push(Seq::empty())
        } else {
            before.drop_last().push(before.last().push(text.last()))
        }
    }
}

/// Holds of a piece of text that has at least one character.
pub open spec fn is_nonempty() -> spec_fn(Seq<char>) -> bool {
    |piece: Seq<char>| piece.len() > 0
}

/// The non-empty lines of `text`, in order.
pub open spec fn nonempty_lines(text: Seq<char>) -> Seq<Seq<char>> {
    lines(text).filter(is_nonempty())
}

/// There is always at least one piece.
pub proof fn lemma_lines_nonvoid(text: Seq<char>)
    ensures
        lines(text).len() >= 1,
    decreases text.len(),
{
    if text.len() > 0 {
        lemma_lines_nonvoid(text.drop_last());
    }
}

/// The pieces put together again, with one newline between neighbours.
pub open spec fn joined(pieces: Seq<Seq<char>>) -> Seq<char>
    decreases pieces.len(),
{
    if pieces.len() == 0 {
        Seq::empty()
    } else if pieces.len() == 1 {
        pieces[0]
    } else {
        joined(pieces.drop_last()).push('\n') + pieces.last()
    }
}

/// Splitting loses nothing and cuts at every newline: no piece holds a
/// newline, and the pieces joined by newlines are the text again.
pub proof fn lemma_lines_partition(text: Seq<char>)
    ensures
        joined(lines(text)) == text,
        forall|i: int, j: int|
            0 <= i < lines(text).len() && 0 <= j < lines(text)[i].len() ==> lines(text)[i][j]
                != '\n',
    decreases text.len(),
{
    if text.len() > 0 {
        let before = lines(text.drop_last());
        lemma_lines_partition(text.drop_last());
        lemma_lines_nonvoid(text.drop_last());
        assert(text.drop_last().push(text.last()) == text);
        if text.last() == '\n' {
            let after = before.push(Seq::empty());
            assert(after.drop_last() == before);
            assert(joined(before).push('\n') + Seq::<char>::empty() == joined(before).push('\n'));
        } else {
            let grown = before.last().push(text.last());
            let after = before.drop_last().push(grown);
            assert(after.drop_last() == before.drop_last());
            if before.len() == 1 {
                assert(joined(after) == grown);
                assert(joined(before) == before.last());
            } else {
                let head = joined(before.drop_last()).push('\n');
                assert(head + grown == (head + before.last()).push(text.last()));
            }
        }
    }
}

/// Splits `text` at its newlines and drops the empty pieces.
pub fn split_nonempty_lines(text: &str) -> (out: Vec<String>)
    ensures
        out.deep_view() == nonempty_lines(text@),
{
    let mut out: Vec<String> = Vec::new();
    let mut current = String::new();
    proof {
        reveal(Seq::filter);
        assert(text@.take(0) == Seq::<char>::empty());
        assert(lines(text@.take(0)).drop_last() == Seq::<Seq<char>>::empty());
        assert(out.deep_view() == Seq::<Seq<char>>::empty());
    }
    for c in it: text.chars()
        invariant
            it.seq() == text@,
            out.deep_view() == lines(text@.take(it.index())).drop_last().filter(is_nonempty()),
            current@ == lines(text@.take(it.index())).last(),
    {
        let ghost before = text@.take(it.index());
        let ghost after = text@.take(it.index() + 1);
        proof {
            reveal(Seq::filter);
            lemma_lines_nonvoid(before);
            assert(after.drop_last() == before);
            assert(after.last() == c);
        }
        if c == '\n' {
            if !current.as_str().is_empty() {
                let ghost shown = out.deep_view();
                out.push(current);
                assert(out.deep_view() == shown.push(current@));
            }
            current = String::new();
            proof {
                assert(lines(after).drop_last() == lines(before));
            }
        } else {
            current.push(c);
            proof {
                assert(lines(after).drop_last() == lines(before).drop_last());
            }
        }
    }
    proof {
        reveal(Seq::filter);
        assert(text@.take(text@.len() as int) == text@);
        lemma_lines_nonvoid(text@);
    }
    if !current.as_str().is_empty() {
        let ghost shown = out.deep_view();
        out.push(current);
        assert(out.deep_view() == shown.push(current@));
    }
    out
}

} // verus!
