//! Character-level helpers on strings, specified over `Seq<char>`.

use vstd::prelude::*;
use vstd::std_specs::iter::IteratorSpec;
use vstd::string::*;

verus! {

/// `String::push` appends one character at the end and changes nothing else.
pub assume_specification[ String::push ](s: &mut String, c: char)
    ensures
        final(s)@ == old(s)@.push(c),
;

/// The characters of `s` before its first line break (all of `s` if it has none).
pub open spec fn first_line(s: Seq<char>) -> Seq<char>
    decreases s.len(),
{
    if s.len() == 0 || s[0] == '\n' {
        Seq::empty()
    } else {
        seq![s[0]] + first_line(s.drop_first())
    }
}

/// The characters of `s` after its first line break (nothing if it has none).
pub open spec fn after_first_line(s: Seq<char>) -> Seq<char>
    decreases s.len(),
{
    if s.len() == 0 {
        Seq::empty()
    } else if s[0] == '\n' {
        s.drop_first()
    } else {
        after_first_line(s.drop_first())
    }
}

/// Whether `s` holds a line break.
pub open spec fn has_line_break(s: Seq<char>) -> bool {
    exists|i: int| 0 <= i < s.len() && s[i] == '\n'
}

/// The first line holds no line break; a text without one is its own first
/// line, and any other is its first line, the break, and what follows.
pub proof fn lemma_first_line_splits(s: Seq<char>)
    ensures
        !has_line_break(first_line(s)),
        first_line(s).len() <= s.len(),
        !has_line_break(s) ==> first_line(s) == s && after_first_line(s).len() == 0,
        has_line_break(s) ==> s == first_line(s) + seq!['\n'] + after_first_line(s),
    decreases s.len(),
{
    if s.len() == 0 {
        assert(first_line(s) =~= s);
    } else if s[0] == '\n' {
        assert(has_line_break(s));
        assert(s =~= first_line(s) + seq!['\n'] + after_first_line(s));
    } else {
        let rest = s.drop_first();
        lemma_first_line_splits(rest);
        assert(s =~= seq![s[0]] + rest);
        if has_line_break(first_line(s)) {
            let i = choose|i: int| 0 <= i < first_line(s).len() && first_line(s)[i] == '\n';
            assert(first_line(rest)[i - 1] == '\n');
        }
        if has_line_break(s) {
            let i = choose|i: int| 0 <= i < s.len() && s[i] == '\n';
            assert(rest[i - 1] == '\n');
            assert(s =~= first_line(s) + seq!['\n'] + after_first_line(s));
        } else {
            if has_line_break(rest) {
                let i = choose|i: int| 0 <= i < rest.len() && rest[i] == '\n';
                assert(s[i + 1] == '\n');
            }
            assert(first_line(s) =~= s);
        }
    }
}

/// A line put in front of a text, with a break between them, is the first
/// line of the result, and the text is what follows it.
pub proof fn lemma_first_line_of_joined(line: Seq<char>, rest: Seq<char>)
    requires
        !has_line_break(line),
    ensures
        first_line(line + seq!['\n'] + rest) == line,
        after_first_line(line + seq!['\n'] + rest) == rest,
    decreases line.len(),
{
    let whole = line + seq!['\n'] + rest;
    if line.len() == 0 {
        assert(whole[0] == '\n');
        assert(whole.drop_first() =~= rest);
        assert(first_line(whole) =~= line);
    } else {
        assert(line[0] != '\n');
        assert(whole[0] == line[0]);
        let shorter = line.drop_first();
        assert(!has_line_break(shorter)) by {
            if has_line_break(shorter) {
                let i = choose|i: int| 0 <= i < shorter.len() && shorter[i] == '\n';
                assert(line[i + 1] == '\n');
            }
        }
        assert(whole.drop_first() =~= shorter + seq!['\n'] + rest);
        lemma_first_line_of_joined(shorter, rest);
        assert(first_line(whole) =~= line);
    }
}

/// Splits `text` at its first line break, which goes to neither part.
pub fn split_first_line(text: &str) -> (parts: (String, String))
    ensures
        parts.0@ == first_line(text@),
        parts.1@ == after_first_line(text@),
{
    broadcast use group_string_axioms;
    let mut head = String::new();
    let mut tail = String::new();
    let mut in_tail = false;
    let mut chars = text.chars();
    let ghost mut seen: int = 0;
    proof {
        assert(text@.skip(0) == text@);
        assert(head@ + first_line(text@) == first_line(text@));
    }
    loop
        invariant
            0 <= seen <= text@.len(),
            chars.remaining() == text@.skip(seen),
            !in_tail ==> tail@.len() == 0 && first_line(text@) == head@ + first_line(
                text@.skip(seen),
            ) && after_first_line(text@) == after_first_line(text@.skip(seen)),
            in_tail ==> head@ == first_line(text@) && after_first_line(text@) == tail@
                + text@.skip(seen),
        ensures
            seen == text@.len(),
        decreases text@.len() - seen,
    {
        let ghost rest = text@.skip(seen);
        match chars.next() {
            Some(c) => {
                proof {
                    assert(rest.drop_first() == text@.skip(seen + 1));
                }
                if in_tail {
                    tail.push(c);
                    proof {
                        assert(tail@ + rest.drop_first() == tail@.drop_last() + rest);
                    }
                } else if c == '\n' {
                    in_tail = true;
                    proof {
                        assert(head@ + Seq::<char>::empty() == head@);
                        assert(tail@ + rest.drop_first() == rest.drop_first());
                    }
                } else {
                    head.push(c);
                    proof {
                        assert(head@ + first_line(rest.drop_first()) == head@.drop_last() + (
                        seq![c] + first_line(rest.drop_first())));
                    }
                }
                proof {
                    seen = seen + 1;
                }
            },
            None => {
                proof {
                    assert(head@ + Seq::<char>::empty() == head@);
                    assert(tail@ + Seq::<char>::empty() == tail@);
                }
                break ;
            },
        }
    }
    (head, tail)
}

/// Splits `text` before its character number `char_index`, counting from 0.
/// There is no such split when `char_index` is past the end.
pub fn split_at_char_index(text: &str, char_index: usize) -> (parts: Option<(String, String)>)
    ensures
        parts is Some <==> char_index <= text@.len(),
        parts matches Some(p) ==> p.0@ == text@.take(char_index as int) && p.1@ == text@.skip(
            char_index as int,
        ),
{
    broadcast use group_string_axioms;
    let mut left = String::new();
    let mut right = String::new();
    let mut taken: usize = 0;
    let mut chars = text.chars();
    let ghost mut seen: int = 0;
    proof {
        assert(text@.skip(0) == text@);
        assert(left@ == text@.take(0));
        assert(right@ == text@.subrange(0, 0));
    }
    loop
        invariant
            0 <= seen <= text@.len(),
            chars.remaining() == text@.skip(seen),
            taken <= char_index,
            taken <= seen,
            taken < char_index ==> taken == seen,
            left@ == text@.take(taken as int),
            right@ == text@.subrange(taken as int, seen),
        ensures
            seen == text@.len(),
        decreases text@.len() - seen,
    {
        match chars.next() {
            Some(c) => {
                proof {
                    assert(text@.skip(seen).drop_first() == text@.skip(seen + 1));
                }
                if taken < char_index {
                    left.push(c);
                    taken = taken + 1;
                    proof {
                        assert(text@.take(seen + 1) == text@.take(seen).push(text@[seen]));
                    }
                } else {
                    right.push(c);
                    proof {
                        assert(text@.subrange(taken as int, seen + 1) == text@.subrange(
                            taken as int,
                            seen,
                        ).push(text@[seen]));
                    }
                }
                proof {
                    seen = seen + 1;
                }
            },
            None => {
                break ;
            },
        }
    }
    if taken < char_index {
        None
    } else {
        proof {
            assert(text@.subrange(taken as int, seen) == text@.skip(char_index as int));
        }
        Some((left, right))
    }
}

/// The character that writes the decimal digit `d`.
pub open spec fn digit_char(d: int) -> char {
    if d == 0 {
        '0'
    } else if d == 1 {
        '1'
    } else if d == 2 {
        '2'
    } else if d == 3 {
        '3'
    } else if d == 4 {
        '4'
    } else if d == 5 {
        '5'
    } else if d == 6 {
        '6'
    } else if d == 7 {
        '7'
    } else if d == 8 {
        '8'
    } else {
        '9'
    }
}

/// Whether `c` is one of the ten ASCII digits.
pub open spec fn is_ascii_digit(c: char) -> bool {
    '0' <= c <= '9'
}

/// `n` in decimal, without leading zeros.
pub open spec fn decimal(n: nat) -> Seq<char>
    decreases n,
{
    if n < 10 {
        seq![digit_char(n as int)]
    } else {
        decimal(n / 10).push(digit_char((n % 10) as int))
    }
}

/// The last `width` decimal digits of `n`, with zeros in front where `n` has fewer.
pub open spec fn zero_padded(n: nat, width: nat) -> Seq<char>
    decreases width,
{
    if width == 0 {
        Seq::empty()
    } else {
        zero_padded(n / 10, (width - 1) as nat).push(digit_char((n % 10) as int))
    }
}

/// A zero-padded number has exactly the width asked for and holds only digits.
pub proof fn lemma_zero_padded_shape(n: nat, width: nat)
    ensures
        zero_padded(n, width).len() == width,
        forall|i: int| 0 <= i < width ==> is_ascii_digit(#[trigger] zero_padded(n, width)[i]),
    decreases width,
{
    if width > 0 {
        lemma_zero_padded_shape(n / 10, (width - 1) as nat);
    }
}

/// Numbers of two or more digits are written with two or more characters.
pub proof fn lemma_decimal_len(n: nat)
    ensures
        decimal(n).len() >= 1,
        n >= 10 ==> decimal(n).len() >= 2,
    decreases n,
{
    if n >= 10 {
        lemma_decimal_len(n / 10);
    }
}

/// Different numbers are written differently.
pub proof fn lemma_decimal_is_injective(a: nat, b: nat)
    requires
        decimal(a) == decimal(b),
    ensures
        a == b,
    decreases a,
{
    lemma_decimal_len(a);
    lemma_decimal_len(b);
    if a >= 10 {
        assert(b >= 10);
        assert(decimal(a).last() == digit_char((a % 10) as int));
        assert(decimal(b).last() == digit_char((b % 10) as int));
        assert(decimal(a).drop_last() == decimal(a / 10));
        assert(decimal(b).drop_last() == decimal(b / 10));
        lemma_decimal_is_injective(a / 10, b / 10);
    } else {
        assert(b < 10);
        assert(decimal(a)[0] == digit_char(a as int));
        assert(decimal(b)[0] == digit_char(b as int));
    }
}

fn digit_of(d: u64) -> (c: char)
    requires
        d < 10,
    ensures
        c == digit_char(d as int),
{
    if d == 0 {
        '0'
    } else if d == 1 {
        '1'
    } else if d == 2 {
        '2'
    } else if d == 3 {
        '3'
    } else if d == 4 {
        '4'
    } else if d == 5 {
        '5'
    } else if d == 6 {
        '6'
    } else if d == 7 {
        '7'
    } else if d == 8 {
        '8'
    } else {
        '9'
    }
}

/// Writes `n` in decimal at the end of `out`.
pub fn push_decimal(out: &mut String, n: u64)
    ensures
        final(out)@ == old(out)@ + decimal(n as nat),
    decreases n,
{
    if n >= 10 {
        push_decimal(out, n / 10);
    }
    out.push(digit_of(n % 10));
    proof {
        assert(out@ =~= old(out)@ + decimal(n as nat));
    }
}

/// The code of `c`, with the upper-case ASCII letters moved onto the
/// lower-case ones.
pub open spec fn ascii_lowercase_code(c: char) -> int {
    if 'A' <= c && c <= 'Z' {
        c as u32 as int + 32
    } else {
        c as u32 as int
    }
}

/// Whether two texts are the same but for the case of their ASCII letters.
pub open spec fn same_ignoring_ascii_case(left: Seq<char>, right: Seq<char>) -> bool {
    &&& left.len() == right.len()
    &&& forall|i: int|
        0 <= i < left.len() ==> ascii_lowercase_code(#[trigger] left[i]) == ascii_lowercase_code(
            right[i],
        )
}

fn lowercase_code(c: char) -> (code: u32)
    ensures
        code == ascii_lowercase_code(c),
{
    let code = c as u32;
    if 'A' <= c && c <= 'Z' {
        code + 32
    } else {
        code
    }
}

/// Whether two texts are the same but for the case of their ASCII letters.
pub fn eq_ignore_ascii_case(left: &str, right: &str) -> (same: bool)
    ensures
        same == same_ignoring_ascii_case(left@, right@),
{
    broadcast use group_string_axioms;
    let mut left_chars = left.chars();
    let mut right_chars = right.chars();
    let ghost mut seen: int = 0;
    proof {
        assert(left@.skip(0) == left@);
        assert(right@.skip(0) == right@);
    }
    loop
        invariant
            0 <= seen <= left@.len(),
            seen <= right@.len(),
            left_chars.remaining() == left@.skip(seen),
            right_chars.remaining() == right@.skip(seen),
            forall|i: int|
                0 <= i < seen ==> ascii_lowercase_code(#[trigger] left@[i])
                    == ascii_lowercase_code(right@[i]),
        decreases left@.len() - seen,
    {
        match left_chars.next() {
            Some(l) => match right_chars.next() {
                Some(r) => {
                    if lowercase_code(l) != lowercase_code(r) {
                        proof {
                            assert(ascii_lowercase_code(left@[seen]) != ascii_lowercase_code(
                                right@[seen],
                            ));
                        }
                        return false;
                    }
                    proof {
                        assert(left@.skip(seen).drop_first() == left@.skip(seen + 1));
                        assert(right@.skip(seen).drop_first() == right@.skip(seen + 1));
                        seen = seen + 1;
                    }
                },
                None => {
                    return false;
                },
            },
            None => {
                return right_chars.next().is_none();
            },
        }
    }
}

} // verus!
