//! Character sequences: substring search, replacement and decimal numerals.
//!
//! The contracts speak of `Seq<char>`, the view of `str` and `String`; the
//! executable functions work on `Vec<char>` and convert at the edges.

use vstd::prelude::*;

verus! {

/// `pattern` stands in `text` at index `at`.
pub open spec fn occurs_at(text: Seq<char>, pattern: Seq<char>, at: int) -> bool {
    &&& 0 <= at
    &&& at + pattern.len() <= text.len()
    &&& text.subrange(at, at + pattern.len()) =~= pattern
}

/// `pattern` stands somewhere in `text`.
pub open spec fn contains_text(text: Seq<char>, pattern: Seq<char>) -> bool {
    exists|at: int| occurs_at(text, pattern, at)
}

/// `text` with every occurrence of `from` replaced by `to`, occurrences taken
/// from the left and never overlapping. The empty `from` occurs before every
/// character and at the end.
pub open spec fn replace_all(text: Seq<char>, from: Seq<char>, to: Seq<char>) -> Seq<char>
    decreases text.len(),
{
    if from.len() == 0 {
        if text.len() == 0 {
            to
        } else {
            (to + seq![text[0]]) + replace_all(text.skip(1), from, to)
        }
    } else if text.len() < from.len() {
        text
    } else if occurs_at(text, from, 0) {
        to + replace_all(text.skip(from.len() as int), from, to)
    } else {
        seq![text[0]] + replace_all(text.skip(1), from, to)
    }
}

/// The decimal digit for `d`, `0 <= d <= 9`; the digit nine beyond.
pub open spec fn digit_char(d: int) -> char {
    if d == 0 {
        '0'
    } else if d == 1 {
        '1'
    } else if d == 2 {
        '2'
    } else if d == 3 {
        '3'
    } else if d == 4 {
        '4'
    } else if d == 5 {
        '5'
    } else if d == 6 {
        '6'
    } else if d == 7 {
        '7'
    } else if d == 8 {
        '8'
    } else {
        '9'
    }
}

/// The decimal numeral of a natural number, without leading zeros.
pub open spec fn decimal(n: nat) -> Seq<char>
    decreases n,
{
    if n < 10 {
        seq![digit_char(n as int)]
    } else {
        decimal(n / 10).push(digit_char((n % 10) as int))
    }
}

/// The decimal numeral of an integer: a minus sign before a negative one.
pub open spec fn signed_decimal(n: int) -> Seq<char> {
    if n < 0 {
        seq!['-'] + decimal((-n) as nat)
    } else {
        decimal(n as nat)
    }
}

/// `String::push` of std: the character is appended, nothing else changes.
#[verifier::external_body]
pub(crate) fn push_char(s: &mut String, c: char)
    ensures
        final(s)@ == old(s)@.push(c),
{
    s.push(c);
}

/// The characters of a string slice, in order.
pub fn chars_of(s: &str) -> (v: Vec<char>)
    ensures
        v@ == s@,
{
    let mut v: Vec<char> = Vec::new();
    for c in iter: s.chars()
        invariant
            iter.seq() == s@,
            v@ == iter.seq().take(iter.index()),
    {
        v.push(c);
    }
    v
}

/// Appends the characters of `v` to `s`.
pub fn append_chars(s: &mut String, v: &Vec<char>)
    ensures
        final(s)@ == old(s)@ + v@,
{
    let mut i: usize = 0;
    while i < v.len()
        invariant
            i <= v.len(),
            s@ == old(s)@ + v@.take(i as int),
        decreases v.len() - i,
    {
        push_char(s, v[i]);
        i += 1;
    }
}

/// The string made of the characters of `v`.
pub fn string_of(v: &Vec<char>) -> (s: String)
    ensures
        s@ == v@,
{
    let mut s = String::new();
    append_chars(&mut s, v);
    s
}

/// Whether `pattern` stands in `text` at index `at`.
pub fn matches_at(text: &Vec<char>, pattern: &Vec<char>, at: usize) -> (b: bool)
    ensures
        b == occurs_at(text@, pattern@, at as int),
{
    if at > text.len() || pattern.len() > text.len() - at {
        return false;
    }
    let mut k: usize = 0;
    while k < pattern.len()
        invariant
            k <= pattern.len(),
            at + pattern.len() <= text.len(),
            forall|j: int| 0 <= j < k ==> text@[at + j] == pattern@[j],
        decreases pattern.len() - k,
    {
        if text[at + k] != pattern[k] {
            assert(text@.subrange(at as int, at + pattern.len())[k as int] != pattern@[k as int]);
            return false;
        }
        k += 1;
    }
    true
}

/// Whether two string slices hold the same characters.
pub fn equal_text(a: &str, b: &str) -> (same: bool)
    ensures
        same == (a@ == b@),
{
    let x = chars_of(a);
    let y = chars_of(b);
    if x.len() != y.len() {
        return false;
    }
    let same = matches_at(&x, &y, 0);
    assert(x@.subrange(0, y@.len() as int) =~= x@);
    same
}

/// Whether `pattern` stands somewhere in `text`.
pub fn contains(text: &str, pattern: &str) -> (found: bool)
    ensures
        found == contains_text(text@, pattern@),
{
    let t = chars_of(text);
    let p = chars_of(pattern);
    let mut at: usize = 0;
    while at < t.len()
        invariant
            at <= t.len(),
            t@ == text@,
            p@ == pattern@,
            forall|j: int| 0 <= j < at ==> !occurs_at(t@, p@, j),
        decreases t.len() - at,
    {
        if matches_at(&t, &p, at) {
            return true;
        }
        at += 1;
    }
    // only the empty pattern stands at the very end
    matches_at(&t, &p, at)
}

/// `text` with `to` put before every character and at the end.
fn interleave(t: &Vec<char>, to: &str) -> (out: String)
    ensures
        out@ == replace_all(t@, Seq::<char>::empty(), to@),
{
    let ghost none = Seq::<char>::empty();
    let mut out = String::new();
    let mut i: usize = 0;
    assert(t@.skip(0) =~= t@);
    assert(out@ + replace_all(t@, none, to@) =~= replace_all(t@, none, to@));
    while i < t.len()
        invariant
            i <= t.len(),
            none.len() == 0,
            out@ + replace_all(t@.skip(i as int), none, to@) == replace_all(t@, none, to@),
        decreases t.len() - i,
    {
        let ghost rest = t@.skip(i as int);
        assert(rest.skip(1) =~= t@.skip(i + 1));
        assert(out@ + ((to@ + seq![rest[0]]) + replace_all(rest.skip(1), none, to@)) =~= (out@
            + to@).push(t@[i as int]) + replace_all(rest.skip(1), none, to@));
        out.append(to);
        push_char(&mut out, t[i]);
        i += 1;
    }
    assert(t@.skip(i as int) =~= Seq::<char>::empty());
    out.append(to);
    out
}

/// `text` with every occurrence of `from` replaced by `to`.
pub fn replace(text: &str, from: &str, to: &str) -> (out: String)
    ensures
        out@ == replace_all(text@, from@, to@),
{
    let t = chars_of(text);
    let f = chars_of(from);
    if f.len() == 0 {
        assert(from@ =~= Seq::<char>::empty());
        return interleave(&t, to);
    }
    let mut out = String::new();
    let mut i: usize = 0;
    assert(t@.skip(0) =~= t@);
    assert(out@ + replace_all(t@, f@, to@) =~= replace_all(t@, f@, to@));
    while i < t.len()
        invariant
            i <= t.len(),
            t@ == text@,
            f@ == from@,
            f@.len() > 0,
            out@ + replace_all(t@.skip(i as int), f@, to@) == replace_all(t@, f@, to@),
        decreases t.len() - i,
    {
        let ghost rest = t@.skip(i as int);
        if matches_at(&t, &f, i) {
            assert(occurs_at(rest, f@, 0)) by {
                assert(rest.subrange(0, f@.len() as int) =~= t@.subrange(
                    i as int,
                    i + f@.len(),
                ));
            }
            assert(rest.skip(f@.len() as int) =~= t@.skip(i + f@.len()));
            assert(out@ + (to@ + replace_all(rest.skip(f@.len() as int), f@, to@)) =~= (out@
                + to@) + replace_all(rest.skip(f@.len() as int), f@, to@));
            out.append(to);
            i += f.len();
        } else {
            assert(!occurs_at(rest, f@, 0)) by {
                if rest.len() >= f@.len() {
                    assert(rest.subrange(0, f@.len() as int) =~= t@.subrange(
                        i as int,
                        i + f@.len(),
                    ));
                }
            }
            assert(rest.skip(1) =~= t@.skip(i + 1));
            proof {
                if rest.len() < f@.len() {
                    // what is left is shorter than the pattern and stays as it is
                    assert(replace_all(rest, f@, to@) == rest);
                    assert(replace_all(rest.skip(1), f@, to@) == rest.skip(1));
                    assert(rest =~= seq![rest[0]] + rest.skip(1));
                }
            }
            assert(out@ + (seq![rest[0]] + replace_all(rest.skip(1), f@, to@)) =~= out@.push(
                t@[i as int],
            ) + replace_all(rest.skip(1), f@, to@));
            push_char(&mut out, t[i]);
            i += 1;
        }
    }
    assert(t@.skip(i as int) =~= Seq::<char>::empty());
    assert(out@ + Seq::<char>::empty() =~= out@);
    out
}

/// The decimal digit for `d`; the digit nine for a larger `d`.
pub fn digit(d: u8) -> (c: char)
    ensures
        c == digit_char(d as int),
{
    if d == 0 {
        '0'
    } else if d == 1 {
        '1'
    } else if d == 2 {
        '2'
    } else if d == 3 {
        '3'
    } else if d == 4 {
        '4'
    } else if d == 5 {
        '5'
    } else if d == 6 {
        '6'
    } else if d == 7 {
        '7'
    } else if d == 8 {
        '8'
    } else {
        '9'
    }
}

/// Appends the decimal numeral of `n` to `out`.
pub fn push_decimal(out: &mut String, n: u64)
    ensures
        final(out)@ == old(out)@ + decimal(n as nat),
    decreases n,
{
    if n >= 10 {
        push_decimal(out, n / 10);
    }
    push_char(out, digit((n % 10) as u8));
}

/// Appends the decimal numeral of `n`, with its sign, to `out`.
pub fn push_signed_decimal(out: &mut String, n: i64)
    ensures
        final(out)@ == old(out)@ + signed_decimal(n as int),
{
    if n < 0 {
        push_char(out, '-');
        let magnitude: u64 = ((-(n + 1)) as u64) + 1;
        push_decimal(out, magnitude);
        assert(old(out)@.push('-') + decimal((-n) as nat) =~= old(out)@ + (seq!['-'] + decimal(
            (-n) as nat,
        )));
    } else {
        push_decimal(out, n as u64);
    }
}

/// No character of `text` is `c`.
pub open spec fn free_of(text: Seq<char>, c: char) -> bool {
    forall|i: int| 0 <= i < text.len() ==> text[i] != c
}

/// A text in which the first character of `from` does not occur holds no
/// `from`, so replacing leaves it as it is.
pub proof fn lemma_replace_keeps_text_without_pattern(
    text: Seq<char>,
    from: Seq<char>,
    to: Seq<char>,
)
    requires
        from.len() > 0,
        free_of(text, from[0]),
    ensures
        replace_all(text, from, to) == text,
    decreases text.len(),
{
    if text.len() >= from.len() {
        assert(!occurs_at(text, from, 0)) by {
            if occurs_at(text, from, 0) {
                assert(text.subrange(0, from.len() as int)[0] == from[0]);
            }
        }
        lemma_replace_keeps_text_without_pattern(text.skip(1), from, to);
        assert(seq![text[0]] + text.skip(1) =~= text);
    }
}

/// The pattern at the head of a text is replaced, and what follows it is
/// replaced on its own.
pub proof fn lemma_replace_at_head(rest: Seq<char>, from: Seq<char>, to: Seq<char>)
    requires
        from.len() > 0,
    ensures
        replace_all(from + rest, from, to) == to + replace_all(rest, from, to),
{
    let text = from + rest;
    assert(text.subrange(0, from.len() as int) =~= from);
    assert(text.skip(from.len() as int) =~= rest);
}

/// A decimal numeral is made of digits: no other character is in it.
pub proof fn lemma_decimal_is_digits(n: nat, c: char)
    requires
        forall|d: int| 0 <= d <= 9 ==> digit_char(d) != c,
    ensures
        free_of(decimal(n), c),
    decreases n,
{
    if n >= 10 {
        lemma_decimal_is_digits(n / 10, c);
    }
}

} // verus!
