//! Small pure helpers on characters and text.

use vstd::prelude::*;
use vstd::string::StrSliceExecFns;

verus! {

/// The lower-case form of an ASCII upper-case letter; any other character itself.
pub open spec fn ascii_lower(c: char) -> char {
    if 'A' <= c && c <= 'Z' {
        ((c as u8) + 32) as char
    } else {
        c
    }
}

/// Every character of `s` in its ASCII lower-case form.
pub open spec fn ascii_lower_text(s: Seq<char>) -> Seq<char> {
    s.map_values(|c: char| ascii_lower(c))
}

/// Lower-cases one character, ASCII letters only.
pub fn to_ascii_lower(c: char) -> (r: char)
    ensures
        r == ascii_lower(c),
{
    if 'A' <= c && c <= 'Z' {
        let b: u8 = c as u8;
        (b + 32) as char
    } else {
        c
    }
}

/// Whether `c` is outside ASCII.
pub open spec fn wide(c: char) -> bool {
    c as u32 >= 128
}

/// How often `c` occurs in `s`.
pub open spec fn occurrences(s: Seq<char>, c: char) -> nat
    decreases s.len(),
{
    if s.len() == 0 {
        0
    } else {
        occurrences(s.drop_last(), c) + if s.last() == c {
            1nat
        } else {
            0nat
        }
    }
}

/// The characters of `text`, one by one.
pub fn chars_of(text: &str) -> (chars: Vec<char>)
    ensures
        chars@ == text@,
{
    broadcast use vstd::string::axiom_spec_iter;

    let mut chars: Vec<char> = Vec::new();
    for c in iter: text.chars()
        invariant
            iter.seq() == text@,
            chars@ == text@.take(iter.index() as int),
    {
        chars.push(c);
        assert(text@.take(iter.index() + 1) =~= text@.take(iter.index() as int).push(c));
    }
    assert(text@.take(text@.len() as int) =~= text@);
    chars
}

/// Counts how often `c` occurs in `text`.
pub fn count_char(text: &str, c: char) -> (count: usize)
    ensures
        count == occurrences(text@, c),
{
    broadcast use vstd::string::axiom_spec_iter;

    let n = text.unicode_len();
    let mut count: usize = 0;
    for x in iter: text.chars()
        invariant
            iter.seq() == text@,
            n == text@.len(),
            count == occurrences(text@.take(iter.index() as int), c),
            count <= iter.index(),
    {
        assert(text@.take(iter.index() + 1).drop_last() =~= text@.take(iter.index() as int));
        if x == c {
            count += 1;
        }
    }
    assert(text@.take(text@.len() as int) =~= text@);
    count
}

/// `String::push` of std: the text grows by exactly the one character `c`
/// at its end.
#[verifier::external_body]
pub(crate) fn push_char(text: &mut String, c: char)
    ensures
        final(text)@ == old(text)@.push(c),
{
    text.push(c)
}

/// The character that writes the decimal digit `d`.
pub open spec fn digit_char(d: nat) -> char
    recommends
        d < 10,
{
    ((48 + d) as u8) as char
}

/// The decimal numeral of `n`, without sign or leading zeros.
pub open spec fn decimal(n: nat) -> Seq<char>
    decreases n,
{
    if n < 10 {
        seq![digit_char(n)]
    } else {
        decimal(n / 10).push(digit_char(n % 10))
    }
}

/// Appends the decimal numeral of `n` to `out`.
pub fn push_decimal(out: &mut String, n: u16)
    ensures
        final(out)@ == old(out)@ + decimal(n as nat),
    decreases n,
{
    if n >= 10 {
        push_decimal(out, n / 10);
    }
    let d: u8 = (n % 10) as u8;
    push_char(out, (48 + d) as char);
    assert(final(out)@ =~= old(out)@ + decimal(n as nat));
}

} // verus!
