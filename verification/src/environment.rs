//! How the name of an environment variable names a configuration value.
//!
//! A variable counts when its name, without the white space around it,
//! starts with the prefix `APP_` in any letter case. What follows the prefix
//! is the key path: each `__` stands for the `.` between two keys, and
//! letters are lower-cased. `APP_DATABASE__URL` names `database.url`.

use crate::utils::{ascii_lower, ascii_lower_text, chars_of, push_char, to_ascii_lower};
use vstd::prelude::*;

verus! {

/// Whether `c` is white space: a character with the Unicode property
/// `White_Space`, which is what `str::trim` of std removes.
pub open spec fn whitespace(c: char) -> bool {
    let code = c as u32;
    ||| 0x09 <= code <= 0x0D
    ||| code == 0x20
    ||| code == 0x85
    ||| code == 0xA0
    ||| code == 0x1680
    ||| 0x2000 <= code <= 0x200A
    ||| code == 0x2028
    ||| code == 0x2029
    ||| code == 0x202F
    ||| code == 0x205F
    ||| code == 0x3000
}

/// Tells whether `c` is white space.
pub fn is_whitespace(c: char) -> (answer: bool)
    ensures
        answer == whitespace(c),
{
    let code: u32 = c as u32;
    (0x09 <= code && code <= 0x0D) || code == 0x20 || code == 0x85 || code == 0xA0 || code
        == 0x1680 || (0x2000 <= code && code <= 0x200A) || code == 0x2028 || code == 0x2029
        || code == 0x202F || code == 0x205F || code == 0x3000
}

/// `s` without the white space at its start.
pub open spec fn trim_start(s: Seq<char>) -> Seq<char>
    decreases s.len(),
{
    if s.len() > 0 && whitespace(s[0]) {
        trim_start(s.skip(1))
    } else {
        s
    }
}

/// `s` without the white space at its end.
pub open spec fn trim_end(s: Seq<char>) -> Seq<char>
    decreases s.len(),
{
    if s.len() > 0 && whitespace(s.last()) {
        trim_end(s.drop_last())
    } else {
        s
    }
}

/// `s` without the white space at either end.
pub open spec fn trimmed(s: Seq<char>) -> Seq<char> {
    trim_end(trim_start(s))
}

/// Whether `s` starts with `prefix`, letter case of ASCII letters aside.
pub open spec fn starts_with_uncased(s: Seq<char>, prefix: Seq<char>) -> bool {
    &&& prefix.len() <= s.len()
    &&& forall|i: int| 0 <= i < prefix.len() ==> ascii_lower(s[i]) == ascii_lower(prefix[i])
}

/// `s` with each `__` replaced by `.`, reading from the left.
pub open spec fn dotted(s: Seq<char>) -> Seq<char>
    decreases s.len(),
{
    if s.len() == 0 {
        s
    } else if s.len() >= 2 && s[0] == '_' && s[1] == '_' {
        seq!['.'] + dotted(s.skip(2))
    } else {
        seq![s[0]] + dotted(s.skip(1))
    }
}

/// Whether every key of the path `s`, its parts between dots, is non-empty.
pub open spec fn keys_present(s: Seq<char>) -> bool {
    &&& s.len() > 0
    &&& s[0] != '.'
    &&& s.last() != '.'
    &&& forall|i: int| 0 <= i < s.len() - 1 ==> !(#[trigger] s[i] == '.' && s[i + 1] == '.')
}

/// The prefix that marks a variable as one of the application's.
pub open spec fn prefix() -> Seq<char> {
    seq!['A', 'P', 'P', '_']
}

/// The key path that the variable `name` sets, if it sets one.
pub open spec fn key_path(name: Seq<char>) -> Option<Seq<char>> {
    let name = trimmed(name);
    if starts_with_uncased(name, prefix()) {
        let path = trimmed(dotted(name.skip(prefix().len() as int)));
        if keys_present(path) {
            Some(ascii_lower_text(path))
        } else {
            None
        }
    } else {
        None
    }
}

/// Removes the white space at both ends of `chars`.
pub fn trim(chars: &Vec<char>) -> (kept: Vec<char>)
    ensures
        kept@ == trimmed(chars@),
{
    let n = chars.len();
    let mut lo: usize = 0;
    assert(chars@.skip(0) =~= chars@);
    while lo < n && is_whitespace(chars[lo])
        invariant
            n == chars@.len(),
            lo <= n,
            trim_start(chars@) == trim_start(chars@.skip(lo as int)),
        decreases n - lo,
    {
        assert(chars@.skip(lo as int).skip(1) =~= chars@.skip(lo + 1));
        lo += 1;
    }
    assert(trim_start(chars@) == chars@.skip(lo as int));
    assert(chars@.skip(lo as int) =~= chars@.subrange(lo as int, n as int));
    let mut hi: usize = n;
    while hi > lo && is_whitespace(chars[hi - 1])
        invariant
            n == chars@.len(),
            lo <= hi <= n,
            trimmed(chars@) == trim_end(chars@.subrange(lo as int, hi as int)),
        decreases hi,
    {
        assert(chars@.subrange(lo as int, hi as int).drop_last() =~= chars@.subrange(
            lo as int,
            hi - 1,
        ));
        hi -= 1;
    }
    assert(trimmed(chars@) == chars@.subrange(lo as int, hi as int));
    let mut kept: Vec<char> = Vec::new();
    let mut i: usize = lo;
    while i < hi
        invariant
            lo <= i <= hi <= n,
            n == chars@.len(),
            kept@ == chars@.subrange(lo as int, i as int),
        decreases hi - i,
    {
        kept.push(chars[i]);
        i += 1;
        assert(chars@.subrange(lo as int, i as int) =~= chars@.subrange(lo as int, i - 1).push(
            chars@[i - 1],
        ));
    }
    kept
}

/// Tells whether `chars` starts with `prefix`, letter case aside.
pub fn has_prefix(chars: &Vec<char>, prefix: &Vec<char>) -> (answer: bool)
    ensures
        answer == starts_with_uncased(chars@, prefix@),
{
    if chars.len() < prefix.len() {
        return false;
    }
    let mut i: usize = 0;
    while i < prefix.len()
        invariant
            prefix@.len() <= chars@.len(),
            i <= prefix@.len(),
            forall|k: int| 0 <= k < i ==> ascii_lower(chars@[k]) == ascii_lower(prefix@[k]),
        decreases prefix@.len() - i,
    {
        if to_ascii_lower(chars[i]) != to_ascii_lower(prefix[i]) {
            return false;
        }
        i += 1;
    }
    true
}

/// Replaces each `__` in what follows the first `from` characters by `.`.
pub fn split_keys(chars: &Vec<char>, from: usize) -> (path: Vec<char>)
    requires
        from <= chars@.len(),
    ensures
        path@ == dotted(chars@.skip(from as int)),
{
    let n = chars.len();
    let mut path: Vec<char> = Vec::new();
    let mut i: usize = from;
    while i < n
        invariant
            n == chars@.len(),
            from <= i <= n,
            path@ + dotted(chars@.skip(i as int)) == dotted(chars@.skip(from as int)),
        decreases n - i,
    {
        let ghost rest = chars@.skip(i as int);
        let ghost before = path@;
        if i + 1 < n && chars[i] == '_' && chars[i + 1] == '_' {
            path.push('.');
            i += 2;
            proof {
                assert(rest.skip(2) =~= chars@.skip(i as int));
                assert(path@ + dotted(rest.skip(2)) =~= before + dotted(rest));
            }
        } else {
            path.push(chars[i]);
            i += 1;
            proof {
                assert(rest.skip(1) =~= chars@.skip(i as int));
                assert(path@ + dotted(rest.skip(1)) =~= before + dotted(rest));
            }
        }
    }
    assert(path@ + dotted(chars@.skip(n as int)) =~= path@);
    path
}

/// Tells whether no key of the path is empty.
pub fn has_keys(path: &Vec<char>) -> (answer: bool)
    ensures
        answer == keys_present(path@),
{
    let n = path.len();
    if n == 0 || path[0] == '.' || path[n - 1] == '.' {
        return false;
    }
    let mut i: usize = 0;
    while i + 1 < n
        invariant
            n == path@.len(),
            n > 0,
            i < n,
            forall|k: int| 0 <= k < i ==> !(#[trigger] path@[k] == '.' && path@[k + 1] == '.'),
        decreases n - i,
    {
        if path[i] == '.' && path[i + 1] == '.' {
            return false;
        }
        i += 1;
    }
    true
}

/// Lower-cases the ASCII letters of `chars`.
pub fn lower_text(chars: &Vec<char>) -> (text: String)
    ensures
        text@ == ascii_lower_text(chars@),
{
    let mut text = String::new();
    let mut i: usize = 0;
    while i < chars.len()
        invariant
            i <= chars@.len(),
            text@ == ascii_lower_text(chars@.take(i as int)),
        decreases chars@.len() - i,
    {
        push_char(&mut text, to_ascii_lower(chars[i]));
        i += 1;
        assert(ascii_lower_text(chars@.take(i as int)) =~= ascii_lower_text(
            chars@.take(i - 1),
        ).push(ascii_lower(chars@[i - 1])));
    }
    assert(chars@.take(chars@.len() as int) =~= chars@);
    text
}

/// The key path that the environment variable `name` sets, or `None` where
/// the variable is none of the application's or names no key.
pub fn variable_key_path(name: &str) -> (path: Option<String>)
    ensures
        (path is Some) == (key_path(name@) is Some),
        path matches Some(p) ==> key_path(name@) == Some(p@),
{
    let name = trim(&chars_of(name));
    let marker: Vec<char> = vec!['A', 'P', 'P', '_'];
    assert(marker@ =~= prefix());
    if !has_prefix(&name, &marker) {
        return None;
    }
    let path = trim(&split_keys(&name, marker.len()));
    if has_keys(&path) {
        Some(lower_text(&path))
    } else {
        None
    }
}

/// A key path that a variable sets has no empty key: it is not empty, does
/// not start or end with a dot, and holds no two dots in a row.
pub proof fn key_path_has_keys(name: Seq<char>)
    ensures
        key_path(name) matches Some(path) ==> keys_present(path),
{
}

} // verus!
