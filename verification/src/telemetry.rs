//! The choice of the logging filter.
//!
//! The filter is given as directives, the text that `tracing_subscriber`
//! reads a filter from. The process may set them from outside; where it sets
//! none, or text that is no filter, the level `info` is used.

use crate::environment::{is_whitespace, whitespace};
use crate::utils::{chars_of, wide};
use vstd::prelude::*;
use vstd::string::StringExecFns;

verus! {

/// Whether `directives` is text that `EnvFilter::try_new` of
/// `tracing_subscriber` makes a filter from.
pub uninterp spec fn filter_accepts(directives: Seq<char>) -> bool;

/// Whether a directive starts at position `i` of `s`: at the start of `s`
/// or right after a comma.
pub open spec fn starts_directive(s: Seq<char>, i: int) -> bool {
    i == 0 || s[i - 1] == ','
}

/// Whether no comma stands in `s` from position `i` up to `j`, `j` itself
/// left out.
pub open spec fn unbroken(s: Seq<char>, i: int, j: int) -> bool {
    forall|k: int| i <= k < j ==> s[k] != ','
}

/// Whether `s` is text that the parser of directives can be given: each
/// directive, a part between commas, that starts with white space is all
/// ASCII.
pub open spec fn plain(s: Seq<char>) -> bool {
    forall|i: int, j: int|
        #![trigger unbroken(s, i, j)]
        0 <= i <= j < s.len() && starts_directive(s, i) && whitespace(s[i]) && unbroken(s, i, j)
            ==> !wide(s[j])
}

/// Tells whether `text` is plain.
pub fn is_plain(text: &str) -> (answer: bool)
    ensures
        answer == plain(text@),
{
    let chars = chars_of(text);
    let n = chars.len();
    let mut start: usize = 0;
    let mut guarded = false;
    let mut j: usize = 0;
    while j < n
        invariant
            chars@ == text@,
            n == chars@.len(),
            start <= j <= n,
            starts_directive(chars@, start as int),
            unbroken(chars@, start as int, j as int),
            guarded == (start < j && whitespace(chars@[start as int])),
            forall|a: int, b: int|
                #![trigger unbroken(chars@, a, b)]
                0 <= a <= b < j && starts_directive(chars@, a) && whitespace(chars@[a])
                    && unbroken(chars@, a, b) ==> !wide(chars@[b]),
        decreases n - j,
    {
        let c = chars[j];
        if start == j {
            guarded = is_whitespace(c);
        }
        let code: u32 = c as u32;
        if guarded && code >= 128 {
            assert(unbroken(text@, start as int, j as int));
            return false;
        }
        proof {
            assert forall|a: int, b: int|
                0 <= a <= b < j + 1 && starts_directive(chars@, a) && whitespace(chars@[a])
                    && #[trigger] unbroken(chars@, a, b) implies !wide(chars@[b]) by {
                if b == j {
                    if a < start {
                        assert(chars@[start - 1] == ',');
                    } else if a > start {
                        assert(chars@[a - 1] == ',');
                    }
                }
            }
        }
        if c == ',' {
            start = j + 1;
            guarded = false;
        }
        j += 1;
    }
    true
}

/// `EnvFilter::try_new` of `tracing_subscriber`, asked only whether it
/// succeeds: it does unless one of the directives between the commas does
/// not parse. The parser drops white space at the start of a directive and
/// then cuts the directive at byte positions of what is left; in a
/// directive that starts with white space and holds a character outside
/// ASCII such a cut can fall inside a character, which stops the program.
#[verifier::external_body]
pub(crate) fn parses_as_filter(directives: &str) -> (answer: bool)
    requires
        plain(directives@),
    ensures
        answer == filter_accepts(directives@),
{
    tracing_subscriber::EnvFilter::try_new(directives).is_ok()
}

/// The directives used where none are set.
pub open spec fn default_directives() -> Seq<char> {
    "info"@
}

/// The directives to use: those that were set, if any were and they are
/// accepted, else the default.
pub open spec fn chosen(setting: Option<Seq<char>>, accepted: bool) -> Seq<char> {
    match setting {
        Some(directives) if accepted => directives,
        _ => default_directives(),
    }
}

/// Chooses the directives, given what was set and whether that is accepted
/// as a filter.
pub fn choose_directives(setting: Option<&str>, accepted: bool) -> (directives: String)
    ensures
        directives@ == chosen(
            match setting {
                Some(text) => Some(text@),
                None => None,
            },
            accepted,
        ),
{
    match setting {
        Some(text) if accepted => String::from_str(text),
        _ => String::from_str("info"),
    }
}

/// The directives to build the logging filter from, given what the process
/// was set to use: that setting where it is plain and a filter, else `info`.
pub fn filter_directives(setting: Option<&str>) -> (directives: String)
    ensures
        directives@ == match setting {
            Some(text) => chosen(Some(text@), plain(text@) && filter_accepts(text@)),
            None => default_directives(),
        },
{
    match setting {
        Some(text) => {
            let accepted = is_plain(text) && parses_as_filter(text);
            choose_directives(setting, accepted)
        },
        None => choose_directives(setting, false),
    }
}

} // verus!
