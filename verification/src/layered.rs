//! Layered configuration values, combined and read by the `figment` crate.
//!
//! No function of this file is proved: each states what the `figment` call
//! in its body does, and the rest of the library reasons from that.

use crate::utils::{occurrences, wide};
use figment::providers::Format;
use vstd::prelude::*;

verus! {

/// `figment::Figment`, a combiner of configuration sources.
#[verifier::external_type_specification]
#[verifier::external_body]
pub struct ExFigment(figment::Figment);

/// `figment::Error`, the failure of a merge or of an extraction.
#[verifier::external_type_specification]
#[verifier::external_body]
pub struct ExFigmentError(figment::Error);

/// One source of configuration values.
pub enum Layer {
    /// A TOML document, by its text.
    Document(Seq<char>),
    /// One value at a key path (`a.b.c`), by its text as an environment
    /// variable would hold it.
    Entry(Seq<char>, Seq<char>),
    /// Sources that were merged with one another first, and are then merged
    /// as one.
    Group(Seq<Layer>),
}

/// The stack, in KiB, that figment takes for each key of an entry's path
/// when it makes, merges and drops the nested tables.
pub const KEY_STACK: usize = 3;

/// The stack, in KiB, that figment's reader of values takes for each array
/// or table that a value opens inside another. About 26 KiB were seen.
pub const LEVEL_STACK: usize = 28;

/// The stack, in KiB, that one entry may take: half of the 2 MiB that a
/// thread gets by default.
pub const STACK_BUDGET: usize = 1024;

/// Whether `c` is one of the five characters that figment's reader of
/// values skips as white space.
pub open spec fn ascii_space(c: char) -> bool {
    let code = c as u32;
    code == 0x20 || code == 0x09 || code == 0x0A || code == 0x0C || code == 0x0D
}

/// The first character of `value` after the white space at its start, by
/// which figment's reader decides what the value is.
pub open spec fn first_mark(value: Seq<char>) -> Option<char>
    decreases value.len(),
{
    if value.len() == 0 {
        None
    } else if ascii_space(value[0]) {
        first_mark(value.skip(1))
    } else {
        Some(value[0])
    }
}

/// Whether figment reads `value` as an array or a table, which is when it
/// calls itself for what is inside: the first mark is `[` or `{`.
pub open spec fn reads_nested(value: Seq<char>) -> bool {
    first_mark(value) == Some('[') || first_mark(value) == Some('{')
}

/// Whether figment can come to read a text in double quotes in `value`:
/// the value is such a text, or an array or a table, which may hold some.
pub open spec fn reads_quotes(value: Seq<char>) -> bool {
    reads_nested(value) || (first_mark(value) matches Some(c) && c as u32 == 0x22)
}

/// How many keys the path `key` holds, one more than it holds dots.
pub open spec fn keys_in(key: Seq<char>) -> nat {
    occurrences(key, '.') + 1
}

/// How many arrays and tables `value` can open at most: every `[` and `{`
/// in it where it is read as an array or a table, none where it is read as
/// a number or as text. This counts the brackets, whether or not one stands
/// inside another, so it is an upper bound on the depth.
pub open spec fn opened_in(value: Seq<char>) -> nat {
    if reads_nested(value) {
        occurrences(value, '[') + occurrences(value, '{')
    } else {
        0
    }
}

/// An upper bound, in KiB, on the stack that figment takes for an entry.
pub open spec fn stack_need(key: Seq<char>, value: Seq<char>) -> int {
    KEY_STACK * keys_in(key) + LEVEL_STACK * opened_in(value)
}

/// Whether an entry stays within the stack budget.
pub open spec fn within_budget(key: Seq<char>, value: Seq<char>) -> bool {
    stack_need(key, value) <= STACK_BUDGET
}

/// Whether `c` is a double quote or a backslash.
pub open spec fn quote_or_backslash(c: char) -> bool {
    c as u32 == 0x22 || c as u32 == 0x5C
}

/// Whether neither a double quote nor a backslash stands in `value` after
/// position `a` and before position `c`.
pub open spec fn open_run(value: Seq<char>, a: int, c: int) -> bool {
    forall|k: int| a < k < c ==> !quote_or_backslash(#[trigger] value[k])
}

/// Whether no text in double quotes that figment reads in `value` can hold
/// a character outside ASCII before its first backslash: figment reads no
/// such text in `value`, or nowhere in `value` does a character outside
/// ASCII stand between a double quote and a backslash with neither a double
/// quote nor a backslash between those two.
pub open spec fn escapes_cleanly(value: Seq<char>) -> bool {
    reads_quotes(value) ==> forall|a: int, b: int, c: int|
        #![trigger open_run(value, a, c), wide(value[b])]
        0 <= a < b < c < value.len() && value[a] as u32 == 0x22 && value[c] as u32 == 0x5C
            && open_run(value, a, c) ==> !wide(value[b])
}

/// The sources that were merged into a figment, the first merged first.
pub uninterp spec fn figment_layers(figment: figment::Figment) -> Seq<Layer>;

/// The text that `layers`, merged in order, hold at `path`; `None` where a
/// layer is malformed, nothing is at `path`, or what is there is no text.
/// In the value of an entry figment reads digits as a number where they fit
/// the target's `usize` and as text where they do not, so the answer
/// depends on the width of `usize` in bits, `word_bits`.
pub uninterp spec fn text_at(layers: Seq<Layer>, path: Seq<char>, word_bits: u32) -> Option<
    Seq<char>,
>;

/// The number that `layers`, merged in order, hold at `path`; `None` where
/// a layer is malformed, nothing is at `path`, or what is there is not an
/// integer from 0 to 65535.
pub uninterp spec fn port_at(layers: Seq<Layer>, path: Seq<char>) -> Option<u16>;

/// `Figment::new`: a figment with the default profile and no source.
#[verifier::external_body]
pub(crate) fn empty_figment() -> (figment: figment::Figment)
    ensures
        figment_layers(figment) == Seq::<Layer>::empty(),
{
    figment::Figment::new()
}

/// `Figment::merge` of a `Toml::string` provider: the document becomes the
/// last source, so its values replace earlier ones at the same key path. A
/// document that does not parse is kept as well, and makes every later
/// extraction fail.
#[verifier::external_body]
pub(crate) fn merge_document(figment: figment::Figment, text: &str) -> (merged: figment::Figment)
    ensures
        figment_layers(merged) == figment_layers(figment).push(Layer::Document(text@)),
{
    figment.merge(figment::providers::Toml::string(text))
}

/// `Figment::merge` of a `Serialized::default` provider that holds, at the
/// key path `key`, the value that `Value::from_str` reads from `value`: it
/// becomes the last source, so it replaces earlier values at that path.
/// The reader of values calls itself for each array or table inside
/// another, and so do the making, merging and dropping of nested tables
/// for each key, so only an entry within the stack budget is taken. At the
/// first backslash of a text in double quotes the reader cuts that text at
/// the number of characters before the backslash, taken as a number of
/// bytes, which stops the program where the cut falls inside a character,
/// so only a value that escapes cleanly is taken.
#[verifier::external_body]
pub(crate) fn merge_entry(figment: figment::Figment, key: &str, value: &str) -> (merged:
    figment::Figment)
    requires
        within_budget(key@, value@),
        escapes_cleanly(value@),
    ensures
        figment_layers(merged) == figment_layers(figment).push(Layer::Entry(key@, value@)),
{
    let Ok(parsed) = value.parse::<figment::value::Value>();
    figment.merge(figment::providers::Serialized::default(key, parsed))
}

/// `Figment::merge` of another figment: all that `top` holds becomes the last
/// source of `base`, as one.
#[verifier::external_body]
pub(crate) fn merge_group(base: figment::Figment, top: figment::Figment) -> (merged:
    figment::Figment)
    ensures
        figment_layers(merged) == figment_layers(base).push(Layer::Group(figment_layers(top))),
{
    base.merge(top)
}

/// `Figment::extract_inner::<String>`: the text at `path`, or the error that
/// says why there is none.
#[verifier::external_body]
pub(crate) fn extract_text(figment: &figment::Figment, path: &str) -> (found: Result<
    String,
    figment::Error,
>)
    ensures
        (found is Ok) == (text_at(figment_layers(*figment), path@, usize::BITS) is Some),
        found matches Ok(text) ==> text_at(figment_layers(*figment), path@, usize::BITS) == Some(
            text@,
        ),
{
    figment.extract_inner::<String>(path)
}

/// `Figment::extract_inner::<u16>`: the number at `path`, or the error that
/// says why there is none.
#[verifier::external_body]
pub(crate) fn extract_port(figment: &figment::Figment, path: &str) -> (found: Result<
    u16,
    figment::Error,
>)
    ensures
        (found is Ok) == (port_at(figment_layers(*figment), path@) is Some),
        found matches Ok(port) ==> port_at(figment_layers(*figment), path@) == Some(port),
{
    figment.extract_inner::<u16>(path)
}

} // verus!
