//! Text primitives: the few `str` and `char` operations of std that the
//! protocol logic relies on, and blank-line detection built on them.

use vstd::prelude::*;

verus! {

/// Whether `c` has the Unicode `White_Space` property, as `char::is_whitespace`
/// decides it.
pub uninterp spec fn white_space(c: char) -> bool;

/// Calls `char::is_whitespace`. The contract claims only that the answer is the
/// fixed property `white_space` of the character.
#[verifier::external_body]
fn char_is_whitespace(c: char) -> (r: bool)
    ensures
        r == white_space(c),
{
    c.is_whitespace()
}

/// Calls `<str as PartialEq>::eq`. The contract claims that two string slices
/// are equal exactly when they hold the same characters.
#[verifier::external_body]
pub(crate) fn str_equals(a: &str, b: &str) -> (r: bool)
    ensures
        r == (a@ == b@),
{
    a == b
}

/// Calls `str::starts_with` with a string pattern. The contract claims that the
/// answer is whether `prefix` is a prefix of `s`.
#[verifier::external_body]
pub(crate) fn str_starts_with(s: &str, prefix: &str) -> (r: bool)
    ensures
        r == prefix@.is_prefix_of(s@),
{
    s.starts_with(prefix)
}

/// Calls `String::push`. The contract claims that the character is appended.
#[verifier::external_body]
pub(crate) fn string_push(s: &mut String, c: char)
    ensures
        final(s)@ == old(s)@.push(c),
{
    s.push(c)
}

/// A line is blank when every character in it is white space
/// (so `trim` would leave nothing of it).
pub open spec fn blank(s: Seq<char>) -> bool {
    forall|i: int| 0 <= i < s.len() ==> white_space(#[trigger] s[i])
}

/// Decides whether a line holds nothing but white space.
pub fn is_blank_line(line: &str) -> (r: bool)
    ensures
        r == blank(line@),
{
    broadcast use vstd::string::axiom_spec_iter;
    let mut all_white = true;
    for c in it: line.chars()
        invariant
            it.seq() == line@,
            all_white == (forall|j: int| 0 <= j < it.index() ==> white_space(#[trigger] line@[j])),
    {
        if !char_is_whitespace(c) {
            all_white = false;
        }
    }
    all_white
}

} // verus!
