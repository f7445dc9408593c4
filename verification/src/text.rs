//! Title validation: a submitted title must contain at least one
//! non-whitespace character.

use vstd::prelude::*;

verus! {

/// Whitespace for the purpose of title validation: the Unicode
/// white-space characters, the same set that trimming a string removes.
pub open spec fn is_space_char(c: char) -> bool {
    c == ' ' || c == '\t' || c == '\n' || c == '\u{b}' || c == '\u{c}' || c == '\r' || c
        == '\u{85}' || c == '\u{a0}' || c == '\u{1680}' || ('\u{2000}' <= c && c <= '\u{200a}')
        || c == '\u{2028}' || c == '\u{2029}' || c == '\u{202f}' || c == '\u{205f}' || c
        == '\u{3000}'
}

/// A blank string is one with no non-whitespace character; the empty
/// string is blank.
pub open spec fn is_blank(s: Seq<char>) -> bool {
    forall|i: int| 0 <= i < s.len() ==> is_space_char(s[i])
}

/// Whether one character counts as whitespace.
fn is_space(c: char) -> (space: bool)
    ensures
        space == is_space_char(c),
{
    c == ' ' || c == '\t' || c == '\n' || c == '\u{b}' || c == '\u{c}' || c == '\r' || c
        == '\u{85}' || c == '\u{a0}' || c == '\u{1680}' || ('\u{2000}' <= c && c <= '\u{200a}')
        || c == '\u{2028}' || c == '\u{2029}' || c == '\u{202f}' || c == '\u{205f}' || c
        == '\u{3000}'
}

/// A title is accepted exactly when it is not blank: trimming whitespace
/// from both ends would leave it non-empty.
pub fn title_is_valid(title: &String) -> (valid: bool)
    ensures
        valid == !is_blank(title@),
{
    let text = title.as_str();
    let len = text.unicode_len();
    let mut i: usize = 0;
    while i < len
        invariant
            len == text@.len(),
            text@ == title@,
            i <= len,
            forall|j: int| 0 <= j < i ==> is_space_char(title@[j]),
        decreases len - i,
    {
        let c = text.get_char(i);
        if !is_space(c) {
            return true;
        }
        i += 1;
    }
    false
}

} // verus!
