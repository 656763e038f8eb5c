//! Letter case and equality of text, as the standard library computes them.

use vstd::prelude::*;

verus! {

/// The lower-case form of a text under Unicode's case mapping.
pub uninterp spec fn unicode_lower(text: Seq<char>) -> Seq<char>;

/// The upper-case form of a text under Unicode's case mapping.
pub uninterp spec fn unicode_upper(text: Seq<char>) -> Seq<char>;

/// Whether every character of `text` is an ASCII character.
pub open spec fn is_ascii_text(text: Seq<char>) -> bool {
    forall|i: int| 0 <= i < text.len() ==> (#[trigger] text[i] as u32) < 128
}

/// Whether `c` is a hexadecimal digit in lower case.
pub open spec fn is_lower_hex(c: char) -> bool {
    ('0' <= c <= '9') || ('a' <= c <= 'f')
}

/// `c` with an ASCII capital letter replaced by its small letter.
pub open spec fn ascii_lower_char(c: char) -> char {
    if 'A' <= c <= 'Z' {
        ((c as u8) + 32) as char
    } else {
        c
    }
}

/// `c` with an ASCII small letter replaced by its capital letter.
pub open spec fn ascii_upper_char(c: char) -> char {
    if 'a' <= c <= 'z' {
        ((c as u8) - 32) as char
    } else {
        c
    }
}

/// `text` with each ASCII capital letter replaced by its small letter.
pub open spec fn ascii_lower(text: Seq<char>) -> Seq<char> {
    Seq::new(text.len(), |i: int| ascii_lower_char(text[i]))
}

/// `text` with each ASCII small letter replaced by its capital letter.
pub open spec fn ascii_upper(text: Seq<char>) -> Seq<char> {
    Seq::new(text.len(), |i: int| ascii_upper_char(text[i]))
}

/// `str::to_lowercase` returns the Unicode lower-case form of the text.
/// On a text of ASCII characters alone that form replaces the capital
/// letters `A` to `Z` by `a` to `z` and keeps every other character.
pub assume_specification[ str::to_lowercase ](text: &str) -> (lower: String)
    ensures
        lower@ == unicode_lower(text@),
        is_ascii_text(text@) ==> lower@ == ascii_lower(text@),
;

/// `str::to_uppercase` returns the Unicode upper-case form of the text.
/// On a text of ASCII characters alone that form replaces the small
/// letters `a` to `z` by `A` to `Z` and keeps every other character.
pub assume_specification[ str::to_uppercase ](text: &str) -> (upper: String)
    ensures
        upper@ == unicode_upper(text@),
        is_ascii_text(text@) ==> upper@ == ascii_upper(text@),
;

/// Two string slices are equal exactly when they hold the same characters.
pub assume_specification[ <str as PartialEq>::eq ](a: &str, b: &str) -> (equal: bool)
    ensures
        equal == (a@ == b@),
;

/// `String::push` appends one character to the end of the string.
pub assume_specification[ String::push ](text: &mut String, c: char)
    ensures
        final(text)@ == old(text)@.push(c),
;

} // verus!
