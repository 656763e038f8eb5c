//! Universally unique identifiers, as text.

use crate::text::is_lower_hex;
use vstd::prelude::*;

verus! {

/// Whether `text` has the canonical shape of an identifier: 36 characters,
/// hyphens after the eighth, twelfth, sixteenth and twentieth digit, and
/// hexadecimal digits in lower case everywhere else.
pub open spec fn is_canonical(text: Seq<char>) -> bool {
    &&& text.len() == 36
    &&& forall|i: int|
        0 <= i < 36 ==> if i == 8 || i == 13 || i == 18 || i == 23 {
            #[trigger] text[i] == '-'
        } else {
            is_lower_hex(text[i])
        }
}

/// Whether a canonical text carries the version digit `version` and the
/// variant of the standard.
pub open spec fn has_version(text: Seq<char>, version: char) -> bool {
    &&& text[14] == version
    &&& (text[19] == '8' || text[19] == '9' || text[19] == 'a' || text[19] == 'b')
}

/// `Uuid::new_v4` makes a random identifier of version 4, and its text is
/// the hyphenated form in lower case.
#[verifier::external_body]
fn random_identifier() -> (text: String)
    ensures
        is_canonical(text@),
        has_version(text@, '4'),
{
    uuid::Uuid::new_v4().to_string()
}

/// `Uuid::now_v7` makes an identifier of version 7 from the clock and
/// random bits, and its text is the hyphenated form in lower case.
#[verifier::external_body]
fn timed_identifier() -> (text: String)
    ensures
        is_canonical(text@),
        has_version(text@, '7'),
{
    uuid::Uuid::now_v7().to_string()
}

/// A fresh random identifier, in canonical text.
pub fn generate_uuid_v4() -> (text: String)
    ensures
        is_canonical(text@),
        has_version(text@, '4'),
{
    random_identifier()
}

/// A fresh identifier that begins with the time of its making, in
/// canonical text.
pub fn generate_uuid_v7() -> (text: String)
    ensures
        is_canonical(text@),
        has_version(text@, '7'),
{
    timed_identifier()
}

} // verus!
