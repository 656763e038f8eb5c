//! Passwords of a chosen length, drawn from chosen classes of characters.

use crate::error::{Error, ErrorView, OptionsFault, OptionsFaultView};
use rand::Rng;
use vstd::prelude::*;
use vstd::string::{StrSliceExecFns, StringExecFns};

verus! {

/// What a password is to be made of.
#[derive(Clone, Copy, Debug, PartialEq, Eq, Structural)]
pub struct PasswordOptions {
    pub length: usize,
    pub include_uppercase: bool,
    pub include_lowercase: bool,
    pub include_numbers: bool,
    pub include_symbols: bool,
}

/// The capital letters.
pub open spec fn uppercase_letters() -> Seq<char> {
    "ABCDEFGHIJKLMNOPQRSTUVWXYZ"@
}

/// The small letters.
pub open spec fn lowercase_letters() -> Seq<char> {
    "abcdefghijklmnopqrstuvwxyz"@
}

/// The digits.
pub open spec fn numbers() -> Seq<char> {
    "0123456789"@
}

/// The symbols.
pub open spec fn symbols() -> Seq<char> {
    "!@#$%^&*()_+-=[]{}|;:,.<>?"@
}

/// `class` where it is selected, else nothing.
pub open spec fn selected(chosen: bool, class: Seq<char>) -> Seq<char> {
    if chosen {
        class
    } else {
        Seq::empty()
    }
}

/// The characters that a password under `options` is drawn from: the
/// selected classes, one after the other.
pub open spec fn charset_of(options: PasswordOptions) -> Seq<char> {
    selected(options.include_uppercase, uppercase_letters()) + selected(
        options.include_lowercase,
        lowercase_letters(),
    ) + selected(options.include_numbers, numbers()) + selected(options.include_symbols, symbols())
}

/// Whether `c` belongs to a class that `options` selects.
pub open spec fn in_selected_class(options: PasswordOptions, c: char) -> bool {
    ||| options.include_uppercase && uppercase_letters().contains(c)
    ||| options.include_lowercase && lowercase_letters().contains(c)
    ||| options.include_numbers && numbers().contains(c)
    ||| options.include_symbols && symbols().contains(c)
}

/// Whether `options` selects at least one class.
pub open spec fn selects_a_class(options: PasswordOptions) -> bool {
    options.include_uppercase || options.include_lowercase || options.include_numbers || options.include_symbols
}

/// The capital letters are `A` to `Z`, the small letters `a` to `z` and
/// the digits `0` to `9`.
pub proof fn lemma_letters_and_numbers(c: char)
    ensures
        uppercase_letters().contains(c) <==> 'A' <= c <= 'Z',
        lowercase_letters().contains(c) <==> 'a' <= c <= 'z',
        numbers().contains(c) <==> '0' <= c <= '9',
{
    reveal_strlit("ABCDEFGHIJKLMNOPQRSTUVWXYZ");
    reveal_strlit("abcdefghijklmnopqrstuvwxyz");
    reveal_strlit("0123456789");
    let upper = uppercase_letters();
    let lower = lowercase_letters();
    let digits = numbers();
    assert forall|i: int| 0 <= i < 26 implies #[trigger] upper[i] as int == 65 + i by {}
    assert forall|i: int| 0 <= i < 26 implies #[trigger] lower[i] as int == 97 + i by {}
    assert forall|i: int| 0 <= i < 10 implies #[trigger] digits[i] as int == 48 + i by {}
    if 'A' <= c <= 'Z' {
        assert(upper[c as int - 65] == c);
    }
    if 'a' <= c <= 'z' {
        assert(lower[c as int - 97] == c);
    }
    if '0' <= c <= '9' {
        assert(digits[c as int - 48] == c);
    }
}

/// The character set holds exactly the characters of the selected classes.
pub proof fn lemma_charset_is_selected_classes(options: PasswordOptions, c: char)
    ensures
        charset_of(options).contains(c) <==> in_selected_class(options, c),
{
    let a = selected(options.include_uppercase, uppercase_letters());
    let b = selected(options.include_lowercase, lowercase_letters());
    let d = selected(options.include_numbers, numbers());
    let e = selected(options.include_symbols, symbols());
    lemma_contains_of_concat(a, b, c);
    lemma_contains_of_concat(a + b, d, c);
    lemma_contains_of_concat(a + b + d, e, c);
}

/// A character is in a concatenation exactly when it is in one of the two
/// parts.
pub proof fn lemma_contains_of_concat(first: Seq<char>, second: Seq<char>, c: char)
    ensures
        (first + second).contains(c) <==> first.contains(c) || second.contains(c),
{
    let whole = first + second;
    if whole.contains(c) {
        let i = choose|i: int| 0 <= i < whole.len() && whole[i] == c;
        if i < first.len() {
            assert(first[i] == c);
        } else {
            assert(second[i - first.len()] == c);
        }
    }
    if first.contains(c) {
        let i = choose|i: int| 0 <= i < first.len() && first[i] == c;
        assert(whole[i] == c);
    }
    if second.contains(c) {
        let i = choose|i: int| 0 <= i < second.len() && second[i] == c;
        assert(whole[first.len() + i] == c);
    }
}

/// The character set under `options`.
pub fn charset(options: &PasswordOptions) -> (set: String)
    ensures
        set@ == charset_of(*options),
{
    let mut set = String::new();
    if options.include_uppercase {
        set.append("ABCDEFGHIJKLMNOPQRSTUVWXYZ");
    }
    if options.include_lowercase {
        set.append("abcdefghijklmnopqrstuvwxyz");
    }
    if options.include_numbers {
        set.append("0123456789");
    }
    if options.include_symbols {
        set.append("!@#$%^&*()_+-=[]{}|;:,.<>?");
    }
    assert(set@ =~= charset_of(*options));
    set
}

/// `rand::Rng::gen_range` on the thread's generator draws a number from
/// `0..bound`. It panics on an empty range, so the bound is positive.
#[verifier::external_body]
fn random_below(bound: usize) -> (index: usize)
    requires
        bound > 0,
    ensures
        index < bound,
{
    rand::thread_rng().gen_range(0..bound)
}

/// Draws `count` numbers below `bound`.
pub fn draw(count: usize, bound: usize) -> (picks: Vec<usize>)
    requires
        bound > 0,
    ensures
        picks@.len() == count,
        forall|i: int| 0 <= i < count ==> picks@[i] < bound,
{
    let mut picks: Vec<usize> = Vec::new();
    let mut i: usize = 0;
    while i < count
        invariant
            i <= count,
            bound > 0,
            picks@.len() == i,
            forall|j: int| 0 <= j < i ==> picks@[j] < bound,
        decreases count - i,
    {
        picks.push(random_below(bound));
        i = i + 1;
    }
    picks
}

/// The word that `picks` spell in `set`: for each pick the character at
/// that place.
pub open spec fn spelled(set: Seq<char>, picks: Seq<usize>) -> Seq<char> {
    Seq::new(picks.len(), |i: int| set[picks[i] as int])
}

/// Spells the word that `picks` select from `set`.
pub fn spell(set: &str, picks: &Vec<usize>) -> (word: String)
    requires
        forall|i: int| 0 <= i < picks@.len() ==> picks@[i] < set@.len(),
    ensures
        word@ == spelled(set@, picks@),
{
    let mut word = String::new();
    let mut i: usize = 0;
    while i < picks.len()
        invariant
            i <= picks@.len(),
            forall|j: int| 0 <= j < picks@.len() ==> picks@[j] < set@.len(),
            word@.len() == i,
            forall|j: int| 0 <= j < i ==> word@[j] == set@[picks@[j] as int],
        decreases picks@.len() - i,
    {
        word.push(set.get_char(picks[i]));
        i = i + 1;
    }
    assert(word@ =~= spelled(set@, picks@));
    word
}

/// The failure that `options` are refused with, if they are: a length
/// below four first, then no class selected.
pub open spec fn refusal(options: PasswordOptions) -> Option<ErrorView> {
    if options.length < 4 {
        Some(ErrorView::InvalidOptions(OptionsFaultView::PasswordTooShort))
    } else if !selects_a_class(options) {
        Some(ErrorView::InvalidOptions(OptionsFaultView::NoCharacterClass))
    } else {
        None
    }
}

/// Options are refused exactly when the length is below four or no class
/// is selected, and each refusal is one of invalid options.
pub proof fn lemma_refusal(options: PasswordOptions)
    ensures
        refusal(options) is Some <==> options.length < 4 || !selects_a_class(options),
        refusal(options) matches Some(e) ==> e is InvalidOptions,
{
}

/// Holds `options` against the rules for a password.
pub fn validate(options: &PasswordOptions) -> (outcome: Result<(), Error>)
    ensures
        match outcome {
            Ok(_) => refusal(*options) is None,
            Err(error) => refusal(*options) == Some(error@),
        },
{
    if options.length < 4 {
        Err(Error::InvalidOptions(OptionsFault::PasswordTooShort))
    } else if !options.include_uppercase && !options.include_lowercase && !options.include_numbers
        && !options.include_symbols {
        Err(Error::InvalidOptions(OptionsFault::NoCharacterClass))
    } else {
        Ok(())
    }
}

/// With a class selected the character set is not empty.
pub proof fn lemma_charset_not_empty(options: PasswordOptions)
    requires
        selects_a_class(options),
    ensures
        charset_of(options).len() > 0,
{
    reveal_strlit("ABCDEFGHIJKLMNOPQRSTUVWXYZ");
    reveal_strlit("abcdefghijklmnopqrstuvwxyz");
    reveal_strlit("0123456789");
    reveal_strlit("!@#$%^&*()_+-=[]{}|;:,.<>?");
}

/// Generates a password of `options.length` characters, each drawn from
/// the classes that `options` selects.
///
/// It fails on a length below four, and else where no class is selected.
pub fn generate_password(options: &PasswordOptions) -> (outcome: Result<String, Error>)
    ensures
        match outcome {
            Ok(password) => {
                &&& refusal(*options) is None
                &&& password@.len() == options.length
                &&& forall|i: int|
                    0 <= i < password@.len() ==> in_selected_class(*options, #[trigger] password@[i])
            },
            Err(error) => refusal(*options) == Some(error@),
        },
{
    validate(options)?;
    let set = charset(options);
    proof {
        lemma_charset_not_empty(*options);
    }
    let picks = draw(options.length, set.as_str().unicode_len());
    let password = spell(set.as_str(), &picks);
    proof {
        assert forall|i: int| 0 <= i < password@.len() implies in_selected_class(
            *options,
            #[trigger] password@[i],
        ) by {
            assert(set@[picks@[i] as int] == password@[i]);
            assert(set@.contains(password@[i]));
            lemma_charset_is_selected_classes(*options, password@[i]);
        }
    }
    Ok(password)
}

} // verus!
