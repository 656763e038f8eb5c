use toolbench::error::{Error, OptionsFault};
use toolbench::password::{charset, draw, generate_password, spell, validate, PasswordOptions};

const UPPER: &str = "ABCDEFGHIJKLMNOPQRSTUVWXYZ";
const LOWER: &str = "abcdefghijklmnopqrstuvwxyz";
const DIGITS: &str = "0123456789";
const SYMBOLS: &str = "!@#$%^&*()_+-=[]{}|;:,.<>?";

fn options(length: usize, upper: bool, lower: bool, numbers: bool, symbols: bool) -> PasswordOptions {
    PasswordOptions {
        length,
        include_uppercase: upper,
        include_lowercase: lower,
        include_numbers: numbers,
        include_symbols: symbols,
    }
}

#[test]
fn password_has_the_length_asked_for() {
    for length in [4usize, 5, 16, 64, 1000] {
        let password = generate_password(&options(length, true, true, true, true)).unwrap();
        assert_eq!(password.chars().count(), length);
    }
}

#[test]
fn every_character_is_of_a_selected_class() {
    let only_digits = generate_password(&options(200, false, false, true, false)).unwrap();
    assert!(only_digits.chars().all(|c| DIGITS.contains(c)));
    let only_upper = generate_password(&options(200, true, false, false, false)).unwrap();
    assert!(only_upper.chars().all(|c| UPPER.contains(c)));
    let only_lower = generate_password(&options(200, false, true, false, false)).unwrap();
    assert!(only_lower.chars().all(|c| LOWER.contains(c)));
    let only_symbols = generate_password(&options(200, false, false, false, true)).unwrap();
    assert!(only_symbols.chars().all(|c| SYMBOLS.contains(c)));
    let letters = generate_password(&options(200, true, true, false, false)).unwrap();
    assert!(letters.chars().all(|c| UPPER.contains(c) || LOWER.contains(c)));
}

#[test]
fn no_class_selected_is_refused() {
    assert_eq!(
        generate_password(&options(12, false, false, false, false)),
        Err(Error::InvalidOptions(OptionsFault::NoCharacterClass))
    );
}

#[test]
fn length_three_is_refused() {
    assert_eq!(
        generate_password(&options(3, true, true, true, true)),
        Err(Error::InvalidOptions(OptionsFault::PasswordTooShort))
    );
    assert_eq!(
        generate_password(&options(0, true, true, true, true)),
        Err(Error::InvalidOptions(OptionsFault::PasswordTooShort))
    );
}

#[test]
fn length_is_held_against_the_rule_first() {
    assert_eq!(
        generate_password(&options(3, false, false, false, false)),
        Err(Error::InvalidOptions(OptionsFault::PasswordTooShort))
    );
    assert_eq!(validate(&options(4, false, false, false, true)), Ok(()));
    assert_eq!(
        validate(&options(4, false, false, false, false)),
        Err(Error::InvalidOptions(OptionsFault::NoCharacterClass))
    );
}

#[test]
fn length_four_is_accepted() {
    let password = generate_password(&options(4, false, true, false, false)).unwrap();
    assert_eq!(password.len(), 4);
}

#[test]
fn character_set_joins_the_selected_classes_in_order() {
    assert_eq!(charset(&options(8, true, true, true, true)), format!("{}{}{}{}", UPPER, LOWER, DIGITS, SYMBOLS));
    assert_eq!(charset(&options(8, false, true, false, true)), format!("{}{}", LOWER, SYMBOLS));
    assert_eq!(charset(&options(8, true, false, true, false)), format!("{}{}", UPPER, DIGITS));
    assert_eq!(charset(&options(8, false, false, false, false)), "");
}

#[test]
fn picks_spell_a_word() {
    assert_eq!(spell("abcdef", &vec![5, 0, 2, 2, 4]), "facce");
    assert_eq!(spell("abcdef", &vec![]), "");
    assert_eq!(spell("x", &vec![0, 0, 0]), "xxx");
    assert_eq!(spell("a\u{e9}z", &vec![1, 2, 0]), "\u{e9}za");
}

#[test]
fn draws_stay_below_the_bound() {
    let picks = draw(500, 7);
    assert_eq!(picks.len(), 500);
    assert!(picks.iter().all(|p| *p < 7));
    assert_eq!(draw(10, 1), vec![0usize; 10]);
    assert_eq!(draw(0, 3), Vec::<usize>::new());
}

#[test]
fn draws_vary() {
    let picks = draw(400, 1000);
    let first: usize = picks[0];
    assert!(picks.iter().any(|p| *p != first));
}
