use toolbench::identifier::{generate_uuid_v4, generate_uuid_v7};

fn is_canonical(text: &str) -> bool {
    let chars: Vec<char> = text.chars().collect();
    chars.len() == 36
        && chars.iter().enumerate().all(|(i, c)| {
            if i == 8 || i == 13 || i == 18 || i == 23 {
                *c == '-'
            } else {
                c.is_ascii_digit() || ('a'..='f').contains(c)
            }
        })
}

#[test]
fn random_identifier_is_canonical_and_of_version_four() {
    let text = generate_uuid_v4();
    assert!(is_canonical(&text));
    assert_eq!(text.chars().nth(14), Some('4'));
    assert!(matches!(text.chars().nth(19), Some('8') | Some('9') | Some('a') | Some('b')));
}

#[test]
fn timed_identifier_is_canonical_and_of_version_seven() {
    let text = generate_uuid_v7();
    assert!(is_canonical(&text));
    assert_eq!(text.chars().nth(14), Some('7'));
    assert!(matches!(text.chars().nth(19), Some('8') | Some('9') | Some('a') | Some('b')));
}

#[test]
fn identifiers_differ() {
    assert_ne!(generate_uuid_v4(), generate_uuid_v4());
    assert_ne!(generate_uuid_v7(), generate_uuid_v7());
}

#[test]
fn timed_identifiers_are_ordered_by_their_making() {
    let earlier = generate_uuid_v7();
    let later = generate_uuid_v7();
    assert!(earlier < later);
}
