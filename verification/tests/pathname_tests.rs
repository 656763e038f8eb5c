use toolbench::format::extension_label;

fn is_portable(path: &[char]) -> bool {
    !path.contains(&'\\') && !path.contains(&':') && !(path.len() >= 2 && path[0] == '/' && path[1] == '/')
}

fn final_name(path: &[char]) -> &[char] {
    match path.iter().rposition(|c| *c == '/') {
        Some(slash) => &path[slash + 1..],
        None => path,
    }
}

fn ends_in_name(path: &[char]) -> bool {
    let name = final_name(path);
    is_portable(path) && (!path.contains(&'/') || (!name.is_empty() && name != ['.']))
}

fn name_extension(name: &[char]) -> Option<&[char]> {
    match name.iter().rposition(|c| *c == '.') {
        None | Some(0) => None,
        Some(_) if name == ['.', '.'] => None,
        Some(dot) => Some(&name[dot + 1..]),
    }
}

fn expected_label(path: &[char]) -> String {
    match name_extension(final_name(path)) {
        Some(extension) => extension.iter().collect::<String>().to_uppercase(),
        None => "UNKNOWN".to_string(),
    }
}

fn check_all(alphabet: &[char], longest: usize) -> usize {
    let mut checked: usize = 0;
    let mut paths: Vec<Vec<char>> = vec![Vec::new()];
    for _ in 0..=longest {
        let mut longer: Vec<Vec<char>> = Vec::new();
        for path in &paths {
            if ends_in_name(path) {
                let text: String = path.iter().collect();
                assert_eq!(extension_label(&text), expected_label(path), "for the path {:?}", text);
                checked += 1;
            }
            for c in alphabet {
                let mut next = path.clone();
                next.push(*c);
                longer.push(next);
            }
        }
        paths = longer;
    }
    checked
}

#[test]
fn extension_of_every_short_path_follows_the_rules() {
    let checked = check_all(&['a', '.', '/'], 8);
    assert!(checked > 3000);
}

#[test]
fn extension_of_every_short_name_follows_the_rules() {
    let checked = check_all(&['p', 'N', '.', ' ', '-'], 6);
    assert!(checked > 15000);
}

#[test]
fn usual_paths_end_in_a_name() {
    for (path, label) in [
        ("/home/ada/pictures/cat.png", "PNG"),
        ("pictures/cat.final.JPeG", "JPEG"),
        ("./cat.gif", "GIF"),
        ("../up/cat.webp", "WEBP"),
        ("/cat", "UNKNOWN"),
        ("a.b/c", "UNKNOWN"),
        ("a.b/.c", "UNKNOWN"),
        ("a.b/..", "UNKNOWN"),
        ("a/b.tar.gz", "GZ"),
    ] {
        let chars: Vec<char> = path.chars().collect();
        assert!(ends_in_name(&chars));
        assert_eq!(expected_label(&chars), label);
        assert_eq!(extension_label(path), label);
    }
}
