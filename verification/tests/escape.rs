use meritbadge::escape::ShieldEscape;

fn hyphens(text: &str) -> usize {
    text.chars().filter(|c| *c == '-').count()
}

fn others(text: &str) -> String {
    text.chars().filter(|c| *c != '-').collect()
}

const VERSIONS: [&str; 9] = [
    "",
    "-",
    "--",
    "0.1.9",
    "1.0.0-rc.1",
    "-1-",
    "2.0.0-beta-3",
    "1.0.0-\u{e9}t\u{e9}",
    "\u{2013}1\u{2014}2-3",
];

#[test]
fn escape_leaves_plain_version() {
    assert_eq!(ShieldEscape("0.1.9").to_string(), "0.1.9");
}

#[test]
fn escape_of_empty_version_is_empty() {
    assert_eq!(ShieldEscape("").to_string(), "");
}

#[test]
fn escape_doubles_hyphen() {
    assert_eq!(ShieldEscape("1.0.0-rc.1").to_string(), "1.0.0--rc.1");
    assert_eq!(ShieldEscape("-").to_string(), "--");
    assert_eq!(ShieldEscape("--").to_string(), "----");
    assert_eq!(ShieldEscape("-a-").to_string(), "--a--");
}

#[test]
fn escape_keeps_text_outside_ascii() {
    assert_eq!(ShieldEscape("1.0-\u{e9}t\u{e9}").to_string(), "1.0--\u{e9}t\u{e9}");
    assert_eq!(
        ShieldEscape("1.0-\u{e9}t\u{e9}").to_string().as_bytes(),
        b"1.0--\xc3\xa9t\xc3\xa9"
    );
    // dashes that are no hyphens stay single
    assert_eq!(ShieldEscape("1\u{2013}2").to_string(), "1\u{2013}2");
}

#[test]
fn escape_doubles_the_number_of_hyphens() {
    for version in VERSIONS {
        let escaped = ShieldEscape(version).to_string();
        assert_eq!(hyphens(&escaped), 2 * hyphens(version));
    }
}

#[test]
fn escape_keeps_the_other_characters() {
    for version in VERSIONS {
        let escaped = ShieldEscape(version).to_string();
        assert_eq!(others(&escaped), others(version));
        assert_eq!(escaped.chars().count(), version.chars().count() + hyphens(version));
    }
}

#[test]
fn escape_leaves_no_single_hyphen() {
    for version in VERSIONS {
        let escaped = ShieldEscape(version).to_string();
        for run in escaped.split(|c| c != '-') {
            assert_eq!(run.len() % 2, 0, "{:?} in {:?}", run, escaped);
        }
    }
}

#[test]
fn escape_works_on_bytes() {
    for version in VERSIONS {
        let mut expected = Vec::new();
        for byte in version.bytes() {
            expected.push(byte);
            if byte == b'-' {
                expected.push(byte);
            }
        }
        assert_eq!(ShieldEscape(version).to_string().into_bytes(), expected);
    }
}
