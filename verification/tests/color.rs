use meritbadge::color::{color, Color};

#[test]
fn color_names() {
    assert_eq!(Color::Orange.name(), "orange");
    assert_eq!(Color::BrightGreen.name(), "brightgreen");
}

#[test]
fn color_is_orange_before_one_point_zero() {
    assert_eq!(color("0.1.9"), Color::Orange);
    assert_eq!(color("0.0.0"), Color::Orange);
    assert_eq!(color("0"), Color::Orange);
}

#[test]
fn color_is_bright_green_otherwise() {
    assert_eq!(color("1.0.0"), Color::BrightGreen);
    assert_eq!(color("10.0.1"), Color::BrightGreen);
    assert_eq!(color("2.0.0-rc.0"), Color::BrightGreen);
}

#[test]
fn color_looks_at_the_first_character_only() {
    assert_eq!(color("0not-a-version"), Color::Orange);
    assert_eq!(color("09.1"), Color::Orange);
    assert_eq!(color("v0.1.0"), Color::BrightGreen);
    assert_eq!(color(" 0.1.0"), Color::BrightGreen);
    assert_eq!(color("1.0"), Color::BrightGreen);
    assert_eq!(color("\u{ff10}.1"), Color::BrightGreen);
}

#[test]
fn color_of_empty_version_is_bright_green() {
    assert_eq!(color(""), Color::BrightGreen);
}

#[test]
fn color_is_orange_exactly_for_a_leading_zero() {
    for version in ["", "0", "00", "0.1", "1", "1.0", "a0", "-0", "0-", "9.0.0"] {
        let orange = color(version).name() == "orange";
        assert_eq!(orange, version.starts_with('0'));
        let green = color(version).name() == "brightgreen";
        assert_eq!(green, !version.starts_with('0'));
    }
}
