//! The color of a badge, decided by the version it shows.

use vstd::prelude::*;
use vstd::string::StrSliceExecFns;

verus! {

/// The colors a badge can have.
#[derive(Clone, Copy, Debug, PartialEq, Eq, Structural)]
pub enum Color {
    /// For a version before 1.0.
    Orange,
    /// For every other version.
    BrightGreen,
}

impl Color {
    /// The renderer's name of the color.
    pub open spec fn text(self) -> Seq<char> {
        match self {
            Color::Orange => "orange"@,
            Color::BrightGreen => "brightgreen"@,
        }
    }

    /// The renderer's name of the color.
    pub fn name(self) -> (name: &'static str)
        ensures
            name@ == self.text(),
    {
        match self {
            Color::Orange => "orange",
            Color::BrightGreen => "brightgreen",
        }
    }
}

/// Whether `version` begins with the digit zero.
pub open spec fn begins_with_zero(version: Seq<char>) -> bool {
    version.len() > 0 && version[0] == '0'
}

/// The color for `version`: orange where it begins with the digit zero, bright
/// green otherwise. Only the first character is looked at; the version is not
/// read as a number.
pub open spec fn color_of(version: Seq<char>) -> Color {
    if begins_with_zero(version) {
        Color::Orange
    } else {
        Color::BrightGreen
    }
}

/// The color of the badge for `version`.
pub fn color(version: &str) -> (color: Color)
    ensures
        color == color_of(version@),
        color.text() == "orange"@ <==> begins_with_zero(version@),
        color.text() == "brightgreen"@ <==> !begins_with_zero(version@),
{
    proof {
        law_color_names(version@);
    }
    if !version.is_empty() && version.get_char(0) == '0' {
        Color::Orange
    } else {
        Color::BrightGreen
    }
}

/// A version is shown in orange if and only if it begins with the digit zero,
/// and in bright green otherwise.
pub proof fn law_color_names(version: Seq<char>)
    ensures
        color_of(version).text() == "orange"@ <==> begins_with_zero(version),
        color_of(version).text() == "brightgreen"@ <==> !begins_with_zero(version),
{
    reveal_strlit("orange");
    reveal_strlit("brightgreen");
    assert("orange"@.len() != "brightgreen"@.len());
}

} // verus!
