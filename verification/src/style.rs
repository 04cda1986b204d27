//! The rendering style that a request may ask for.

use vstd::prelude::*;
use crate::query::{form_fields, parse_fields};
use crate::text::{same_text, viewed};

verus! {

/// A rendering variant of the badge. A request that names none gets the
/// renderer's default.
#[derive(Clone, Copy, Debug, PartialEq, Eq, Structural)]
pub enum Style {
    /// The compact rendering.
    FlatSquare,
}

/// Why a query names no acceptable style.
#[derive(Clone, Copy, Debug, PartialEq, Eq, Structural)]
pub enum StyleError {
    /// The value of `style` is not the name of a style.
    Unknown,
    /// The query holds more than one `style`.
    Repeated,
}

/// What the value of `style` stands for: no value for no style, the name of a
/// style for that style, and any other value, the empty one too, for nothing
/// at all.
pub open spec fn style_named(value: Option<Seq<char>>) -> Result<Option<Style>, StyleError> {
    match value {
        None => Ok(None),
        Some(name) => if name == "flat-square"@ {
            Ok(Some(Style::FlatSquare))
        } else {
            Err(StyleError::Unknown)
        },
    }
}

/// The values of the fields named `style`, in order.
pub open spec fn style_values(fields: Seq<(Seq<char>, Seq<char>)>) -> Seq<Seq<char>>
    decreases fields.len(),
{
    if fields.len() == 0 {
        Seq::empty()
    } else if fields.last().0 == "style"@ {
        style_values(fields.drop_last()).push(fields.last().1)
    } else {
        style_values(fields.drop_last())
    }
}

/// The style that a query with these fields asks for. Fields of other names
/// do not count; `style` may stand once at most.
pub open spec fn style_among(fields: Seq<(Seq<char>, Seq<char>)>) -> Result<
    Option<Style>,
    StyleError,
> {
    let values = style_values(fields);
    if values.len() == 0 {
        style_named(None)
    } else if values.len() == 1 {
        style_named(Some(values[0]))
    } else {
        Err(StyleError::Repeated)
    }
}

/// The text that a request's query stands for: the empty text where the
/// request has no query.
pub open spec fn query_text(query: Option<Seq<char>>) -> Seq<char> {
    match query {
        Some(text) => text,
        None => Seq::empty(),
    }
}

impl Style {
    /// Reads the value of `style`, if the query has one.
    pub fn parse(value: Option<&str>) -> (style: Result<Option<Style>, StyleError>)
        ensures
            style == style_named(viewed(value)),
    {
        match value {
            None => Ok(None),
            Some(name) => if same_text(name, "flat-square") {
                Ok(Some(Style::FlatSquare))
            } else {
                Err(StyleError::Unknown)
            },
        }
    }

    /// What the badge's URL ends in for `style`.
    pub open spec fn suffix_text(style: Option<Style>) -> Seq<char> {
        match style {
            Some(Style::FlatSquare) => "?style=flat-square"@,
            None => Seq::empty(),
        }
    }

    /// What the badge's URL ends in for `style`: nothing for the default
    /// rendering, the renderer's query for another.
    pub fn suffix(style: Option<Style>) -> (suffix: &'static str)
        ensures
            suffix@ == Style::suffix_text(style),
    {
        match style {
            Some(Style::FlatSquare) => "?style=flat-square",
            None => {
                proof {
                    reveal_strlit("");
                    assert(""@ =~= Seq::<char>::empty());
                }
                ""
            },
        }
    }
}

/// The style that a query with these fields asks for.
pub fn style_of_fields(fields: &Vec<(String, String)>) -> (style: Result<
    Option<Style>,
    StyleError,
>)
    ensures
        style == style_among(fields.deep_view()),
{
    let ghost all = fields.deep_view();
    let mut seen: usize = 0;
    let mut first: usize = 0;
    let mut i: usize = 0;
    while i < fields.len()
        invariant
            i <= fields.len(),
            all == fields.deep_view(),
            seen == style_values(all.take(i as int)).len(),
            seen <= i,
            seen > 0 ==> first < i && style_values(all.take(i as int))[0]
                == fields[first as int].1@,
        decreases fields.len() - i,
    {
        proof {
            let next = all.take(i + 1);
            assert(next.drop_last() == all.take(i as int));
            assert(next.last() == (fields[i as int].0@, fields[i as int].1@));
        }
        if same_text(fields[i].0.as_str(), "style") {
            if seen == 0 {
                first = i;
            }
            seen += 1;
        }
        i += 1;
    }
    assert(all.take(i as int) == all);
    if seen == 0 {
        Style::parse(None)
    } else if seen == 1 {
        Style::parse(Some(fields[first].1.as_str()))
    } else {
        Err(StyleError::Repeated)
    }
}

/// The style that a request with this query asks for; a request without a
/// query is read as one with an empty query.
pub fn style(query: Option<&str>) -> (style: Result<Option<Style>, StyleError>)
    ensures
        style == style_among(form_fields(query_text(viewed(query)))),
{
    let fields = match query {
        Some(text) => parse_fields(text),
        None => {
            proof {
                reveal_strlit("");
                assert(""@ =~= Seq::<char>::empty());
            }
            parse_fields("")
        },
    };
    style_of_fields(&fields)
}

/// `flat-square` names the compact rendering and no value the default one;
/// every other value is refused.
pub proof fn law_style_names(value: Option<Seq<char>>)
    ensures
        value == Some("flat-square"@) ==> style_named(value) == Ok::<Option<Style>, StyleError>(
            Some(Style::FlatSquare),
        ),
        value is None ==> style_named(value) == Ok::<Option<Style>, StyleError>(None),
        value is Some && value != Some("flat-square"@) ==> style_named(value) == Err::<
            Option<Style>,
            StyleError,
        >(StyleError::Unknown),
{
}

/// The values of `style` are collected part by part.
proof fn lemma_style_values_add(a: Seq<(Seq<char>, Seq<char>)>, b: Seq<(Seq<char>, Seq<char>)>)
    ensures
        style_values(a + b) == style_values(a) + style_values(b),
    decreases b.len(),
{
    if b.len() == 0 {
        assert(a + b == a);
    } else {
        assert((a + b).drop_last() == a + b.drop_last());
        lemma_style_values_add(a, b.drop_last());
    }
}

/// A field of another name changes nothing, wherever in the query it stands.
pub proof fn law_other_fields_ignored(
    before: Seq<(Seq<char>, Seq<char>)>,
    other: (Seq<char>, Seq<char>),
    after: Seq<(Seq<char>, Seq<char>)>,
)
    requires
        other.0 != "style"@,
    ensures
        style_among(before + seq![other] + after) == style_among(before + after),
{
    lemma_style_values_add(before, seq![other]);
    lemma_style_values_add(before + seq![other], after);
    lemma_style_values_add(before, after);
    assert(style_values(seq![other]) == Seq::<Seq<char>>::empty()) by {
        assert(seq![other].drop_last() == Seq::<(Seq<char>, Seq<char>)>::empty());
        reveal_with_fuel(style_values, 2);
    }
}

/// A query whose only `style` has the value `value` asks for what that value
/// names, whatever else the query holds.
pub proof fn law_single_style(
    before: Seq<(Seq<char>, Seq<char>)>,
    value: Seq<char>,
    after: Seq<(Seq<char>, Seq<char>)>,
)
    requires
        style_values(before).len() == 0,
        style_values(after).len() == 0,
    ensures
        style_among(before + seq![("style"@, value)] + after) == style_named(Some(value)),
{
    let field = ("style"@, value);
    lemma_style_values_add(before, seq![field]);
    lemma_style_values_add(before + seq![field], after);
    assert(style_values(seq![field]) == seq![value]) by {
        assert(seq![field].drop_last() == Seq::<(Seq<char>, Seq<char>)>::empty());
        reveal_with_fuel(style_values, 2);
    }
}

} // verus!
