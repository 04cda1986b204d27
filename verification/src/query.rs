//! The fields of a query string.

use vstd::prelude::*;

verus! {

/// What `form_urlencoded::parse` yields for a query string: its fields as
/// pairs of name and value, in the order in which they stand in the query,
/// with percent signs and plus signs decoded in both.
pub uninterp spec fn form_fields(query: Seq<char>) -> Seq<(Seq<char>, Seq<char>)>;

/// The fields of `query`, in order.
///
/// Trusted: the fields are those that `form_urlencoded::parse` yields for the
/// bytes of `query`, collected as they come. The parser reads nothing but its
/// argument, so the same query always has the same fields; which fields they
/// are is left to the parser.
#[verifier::external_body]
pub(crate) fn parse_fields(query: &str) -> (fields: Vec<(String, String)>)
    ensures
        fields.deep_view() == form_fields(query@),
{
    form_urlencoded::parse(query.as_bytes()).into_owned().collect()
}

} // verus!
