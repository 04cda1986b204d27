//! The responses of the service.

use vstd::prelude::*;
use vstd::slice::slice_to_vec;
use vstd::string::StringExecFns;
use crate::color::{color, color_of};
use crate::escape::{escaped, ShieldEscape};
use crate::registry::{Lookup, LookupResult};
use crate::style::Style;
use crate::text::same_text;

verus! {

/// A response: its status, its headers in order, each a name in lower case
/// with its value, and its body.
#[derive(Debug, PartialEq, Eq)]
pub struct Response {
    pub status: u16,
    pub headers: Vec<(String, String)>,
    pub body: Vec<u8>,
}

/// A [`Response`] as a plain value.
pub struct ResponseView {
    pub status: u16,
    pub headers: Seq<(Seq<char>, Seq<char>)>,
    pub body: Seq<u8>,
}

impl View for Response {
    type V = ResponseView;

    open spec fn view(&self) -> ResponseView {
        ResponseView {
            status: self.status,
            headers: self.headers.deep_view(),
            body: self.body@,
        }
    }
}

/// Why a request is turned away before any handler sees it.
#[derive(Clone, Copy, Debug, PartialEq, Eq, Structural)]
pub enum Rejection {
    /// Nothing is served under the request's path and query.
    NotFound,
    /// The path is served, but not to the request's method.
    MethodNotAllowed,
}

/// The value of the first header named `name`, if there is one.
pub open spec fn first_named(headers: Seq<(Seq<char>, Seq<char>)>, name: Seq<char>) -> Option<
    Seq<char>,
>
    decreases headers.len(),
{
    if headers.len() == 0 {
        None
    } else if headers[0].0 == name {
        Some(headers[0].1)
    } else {
        first_named(headers.drop_first(), name)
    }
}

/// The address of the badge that shows `version` in the given style: the
/// version escaped, the color that goes with the version, and the style's
/// suffix.
pub open spec fn badge_url(version: Seq<char>, style: Option<Style>) -> Seq<char> {
    "https://img.shields.io/badge/crates.io-v"@ + escaped(version) + "-"@ + color_of(
        version,
    ).text() + ".svg"@ + Style::suffix_text(style)
}

/// The headers of a redirect to `url`. Besides the target they tell every
/// cache on the way that the response is stale already and must not be kept.
pub open spec fn redirect_headers(url: Seq<char>) -> Seq<(Seq<char>, Seq<char>)> {
    seq![
        ("location"@, url),
        ("expires"@, "Sun, 01 Jan 1990 00:00:00 GMT"@),
        ("pragma"@, "no-cache"@),
        ("cache-control"@, "no-cache, no-store, max-age=0, must-revalidate"@),
    ]
}

/// A response that has a status and nothing else.
pub open spec fn bare(status: u16) -> ResponseView {
    ResponseView { status, headers: Seq::empty(), body: Seq::empty() }
}

/// The answer to a badge request: a redirect to the badge where the lookup
/// found a version, and 404 where it did not, whether the package is unknown
/// or the registry could not be asked.
pub open spec fn badge_reply(style: Option<Style>, lookup: Lookup) -> ResponseView {
    match lookup {
        Lookup::Found(version) => ResponseView {
            status: 302,
            headers: redirect_headers(badge_url(version, style)),
            body: Seq::empty(),
        },
        Lookup::NotFound => bare(404),
        Lookup::TransportError(_) => bare(404),
    }
}

/// The answer to a request for the index page: the page as HTML.
pub open spec fn index_reply(page: Seq<u8>) -> ResponseView {
    ResponseView {
        status: 200,
        headers: seq![("content-type"@, "text/html; charset=utf-8"@)],
        body: page,
    }
}

/// The answer to a request that was turned away.
pub open spec fn rejection_reply(rejection: Rejection) -> ResponseView {
    match rejection {
        Rejection::NotFound => bare(404),
        Rejection::MethodNotAllowed => bare(405),
    }
}

/// Every badge that is found is answered with a redirect to its address that
/// no cache may keep: the response carries the expiry date in the past and
/// both no-cache headers.
pub proof fn law_redirect_defeats_caches(style: Option<Style>, version: Seq<char>)
    ensures
        ({
            let reply = badge_reply(style, Lookup::Found(version));
            &&& reply.status == 302
            &&& first_named(reply.headers, "location"@) == Some(badge_url(version, style))
            &&& first_named(reply.headers, "expires"@) == Some("Sun, 01 Jan 1990 00:00:00 GMT"@)
            &&& first_named(reply.headers, "pragma"@) == Some("no-cache"@)
            &&& first_named(reply.headers, "cache-control"@) == Some(
                "no-cache, no-store, max-age=0, must-revalidate"@,
            )
        }),
{
    let headers = badge_reply(style, Lookup::Found(version)).headers;
    reveal_strlit("location");
    reveal_strlit("expires");
    reveal_strlit("pragma");
    reveal_strlit("cache-control");
    assert("location"@.len() == 8 && "expires"@.len() == 7 && "pragma"@.len() == 6
        && "cache-control"@.len() == 13);
    let second = headers.drop_first();
    let third = second.drop_first();
    let fourth = third.drop_first();
    assert(second[0] == headers[1] && third[0] == headers[2] && fourth[0] == headers[3]);
    reveal_with_fuel(first_named, 5);
}

/// A badge request is answered with a redirect if and only if the lookup
/// found a version. Where it did not, the answer is the same 404 whether the
/// registry knows no such package or could not be asked.
pub proof fn law_badge_statuses(style: Option<Style>, lookup: Lookup)
    ensures
        badge_reply(style, lookup).status == 302 <==> lookup is Found,
        !(lookup is Found) ==> badge_reply(style, lookup) == bare(404),
{
}

fn named(name: &str, value: String) -> (header: (String, String))
    ensures
        header.deep_view() == (name@, value@),
{
    (String::from_str(name), value)
}

fn status_only(status: u16) -> (response: Response)
    ensures
        response@ == bare(status),
{
    let response = Response { status, headers: Vec::new(), body: Vec::new() };
    assert(response.headers.deep_view() =~= Seq::empty());
    response
}

impl Response {
    /// The value of the first header named `name`. Names are compared as they
    /// are written.
    pub fn header(&self, name: &str) -> (value: Option<&str>)
        ensures
            match value {
                Some(text) => first_named(self@.headers, name@) == Some(text@),
                None => first_named(self@.headers, name@) is None,
            },
    {
        let ghost all = self.headers.deep_view();
        let mut i: usize = 0;
        assert(all.skip(0) == all);
        while i < self.headers.len()
            invariant
                i <= self.headers.len(),
                all == self.headers.deep_view(),
                first_named(all, name@) == first_named(all.skip(i as int), name@),
            decreases self.headers.len() - i,
        {
            proof {
                let rest = all.skip(i as int);
                assert(rest[0] == (self.headers[i as int].0@, self.headers[i as int].1@));
                assert(rest.drop_first() == all.skip(i + 1));
            }
            if same_text(self.headers[i].0.as_str(), name) {
                return Some(self.headers[i].1.as_str());
            }
            i += 1;
        }
        None
    }
}

/// The address of the badge that shows `version` in the given style.
pub fn badge_location(version: &str, style: Option<Style>) -> (url: String)
    ensures
        url@ == badge_url(version@, style),
{
    let mut url = String::from_str("https://img.shields.io/badge/crates.io-v");
    url.append(ShieldEscape(version).to_string().as_str());
    url.append("-");
    url.append(color(version).name());
    url.append(".svg");
    url.append(Style::suffix(style));
    url
}

/// Answers a badge request, given the style it asked for and the outcome of
/// the lookup.
pub fn badge(style: Option<Style>, lookup: &LookupResult) -> (response: Response)
    ensures
        response@ == badge_reply(style, lookup@),
{
    match lookup {
        LookupResult::Found(version) => {
            let url = badge_location(version.as_str(), style);
            let mut headers: Vec<(String, String)> = Vec::new();
            headers.push(named("location", url));
            headers.push(named("expires", String::from_str("Sun, 01 Jan 1990 00:00:00 GMT")));
            headers.push(named("pragma", String::from_str("no-cache")));
            headers.push(
                named(
                    "cache-control",
                    String::from_str("no-cache, no-store, max-age=0, must-revalidate"),
                ),
            );
            let response = Response { status: 302, headers, body: Vec::new() };
            assert(response.headers.deep_view() =~= redirect_headers(
                badge_url(version@, style),
            ));
            response
        },
        LookupResult::NotFound => status_only(404),
        LookupResult::TransportError(_) => status_only(404),
    }
}

/// Answers a request for the index page with `page`.
pub fn index(page: &[u8]) -> (response: Response)
    ensures
        response@ == index_reply(page@),
{
    let mut headers: Vec<(String, String)> = Vec::new();
    headers.push(named("content-type", String::from_str("text/html; charset=utf-8")));
    let response = Response { status: 200, headers, body: slice_to_vec(page) };
    assert(response.headers.deep_view() =~= index_reply(page@).headers);
    response
}

/// Answers a request that was turned away.
pub fn reject(rejection: Rejection) -> (response: Response)
    ensures
        response@ == rejection_reply(rejection),
{
    match rejection {
        Rejection::NotFound => status_only(404),
        Rejection::MethodNotAllowed => status_only(405),
    }
}

} // verus!
