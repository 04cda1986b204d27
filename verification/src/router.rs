//! The routes of the service.
//!
//! `GET /` is the index page and `GET /<package>` the badge of a package.
//! Every other path is unknown, whatever the method; another method on one of
//! the two is not allowed; and a badge request whose query names no acceptable
//! style is turned away as if its path were unknown.

use vstd::prelude::*;
use vstd::string::StrSliceExecFns;
use crate::query::form_fields;
use crate::response::Rejection;
use crate::style::{query_text, style, style_among, Style, StyleError};
use crate::text::{chars_of, same_text, viewed};

verus! {

/// A request for the badge of the package `name`, rendered in `style`.
#[derive(Debug, PartialEq, Eq)]
pub struct BadgeRequest {
    pub name: String,
    pub style: Option<Style>,
}

/// Whether `name` can be the one segment of a path: it is not empty and holds
/// no slash. Nothing else is asked of a package's name.
pub open spec fn is_segment(name: Seq<char>) -> bool {
    name.len() > 0 && !name.contains('/')
}

impl BadgeRequest {
    /// Whether the request can have come from a path. The requests that the
    /// router makes all can.
    pub open spec fn wf(&self) -> bool {
        is_segment(self.name@)
    }
}

/// Where a request goes.
#[derive(Debug, PartialEq, Eq)]
pub enum Route {
    /// To the index page.
    Index,
    /// To the badge of a package.
    Badge(BadgeRequest),
    /// Nowhere.
    Rejected(Rejection),
}

/// A [`Route`] as a plain value.
pub enum RouteView {
    Index,
    Badge { name: Seq<char>, style: Option<Style> },
    Rejected(Rejection),
}

impl View for Route {
    type V = RouteView;

    open spec fn view(&self) -> RouteView {
        match self {
            Route::Index => RouteView::Index,
            Route::Badge(request) => RouteView::Badge {
                name: request.name@,
                style: request.style,
            },
            Route::Rejected(rejection) => RouteView::Rejected(*rejection),
        }
    }
}

/// How many characters of a request target belong to its path: those before
/// the first question mark.
pub open spec fn path_len(target: Seq<char>) -> nat
    decreases target.len(),
{
    if target.len() == 0 || target[0] == '?' {
        0
    } else {
        path_len(target.drop_first()) + 1
    }
}

/// The path of a request target.
pub open spec fn path_of(target: Seq<char>) -> Seq<char> {
    target.take(path_len(target) as int)
}

/// The query of a request target: what follows the first question mark, if
/// there is one.
pub open spec fn query_of(target: Seq<char>) -> Option<Seq<char>> {
    if path_len(target) < target.len() {
        Some(target.skip(path_len(target) as int + 1))
    } else {
        None
    }
}

/// The package that a path names: the path is a slash and one segment that is
/// not empty, with nothing behind it, and the segment is the name as it
/// stands.
pub open spec fn package_named(path: Seq<char>) -> Option<Seq<char>> {
    if path.len() > 0 && path[0] == '/' && is_segment(path.skip(1)) {
        Some(path.skip(1))
    } else {
        None
    }
}

/// Where a request with this method and path goes, given what its query says
/// of the style.
pub open spec fn routed(
    method: Seq<char>,
    path: Seq<char>,
    style: Result<Option<Style>, StyleError>,
) -> RouteView {
    if path == seq!['/'] {
        if method == "GET"@ {
            RouteView::Index
        } else {
            RouteView::Rejected(Rejection::MethodNotAllowed)
        }
    } else {
        match package_named(path) {
            Some(name) => if method != "GET"@ {
                RouteView::Rejected(Rejection::MethodNotAllowed)
            } else {
                match style {
                    Ok(style) => RouteView::Badge { name, style },
                    Err(_) => RouteView::Rejected(Rejection::NotFound),
                }
            },
            None => RouteView::Rejected(Rejection::NotFound),
        }
    }
}

/// The path is a part of the target.
proof fn lemma_path_len_bound(target: Seq<char>)
    ensures
        path_len(target) <= target.len(),
    decreases target.len(),
{
    if target.len() > 0 && target[0] != '?' {
        lemma_path_len_bound(target.drop_first());
    }
}

/// A request target is its path, alone or with a question mark and the query
/// behind it, and the path holds no question mark.
pub proof fn law_target_parts(target: Seq<char>)
    ensures
        !path_of(target).contains('?'),
        match query_of(target) {
            Some(query) => target == path_of(target) + seq!['?'] + query,
            None => target == path_of(target),
        },
    decreases target.len(),
{
    if target.len() == 0 {
        assert(path_of(target) =~= target);
    } else if target[0] == '?' {
        assert(path_of(target) =~= Seq::<char>::empty());
        assert(target =~= path_of(target) + seq!['?'] + target.skip(1));
    } else {
        let rest = target.drop_first();
        law_target_parts(rest);
        lemma_path_len_bound(rest);
        let path = path_of(target);
        assert(path =~= seq![target[0]] + path_of(rest));
        assert(!path.contains('?')) by {
            if path.contains('?') {
                let k = choose|k: int| 0 <= k < path.len() && path[k] == '?';
                assert(path_of(rest)[k - 1] == '?');
            }
        }
        assert(target =~= seq![target[0]] + rest);
        match query_of(rest) {
            Some(query) => {
                assert(query_of(target) == Some(query)) by {
                    assert(target.skip(path_len(target) as int + 1) =~= rest.skip(
                        path_len(rest) as int + 1,
                    ));
                }
                assert(target =~= path + seq!['?'] + query);
            },
            None => {
                assert(target =~= path);
            },
        }
    }
}

/// A request reaches the index page only as a GET of the root, and the badge
/// of a package only as a GET of a slash and the package's name, which is not
/// empty and holds no slash, with a query that names an acceptable style.
pub proof fn law_route_shapes(
    method: Seq<char>,
    path: Seq<char>,
    style: Result<Option<Style>, StyleError>,
)
    ensures
        routed(method, path, style) is Index <==> method == "GET"@ && path == seq!['/'],
        match routed(method, path, style) {
            RouteView::Badge { name, style: asked } => {
                &&& method == "GET"@
                &&& path == seq!['/'] + name
                &&& is_segment(name)
                &&& style == Ok::<Option<Style>, StyleError>(asked)
            },
            _ => true,
        },
{
    if package_named(path) is Some {
        assert(path =~= seq!['/'] + path.skip(1));
        assert(path != seq!['/']);
    }
}

/// Decides where a request goes, from its method, its path and what its query
/// says of the style.
pub fn dispatch(method: &str, path: &str, style: Result<Option<Style>, StyleError>) -> (route:
    Route)
    ensures
        route@ == routed(method@, path@, style),
        route matches Route::Badge(request) ==> request.wf(),
{
    let chars = chars_of(path);
    let n = chars.len();
    let get = same_text(method, "GET");
    if n == 1 && chars[0] == '/' {
        assert(path@ =~= seq!['/']);
        return if get {
            Route::Index
        } else {
            Route::Rejected(Rejection::MethodNotAllowed)
        };
    }
    if n < 2 || chars[0] != '/' {
        return Route::Rejected(Rejection::NotFound);
    }
    let mut i: usize = 1;
    while i < n
        invariant
            1 <= i <= n,
            n == chars.len(),
            chars@ == path@,
            forall|k: int| 1 <= k < i ==> chars[k] != '/',
        decreases n - i,
    {
        if chars[i] == '/' {
            assert(path@.skip(1)[i - 1] == '/');
            return Route::Rejected(Rejection::NotFound);
        }
        i += 1;
    }
    assert(!path@.skip(1).contains('/')) by {
        if path@.skip(1).contains('/') {
            let k = choose|k: int| 0 <= k < path@.skip(1).len() && path@.skip(1)[k] == '/';
            assert(chars[k + 1] == '/');
        }
    }
    if !get {
        return Route::Rejected(Rejection::MethodNotAllowed);
    }
    match style {
        Ok(style) => {
            let name = path.substring_char(1, n).to_owned();
            assert(name@ =~= path@.skip(1));
            Route::Badge(BadgeRequest { name, style })
        },
        Err(_) => Route::Rejected(Rejection::NotFound),
    }
}

/// Decides where a request goes, from its method, its path and its query.
pub fn route_parts(method: &str, path: &str, query: Option<&str>) -> (route: Route)
    ensures
        route@ == routed(method@, path@, style_among(form_fields(query_text(viewed(query))))),
        route matches Route::Badge(request) ==> request.wf(),
{
    dispatch(method, path, style(query))
}

/// Decides where a request goes, from its method and its target: the path,
/// and behind a question mark the query, as they stand in the request line.
pub fn route(method: &str, target: &str) -> (route: Route)
    ensures
        route@ == routed(
            method@,
            path_of(target@),
            style_among(form_fields(query_text(query_of(target@)))),
        ),
        route matches Route::Badge(request) ==> request.wf(),
{
    let chars = chars_of(target);
    let n = chars.len();
    let mut i: usize = 0;
    assert(target@.skip(0) == target@);
    while i < n && chars[i] != '?'
        invariant
            i <= n,
            n == chars.len(),
            chars@ == target@,
            path_len(target@) == i + path_len(target@.skip(i as int)),
        decreases n - i,
    {
        proof {
            let rest = target@.skip(i as int);
            assert(rest[0] == chars[i as int]);
            assert(rest.drop_first() == target@.skip(i + 1));
        }
        i += 1;
    }
    assert(path_len(target@) == i) by {
        if i < n {
            assert(target@.skip(i as int)[0] == chars[i as int]);
        }
    }
    let path = target.substring_char(0, i);
    assert(path@ =~= path_of(target@));
    if i < n {
        let query = target.substring_char(i + 1, n);
        assert(query@ =~= target@.skip(i + 1));
        route_parts(method, path, Some(query))
    } else {
        route_parts(method, path, None)
    }
}

} // verus!
