use meritbadge::response::Rejection;
use meritbadge::router::{dispatch, route, route_parts, BadgeRequest, Route};
use meritbadge::style::{Style, StyleError};

fn badge_of(name: &str, style: Option<Style>) -> Route {
    Route::Badge(BadgeRequest { name: name.to_string(), style })
}

#[test]
fn route_index() {
    assert_eq!(route("GET", "/"), Route::Index);
    assert_eq!(route("GET", "/?"), Route::Index);
    assert_eq!(route("GET", "/?style=bogus"), Route::Index);
}

#[test]
fn route_badge() {
    assert_eq!(route("GET", "/warp"), badge_of("warp", None));
    assert_eq!(route("GET", "/warp?"), badge_of("warp", None));
    assert_eq!(route("GET", "/warp?style=flat-square"), badge_of("warp", Some(Style::FlatSquare)));
    assert_eq!(route("GET", "/serde_json?x=1"), badge_of("serde_json", None));
}

#[test]
fn route_takes_name_verbatim() {
    assert_eq!(route("GET", "/a%2Fb"), badge_of("a%2Fb", None));
    assert_eq!(route("GET", "/Warp"), badge_of("Warp", None));
    assert_eq!(route("GET", "/r\u{e9}sum\u{e9}"), badge_of("r\u{e9}sum\u{e9}", None));
    assert_eq!(route("GET", "/a b"), badge_of("a b", None));
}

#[test]
fn route_splits_at_first_question_mark() {
    assert_eq!(route("GET", "/warp?a=b?style=bogus"), badge_of("warp", None));
    assert_eq!(route("GET", "/warp?style=flat-square?"), Route::Rejected(Rejection::NotFound));
}

#[test]
fn route_unknown_paths() {
    let targets =
        ["", "warp", "//", "/warp/", "/warp/0.1", "//warp", "/a/b/c", "?style=flat-square"];
    for target in targets {
        assert_eq!(route("GET", target), Route::Rejected(Rejection::NotFound), "{:?}", target);
        assert_eq!(route("POST", target), Route::Rejected(Rejection::NotFound), "{:?}", target);
    }
}

#[test]
fn route_other_methods() {
    for method in ["POST", "PUT", "DELETE", "HEAD", "OPTIONS", "PATCH", "get", ""] {
        assert_eq!(route(method, "/"), Route::Rejected(Rejection::MethodNotAllowed));
        assert_eq!(route(method, "/warp"), Route::Rejected(Rejection::MethodNotAllowed));
        assert_eq!(
            route(method, "/warp?style=bogus"),
            Route::Rejected(Rejection::MethodNotAllowed)
        );
    }
}

#[test]
fn route_bad_style() {
    assert_eq!(route("GET", "/warp?style=bogus"), Route::Rejected(Rejection::NotFound));
    assert_eq!(route("GET", "/warp?style="), Route::Rejected(Rejection::NotFound));
    assert_eq!(
        route("GET", "/warp?style=flat-square&style=flat-square"),
        Route::Rejected(Rejection::NotFound)
    );
}

#[test]
fn route_parts_agree_with_route() {
    assert_eq!(route_parts("GET", "/", None), Route::Index);
    assert_eq!(route_parts("GET", "/warp", None), badge_of("warp", None));
    assert_eq!(
        route_parts("GET", "/warp", Some("style=flat-square&warp=speed")),
        badge_of("warp", Some(Style::FlatSquare))
    );
    assert_eq!(
        route_parts("GET", "/warp", Some("style=plastic")),
        Route::Rejected(Rejection::NotFound)
    );
    assert_eq!(
        route_parts("DELETE", "/warp", None),
        Route::Rejected(Rejection::MethodNotAllowed)
    );
    assert_eq!(route_parts("GET", "/warp/x", None), Route::Rejected(Rejection::NotFound));
}

#[test]
fn dispatch_by_method_path_and_style() {
    assert_eq!(dispatch("GET", "/", Ok(None)), Route::Index);
    assert_eq!(dispatch("GET", "/", Err(StyleError::Unknown)), Route::Index);
    assert_eq!(dispatch("POST", "/", Ok(None)), Route::Rejected(Rejection::MethodNotAllowed));
    assert_eq!(dispatch("GET", "/warp", Ok(None)), badge_of("warp", None));
    assert_eq!(
        dispatch("GET", "/warp", Ok(Some(Style::FlatSquare))),
        badge_of("warp", Some(Style::FlatSquare))
    );
    assert_eq!(
        dispatch("GET", "/warp", Err(StyleError::Unknown)),
        Route::Rejected(Rejection::NotFound)
    );
    assert_eq!(
        dispatch("GET", "/warp", Err(StyleError::Repeated)),
        Route::Rejected(Rejection::NotFound)
    );
    assert_eq!(
        dispatch("POST", "/warp", Err(StyleError::Unknown)),
        Route::Rejected(Rejection::MethodNotAllowed)
    );
    assert_eq!(dispatch("GET", "/warp/", Ok(None)), Route::Rejected(Rejection::NotFound));
    assert_eq!(dispatch("GET", "", Ok(None)), Route::Rejected(Rejection::NotFound));
    assert_eq!(dispatch("GET", "/a?b", Ok(None)), badge_of("a?b", None));
}
