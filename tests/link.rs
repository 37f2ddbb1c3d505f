use router_link::{dispatch, resolve_href, Anchor, Link, LinkProps, Msg, Navigation};

#[derive(Clone, Debug, PartialEq, Eq)]
enum Route {
    Home,
    User { id: u32 },
    Search,
}

impl Route {
    fn path(&self) -> String {
        match self {
            Route::Home => "/".to_string(),
            Route::User { id } => format!("/users/{}", id),
            Route::Search => "/search".to_string(),
        }
    }
}

#[derive(Clone, Debug, PartialEq, Eq)]
struct SearchQuery {
    q: String,
}

fn props(
    to: Route,
    query: Option<SearchQuery>,
    fragment: Option<&str>,
) -> LinkProps<Route, SearchQuery> {
    LinkProps {
        classes: String::new(),
        to,
        fragment: fragment.map(|f| f.to_string()),
        query,
        disabled: false,
    }
}

fn render(p: &LinkProps<Route, SearchQuery>) -> Anchor {
    Link::create().view(p, &p.to.path())
}

fn click(p: &LinkProps<Route, SearchQuery>) -> (Navigation<Route, SearchQuery>, bool) {
    Link::create().update(p.clone(), Msg::OnClick)
}

fn rust_query() -> SearchQuery {
    SearchQuery { q: "rust".to_string() }
}

#[test]
fn home_link_renders_root_and_pushes_plain() {
    let p = props(Route::Home, None, None);
    assert_eq!(render(&p).href, "/");
    let (nav, rerender) = click(&p);
    assert_eq!(nav, Navigation::Push { route: Route::Home });
    assert!(!rerender);
}

#[test]
fn user_link_with_fragment() {
    let p = props(Route::User { id: 5 }, None, Some("bio"));
    assert_eq!(render(&p).href, "/users/5#bio");
    let (nav, _) = click(&p);
    assert_eq!(
        nav,
        Navigation::PushWithFragment { route: Route::User { id: 5 }, fragment: "bio".to_string() }
    );
}

#[test]
fn search_link_with_query_omits_query_from_href() {
    let p = props(Route::Search, Some(rust_query()), None);
    assert_eq!(render(&p).href, "/search");
    let (nav, _) = click(&p);
    assert_eq!(nav, Navigation::PushWithQuery { route: Route::Search, query: rust_query() });
}

#[test]
fn search_link_with_query_and_fragment() {
    let p = props(Route::Search, Some(rust_query()), Some("top"));
    assert_eq!(render(&p).href, "/search#top");
    let (nav, _) = click(&p);
    assert_eq!(
        nav,
        Navigation::PushWithQueryAndFragment {
            route: Route::Search,
            query: rust_query(),
            fragment: "top".to_string(),
        }
    );
}

#[test]
fn plain_link_href_is_the_path() {
    for route in [Route::Home, Route::User { id: 42 }, Route::Search] {
        let p = props(route.clone(), None, None);
        assert_eq!(render(&p).href, route.path());
        assert_eq!(click(&p).0, Navigation::Push { route });
    }
}

#[test]
fn fragment_href_does_not_depend_on_query() {
    let with = props(Route::Search, Some(rust_query()), Some("x"));
    let without = props(Route::Search, None, Some("x"));
    assert_eq!(render(&with).href, "/search#x");
    assert_eq!(render(&with).href, render(&without).href);
}

#[test]
fn query_is_passed_to_push() {
    let q = SearchQuery { q: "verus".to_string() };
    let p = props(Route::User { id: 1 }, Some(q.clone()), Some("f"));
    let (nav, _) = click(&p);
    assert_eq!(nav.query(), Some(&q));
    assert_eq!(nav.route(), &Route::User { id: 1 });
    assert_eq!(nav.fragment(), Some(&"f".to_string()));
    assert_eq!(render(&p).href, "/users/1#f");
}

#[test]
fn rendering_twice_gives_same_href() {
    let p = props(Route::User { id: 7 }, Some(rust_query()), Some("a"));
    let link = Link::create();
    let first = link.view(&p, &p.to.path());
    let second = link.view(&p, &p.to.path());
    assert_eq!(first, second);
}

#[test]
fn disabled_link_carries_indicator_and_still_dispatches() {
    let mut p = props(Route::Search, None, Some("top"));
    p.disabled = true;
    let a = render(&p);
    assert!(a.disabled);
    assert_eq!(a.href, "/search#top");
    let (nav, rerender) = click(&p);
    assert_eq!(
        nav,
        Navigation::PushWithFragment { route: Route::Search, fragment: "top".to_string() }
    );
    assert!(!rerender);
}

#[test]
fn enabled_link_has_no_disabled_indicator() {
    let p = props(Route::Home, None, None);
    assert!(!render(&p).disabled);
}

#[test]
fn classes_pass_through() {
    let mut p = props(Route::Home, None, None);
    p.classes = "nav active".to_string();
    assert_eq!(render(&p).class, "nav active");
}

#[test]
fn resolve_with_empty_parts() {
    assert_eq!(resolve_href(&String::new(), &None), "");
    assert_eq!(resolve_href(&String::new(), &Some(String::new())), "#");
    assert_eq!(resolve_href(&"/a".to_string(), &Some(String::new())), "/a#");
}

#[test]
fn dispatch_without_optional_parts_has_no_query_or_fragment() {
    let nav: Navigation<u32, ()> = dispatch(3, None, None);
    assert_eq!(nav.query(), None);
    assert_eq!(nav.fragment(), None);
    assert_eq!(nav.route(), &3);
}
