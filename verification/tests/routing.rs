use megjoni::routes::{PageId, Route, RouteMatchKind, default_routes, normalize, resolve};

#[test]
fn registered_paths_resolve_to_their_pages() {
    let routes = default_routes();
    let cases = [
        ("/", PageId::Home),
        ("/woman", PageId::Woman),
        ("/man", PageId::Man),
        ("/new-arrivals", PageId::NewArrivals),
        ("/sale", PageId::Sale),
        ("/about", PageId::About),
        ("/contact", PageId::Contact),
        ("/privacy", PageId::Privacy),
        ("/shipping", PageId::Shipping),
        ("/terms", PageId::Terms),
    ];
    for (path, expected) in cases {
        let (page, kind) = resolve(&routes, path);
        assert_eq!(page, expected);
        assert_eq!(kind, RouteMatchKind::Registered);
    }
}

#[test]
fn unmatched_paths_fall_back() {
    let routes = default_routes();
    for path in ["/does-not-exist", "/womann", "/woman/dresses", "", "woman", "/ woman"] {
        let (page, kind) = resolve(&routes, path);
        assert_eq!(page, PageId::NotFound);
        assert_eq!(kind, RouteMatchKind::Fallback);
    }
}

#[test]
fn trailing_slash_is_stripped_except_root() {
    let routes = default_routes();
    let (page, kind) = resolve(&routes, "/woman/");
    assert_eq!(page, PageId::Woman);
    assert_eq!(kind, RouteMatchKind::Registered);
    let (page, kind) = resolve(&routes, "/");
    assert_eq!(page, PageId::Home);
    assert_eq!(kind, RouteMatchKind::Registered);
}

#[test]
fn normalize_strips_one_trailing_slash() {
    assert_eq!(normalize("/woman/"), "/woman");
    assert_eq!(normalize("/woman"), "/woman");
    assert_eq!(normalize("/"), "/");
    assert_eq!(normalize("//"), "/");
    assert_eq!(normalize(""), "");
}

#[test]
fn double_slash_resolves_to_home() {
    let routes = default_routes();
    let (page, kind) = resolve(&routes, "//");
    assert_eq!(page, PageId::Home);
    assert_eq!(kind, RouteMatchKind::Registered);
}

#[test]
fn first_match_wins_on_duplicate_patterns() {
    let routes: Vec<Route> = vec![
        Route { pattern: String::from("/p"), page: PageId::About },
        Route { pattern: String::from("/p"), page: PageId::Contact },
    ];
    let (page, kind) = resolve(&routes, "/p");
    assert_eq!(page, PageId::About);
    assert_eq!(kind, RouteMatchKind::Registered);
}
