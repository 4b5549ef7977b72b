//! The router: maps a normalized URL path to exactly one page view, with a
//! total fallback for every string that matches no registered pattern.

use vstd::prelude::*;

verus! {

/// Identifies one page view of the site.
#[derive(Clone, Copy, Debug, PartialEq, Eq, Structural)]
pub enum PageId {
    Home,
    Woman,
    Man,
    NewArrivals,
    Sale,
    About,
    Contact,
    Privacy,
    Shipping,
    Terms,
    NotFound,
}

/// How a path was resolved: against a registered pattern, or to the
/// designated not-found fallback.
#[derive(Clone, Copy, Debug, PartialEq, Eq, Structural)]
pub enum RouteMatchKind {
    Registered,
    Fallback,
}

/// One registered route: a static path pattern and the page it selects.
#[derive(Debug, PartialEq, Eq)]
pub struct Route {
    pub pattern: String,
    pub page: PageId,
}

/// A path with its trailing slash stripped, except for the root path.
pub open spec fn normalize_path(s: Seq<char>) -> Seq<char> {
    if s.len() > 1 && s.last() == '/' {
        s.drop_last()
    } else {
        s
    }
}

/// The page selected by the first route whose pattern reads `path`, or
/// `None` when no pattern does.
pub open spec fn route_lookup(routes: Seq<Route>, path: Seq<char>) -> Option<PageId>
    decreases routes.len(),
{
    if routes.len() == 0 {
        None
    } else if routes[0].pattern@ == path {
        Some(routes[0].page)
    } else {
        route_lookup(routes.drop_first(), path)
    }
}

/// No two registered patterns read the same.
pub open spec fn route_patterns_unique(routes: Seq<Route>) -> bool {
    forall|i: int, j: int|
        0 <= i < j < routes.len() ==> routes[i].pattern@ != routes[j].pattern@
}

/// Looking a path up in a concatenation tries the front routes first.
pub proof fn lemma_route_lookup_append(s1: Seq<Route>, s2: Seq<Route>, path: Seq<char>)
    ensures
        route_lookup(s1 + s2, path) == (match route_lookup(s1, path) {
            Some(p) => Some(p),
            None => route_lookup(s2, path),
        }),
    decreases s1.len(),
{
    if s1.len() == 0 {
        assert(s1 + s2 =~= s2);
    } else {
        assert((s1 + s2)[0] == s1[0]);
        if s1[0].pattern@ == path {
        } else {
            assert((s1 + s2).drop_first() =~= s1.drop_first() + s2);
            lemma_route_lookup_append(s1.drop_first(), s2, path);
        }
    }
}

/// Registering one more route changes the lookup only for a pattern not
/// yet registered.
pub proof fn lemma_route_lookup_push(routes: Seq<Route>, r: Route, path: Seq<char>)
    ensures
        route_lookup(routes.push(r), path) == (match route_lookup(routes, path) {
            Some(p) => Some(p),
            None => if r.pattern@ == path {
                Some(r.page)
            } else {
                None
            },
        }),
{
    let single = seq![r];
    assert(routes.push(r) =~= routes + single);
    lemma_route_lookup_append(routes, single, path);
    assert(single.drop_first() =~= Seq::<Route>::empty());
    if r.pattern@ == path {
        assert(route_lookup(single, path) == Some(r.page));
    } else {
        assert(route_lookup(single, path) == route_lookup(single.drop_first(), path));
        assert(route_lookup(single.drop_first(), path) is None);
    }
}

/// Every registered pattern resolves to its own page: with unique patterns,
/// looking route `i`'s pattern up yields route `i`'s page and no other.
pub proof fn lemma_lookup_registered(routes: Seq<Route>, i: int)
    requires
        route_patterns_unique(routes),
        0 <= i < routes.len(),
    ensures
        route_lookup(routes, routes[i].pattern@) == Some(routes[i].page),
    decreases routes.len(),
{
    if i == 0 {
    } else {
        assert(routes[0].pattern@ != routes[i].pattern@);
        assert(route_patterns_unique(routes.drop_first())) by {
            assert forall|m: int, n: int|
                0 <= m < n < routes.drop_first().len() implies routes.drop_first()[m].pattern@
                != routes.drop_first()[n].pattern@ by {
                assert(routes.drop_first()[m] == routes[m + 1]);
                assert(routes.drop_first()[n] == routes[n + 1]);
            }
        }
        lemma_lookup_registered(routes.drop_first(), i - 1);
        assert(routes.drop_first()[i - 1] == routes[i]);
    }
}

/// A path that matches no registered pattern resolves to nothing, so
/// `resolve` falls back on it: the fallback is total over all strings.
pub proof fn lemma_lookup_unmatched(routes: Seq<Route>, path: Seq<char>)
    requires
        forall|i: int| 0 <= i < routes.len() ==> routes[i].pattern@ != path,
    ensures
        route_lookup(routes, path) is None,
    decreases routes.len(),
{
    if routes.len() == 0 {
    } else {
        assert(routes[0].pattern@ != path);
        assert forall|i: int|
            0 <= i < routes.drop_first().len() implies routes.drop_first()[i].pattern@
            != path by {
            assert(routes.drop_first()[i] == routes[i + 1]);
        }
        lemma_lookup_unmatched(routes.drop_first(), path);
    }
}

/// Normalizes a path: strips one trailing slash, except from the root.
pub fn normalize(path: &str) -> (r: String)
    ensures
        r@ == normalize_path(path@),
{
    let n = path.unicode_len();
    if n > 1 && path.get_char(n - 1) == '/' {
        let stripped = path.substring_char(0, n - 1);
        proof {
            assert(path@.subrange(0, n - 1) =~= path@.drop_last());
        }
        stripped.to_owned()
    } else {
        path.to_owned()
    }
}

/// Resolves a path to a page view: the first route whose pattern equals the
/// normalized path wins; every unmatched string falls back to the not-found
/// page. This never fails.
pub fn resolve(routes: &Vec<Route>, path: &str) -> (r: (PageId, RouteMatchKind))
    ensures
        (match route_lookup(routes@, normalize_path(path@)) {
            Some(p) => r == (p, RouteMatchKind::Registered),
            None => r == (PageId::NotFound, RouteMatchKind::Fallback),
        }),
{
    let ghost all = routes@;
    let ghost target = normalize_path(path@);
    let norm = normalize(path);
    let mut i: usize = 0;
    while i < routes.len()
        invariant
            i <= routes.len(),
            all == routes@,
            target == normalize_path(path@),
            norm@ == target,
            route_lookup(all.take(i as int), target) is None,
        decreases routes.len() - i,
    {
        proof {
            assert(all.take(i as int + 1) =~= all.take(i as int).push(all[i as int]));
            lemma_route_lookup_push(all.take(i as int), all[i as int], target);
        }
        if routes[i].pattern == norm {
            proof {
                assert(all =~= all.take(i as int + 1) + all.skip(i as int + 1));
                lemma_route_lookup_append(all.take(i as int + 1), all.skip(i as int + 1), target);
            }
            return (routes[i].page, RouteMatchKind::Registered);
        }
        i = i + 1;
    }
    proof {
        assert(all.take(routes@.len() as int) =~= all);
    }
    (PageId::NotFound, RouteMatchKind::Fallback)
}

/// One registered route.
fn route(pattern: &str, page: PageId) -> (r: Route)
    ensures
        r.pattern@ == pattern@,
        r.page == page,
{
    Route { pattern: pattern.to_owned(), page }
}

/// The site's route table, in registration order, under the canonical
/// top-level path scheme. Patterns are unique, so each one resolves to its
/// own page.
pub fn default_routes() -> (r: Vec<Route>)
    ensures
        r@.len() == 10,
        r@[0].pattern@ == "/"@ && r@[0].page == PageId::Home,
        r@[1].pattern@ == "/woman"@ && r@[1].page == PageId::Woman,
        r@[2].pattern@ == "/man"@ && r@[2].page == PageId::Man,
        r@[3].pattern@ == "/new-arrivals"@ && r@[3].page == PageId::NewArrivals,
        r@[4].pattern@ == "/sale"@ && r@[4].page == PageId::Sale,
        r@[5].pattern@ == "/about"@ && r@[5].page == PageId::About,
        r@[6].pattern@ == "/contact"@ && r@[6].page == PageId::Contact,
        r@[7].pattern@ == "/privacy"@ && r@[7].page == PageId::Privacy,
        r@[8].pattern@ == "/shipping"@ && r@[8].page == PageId::Shipping,
        r@[9].pattern@ == "/terms"@ && r@[9].page == PageId::Terms,
        route_patterns_unique(r@),
{
    let r: Vec<Route> = vec![
        route("/", PageId::Home),
        route("/woman", PageId::Woman),
        route("/man", PageId::Man),
        route("/new-arrivals", PageId::NewArrivals),
        route("/sale", PageId::Sale),
        route("/about", PageId::About),
        route("/contact", PageId::Contact),
        route("/privacy", PageId::Privacy),
        route("/shipping", PageId::Shipping),
        route("/terms", PageId::Terms),
    ];
    proof {
        reveal_strlit("/");
        reveal_strlit("/woman");
        reveal_strlit("/man");
        reveal_strlit("/new-arrivals");
        reveal_strlit("/sale");
        reveal_strlit("/about");
        reveal_strlit("/contact");
        reveal_strlit("/privacy");
        reveal_strlit("/shipping");
        reveal_strlit("/terms");
        assert forall|i: int, j: int|
            0 <= i < j < r@.len() implies r@[i].pattern@ != r@[j].pattern@ by {
            assert(r@[0].pattern@.len() == 1);
            assert(r@[1].pattern@.len() == 6);
            assert(r@[2].pattern@.len() == 4);
            assert(r@[3].pattern@.len() == 13);
            assert(r@[4].pattern@.len() == 5);
            assert(r@[5].pattern@.len() == 6);
            assert(r@[6].pattern@.len() == 8);
            assert(r@[7].pattern@.len() == 8);
            assert(r@[8].pattern@.len() == 9);
            assert(r@[9].pattern@.len() == 6);
            assert(r@[1].pattern@[1] == 'w');
            assert(r@[5].pattern@[1] == 'a');
            assert(r@[9].pattern@[1] == 't');
            assert(r@[6].pattern@[1] == 'c');
            assert(r@[7].pattern@[1] == 'p');
        }
    }
    r
}

} // verus!
