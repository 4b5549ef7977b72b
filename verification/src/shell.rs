//! The shell renderer: assembles the full document for a resolved page —
//! merged head metadata, global resources, and the composed content tree —
//! and the single inbound operation that renders a URL path to a document.

use vstd::prelude::*;
use crate::content::{
    ContentNode, attribute, attrs_of, children_of, element, has_attr, is_element, plain_element,
    single_text, text,
};
use crate::layout::{
    NavigationEntry, compose, default_nav_entries, footer, footer_shape, header, header_shape,
    navbar, navbar_shape,
};
use crate::metadata::{
    Metadata, PageMetadata, merge_metadata, merged_tag, merged_tags_ordered, tag_lookup,
};
use crate::pages::{CatalogSource, page_view, page_view_shape};
use crate::routes::{
    PageId, Route, default_routes, normalize_path, resolve, route_lookup, route_patterns_unique,
};

verus! {

/// A full rendered document: the declared document type, the fixed
/// locale, the merged head metadata, the head tags that embed it beside
/// the global resources, and the composed body tree.
#[derive(Debug, PartialEq, Eq)]
pub struct Document {
    pub doctype: String,
    pub lang: String,
    pub metadata: Metadata,
    pub head: Vec<ContentNode>,
    pub body: ContentNode,
}

/// The site's process-wide, read-only configuration: the route table, the
/// navigation entries, and the global default metadata.
#[derive(Debug, PartialEq, Eq)]
pub struct SiteConfig {
    pub routes: Vec<Route>,
    pub nav_entries: Vec<NavigationEntry>,
    pub global_metadata: Metadata,
}

/// The title the rendered document carries: the page override when set,
/// the global default otherwise.
pub open spec fn merged_title(global: Metadata, page: Option<PageMetadata>) -> Seq<char> {
    match page {
        Some(p) => match p.title {
            Some(t) => t@,
            None => global.title@,
        },
        None => global.title@,
    }
}

/// The description the rendered document carries.
pub open spec fn merged_description(global: Metadata, page: Option<PageMetadata>) -> Seq<char> {
    match page {
        Some(p) => match p.description {
            Some(d) => d@,
            None => global.description@,
        },
        None => global.description@,
    }
}

/// The canonical URL the rendered document carries.
pub open spec fn merged_canonical(global: Metadata, page: Option<PageMetadata>) -> Seq<char> {
    match page {
        Some(p) => match p.canonical_url {
            Some(u) => u@,
            None => global.canonical_url@,
        },
        None => global.canonical_url@,
    }
}

/// The social-preview tag value the rendered document carries for name
/// `k`: the mapping union of the listings, page entries winning.
pub open spec fn merged_og(
    global: Metadata,
    page: Option<PageMetadata>,
    k: Seq<char>,
) -> Option<Seq<char>> {
    merged_tag(
        global.og_tags@,
        (match page {
            Some(p) => p.og_tags@,
            None => Seq::<(String, String)>::empty(),
        }),
        k,
    )
}

/// The shape of one embedded social-preview tag.
pub open spec fn og_meta_shape(n: ContentNode, name: Seq<char>, value: Seq<char>) -> bool {
    &&& is_element(n, "meta"@)
    &&& has_attr(n, "property"@, name)
    &&& has_attr(n, "content"@, value)
}

/// The shape of the document head: the fixed meta tags, then the title,
/// description and canonical link carrying the merged metadata, then one
/// meta tag per merged social-preview entry in listing order, then the
/// reference to the global stylesheet.
pub open spec fn head_shape(head: Seq<ContentNode>, m: Metadata) -> bool {
    &&& head.len() == 10 + m.og_tags@.len()
    &&& is_element(head[0], "meta"@) && has_attr(head[0], "charset"@, "utf-8"@)
    &&& is_element(head[1], "meta"@) && has_attr(head[1], "name"@, "viewport"@)
    &&& is_element(head[2], "meta"@) && has_attr(head[2], "name"@, "keywords"@)
    &&& is_element(head[3], "meta"@) && has_attr(head[3], "name"@, "author"@)
    &&& is_element(head[4], "meta"@) && has_attr(head[4], "name"@, "robots"@)
    &&& is_element(head[5], "meta"@) && has_attr(head[5], "name"@, "theme-color"@)
    &&& is_element(head[6], "title"@) && single_text(head[6], m.title@)
    &&& is_element(head[7], "meta"@) && has_attr(head[7], "name"@, "description"@) && has_attr(
        head[7],
        "content"@,
        m.description@,
    )
    &&& is_element(head[8], "link"@) && has_attr(head[8], "rel"@, "canonical"@) && has_attr(
        head[8],
        "href"@,
        m.canonical_url@,
    )
    &&& forall|j: int|
        9 <= j < 9 + m.og_tags@.len() ==> og_meta_shape(
            #[trigger] head[j],
            m.og_tags@[j - 9].0@,
            m.og_tags@[j - 9].1@,
        )
    &&& is_element(head[9 + m.og_tags@.len() as int], "link"@)
    &&& has_attr(head[9 + m.og_tags@.len() as int], "rel"@, "stylesheet"@)
    &&& has_attr(head[9 + m.og_tags@.len() as int], "href"@, "/style.css"@)
}

/// The shape of the rendered body: the composed shell around the routed
/// page content, with the navigation rendered from the given entries.
pub open spec fn shell_body_shape(
    body: ContentNode,
    page: ContentNode,
    nav_entries: Seq<NavigationEntry>,
) -> bool {
    &&& is_element(body, "body"@)
    &&& children_of(body).len() == 4
    &&& header_shape(children_of(body)[0])
    &&& navbar_shape(children_of(body)[1], nav_entries)
    &&& is_element(children_of(body)[2], "main"@)
    &&& children_of(children_of(body)[2]) == seq![page]
    &&& footer_shape(children_of(body)[3])
}

/// The page content mounted in the body's `main` region.
pub open spec fn main_content(body: ContentNode) -> ContentNode
    recommends
        is_element(body, "body"@),
        children_of(body).len() == 4,
{
    children_of(children_of(body)[2])[0]
}

/// The page selected for a path: the registered page when the normalized
/// path matches a pattern, the not-found fallback otherwise.
pub open spec fn resolved_page(routes: Seq<Route>, path: Seq<char>) -> PageId {
    match route_lookup(routes, normalize_path(path)) {
        Some(p) => p,
        None => PageId::NotFound,
    }
}

/// A meta tag with a name and a content value.
fn meta_name(name: &str, value: &str) -> (r: ContentNode)
    ensures
        is_element(r, "meta"@),
        has_attr(r, "name"@, name@),
        has_attr(r, "content"@, value@),
{
    let r = element(
        "meta",
        vec![attribute("name", name), attribute("content", value)],
        Vec::new(),
    );
    proof {
        assert(attrs_of(r)[0].name@ == "name"@);
        assert(attrs_of(r)[1].name@ == "content"@);
    }
    r
}

/// One embedded social-preview tag.
fn og_meta(name: &str, value: &str) -> (r: ContentNode)
    ensures
        og_meta_shape(r, name@, value@),
{
    let r = element(
        "meta",
        vec![attribute("property", name), attribute("content", value)],
        Vec::new(),
    );
    proof {
        assert(attrs_of(r)[0].name@ == "property"@);
        assert(attrs_of(r)[1].name@ == "content"@);
    }
    r
}

/// A link tag with a relation and a target.
fn link_tag(rel: &str, href: &str) -> (r: ContentNode)
    ensures
        is_element(r, "link"@),
        has_attr(r, "rel"@, rel@),
        has_attr(r, "href"@, href@),
{
    let r = element("link", vec![attribute("rel", rel), attribute("href", href)], Vec::new());
    proof {
        assert(attrs_of(r)[0].name@ == "rel"@);
        assert(attrs_of(r)[1].name@ == "href"@);
    }
    r
}

/// Embeds a tag listing as one meta tag per entry, in listing order.
fn og_meta_nodes(tags: &Vec<(String, String)>) -> (r: Vec<ContentNode>)
    ensures
        r@.len() == tags@.len(),
        forall|j: int|
            0 <= j < tags@.len() ==> og_meta_shape(#[trigger] r@[j], tags@[j].0@, tags@[j].1@),
{
    let mut r: Vec<ContentNode> = Vec::new();
    let mut i: usize = 0;
    while i < tags.len()
        invariant
            i <= tags.len(),
            r@.len() == i as int,
            forall|j: int|
                0 <= j < i as int ==> og_meta_shape(#[trigger] r@[j], tags@[j].0@, tags@[j].1@),
        decreases tags.len() - i,
    {
        let node = og_meta(tags[i].0.as_str(), tags[i].1.as_str());
        r.push(node);
        i = i + 1;
    }
    r
}

/// Builds the document head for merged metadata `m`: fixed meta tags, the
/// merged title, description and canonical link, the social-preview tags,
/// and the global stylesheet reference.
fn head_nodes(m: &Metadata) -> (r: Vec<ContentNode>)
    ensures
        head_shape(r@, *m),
{
    let charset = element("meta", vec![attribute("charset", "utf-8")], Vec::new());
    proof {
        assert(attrs_of(charset)[0].name@ == "charset"@);
    }
    let mut r: Vec<ContentNode> = vec![
        charset,
        meta_name("viewport", "width=device-width, initial-scale=1"),
        meta_name(
            "keywords",
            "odzież używana, second hand online, sklep vintage, ciuchy z drugiej ręki, moda ekologiczna, ubrania używane, outlet, odzież damska używana, odzież męska używana",
        ),
        meta_name("author", "Meg Joni"),
        meta_name("robots", "index, follow"),
        meta_name("theme-color", "#ffffff"),
        plain_element("title", vec![text(m.title.as_str())]),
        meta_name("description", m.description.as_str()),
        link_tag("canonical", m.canonical_url.as_str()),
    ];
    let mut og = og_meta_nodes(&m.og_tags);
    let ghost og_part = og@;
    r.append(&mut og);
    r.push(link_tag("stylesheet", "/style.css"));
    proof {
        assert(r@.len() == 10 + m.og_tags@.len());
        assert forall|j: int|
            9 <= j < 9 + m.og_tags@.len() implies og_meta_shape(
            #[trigger] r@[j],
            m.og_tags@[j - 9].0@,
            m.og_tags@[j - 9].1@,
        ) by {
            assert(r@[j] == og_part[j - 9]);
        }
        assert(r@[9 + m.og_tags@.len() as int] == r@.last());
    }
    r
}

/// The global default metadata, constructed once at process start.
pub fn default_metadata() -> (r: Metadata)
    ensures
        r.title@ == "Meg Joni - Odzież Używana Online | Najlepsze Second Hand Odkrycia"@,
        r.description@
            == "Znajdź stylowe perełki z drugiej ręki i odśwież swoją garderobę w ekologiczny sposób. Wysoka jakość w świetnych cenach!"@,
        r.canonical_url@ == "https://www.megjoni.pl/"@,
        r.og_tags@.len() == 6,
        r.og_tags@[0].0@ == "og:title"@,
        r.og_tags@[1].0@ == "og:description"@,
        r.og_tags@[2].0@ == "og:type"@ && r.og_tags@[2].1@ == "website"@,
        r.og_tags@[3].0@ == "og:url"@ && r.og_tags@[3].1@ == "https://www.megjoni.pl/"@,
        r.og_tags@[4].0@ == "og:site_name"@ && r.og_tags@[4].1@ == "Meg Joni"@,
        r.og_tags@[5].0@ == "og:locale"@ && r.og_tags@[5].1@ == "pl_PL"@,
{
    Metadata {
        title: "Meg Joni - Odzież Używana Online | Najlepsze Second Hand Odkrycia".to_owned(),
        description:
            "Znajdź stylowe perełki z drugiej ręki i odśwież swoją garderobę w ekologiczny sposób. Wysoka jakość w świetnych cenach!".to_owned(),
        canonical_url: "https://www.megjoni.pl/".to_owned(),
        og_tags: vec![
            (
                "og:title".to_owned(),
                "Meg Joni - Odkryj Unikalną Odzież Używaną Online".to_owned(),
            ),
            (
                "og:description".to_owned(),
                "Znajdź stylowe perełki z drugiej ręki i odśwież swoją garderobę w ekologiczny sposób. Wysoka jakość w świetnych cenach!".to_owned(),
            ),
            ("og:type".to_owned(), "website".to_owned()),
            ("og:url".to_owned(), "https://www.megjoni.pl/".to_owned()),
            ("og:site_name".to_owned(), "Meg Joni".to_owned()),
            ("og:locale".to_owned(), "pl_PL".to_owned()),
        ],
    }
}

/// The site configuration constructed once at process start: the route
/// table, the navigation entries, and the global default metadata.
pub fn default_site() -> (r: SiteConfig)
    ensures
        r.routes@.len() == 10,
        route_patterns_unique(r.routes@),
        r.routes@[0].pattern@ == "/"@ && r.routes@[0].page == PageId::Home,
        r.routes@[1].pattern@ == "/woman"@ && r.routes@[1].page == PageId::Woman,
        r.routes@[2].pattern@ == "/man"@ && r.routes@[2].page == PageId::Man,
        r.routes@[3].pattern@ == "/new-arrivals"@ && r.routes@[3].page == PageId::NewArrivals,
        r.routes@[4].pattern@ == "/sale"@ && r.routes@[4].page == PageId::Sale,
        r.routes@[5].pattern@ == "/about"@ && r.routes@[5].page == PageId::About,
        r.routes@[6].pattern@ == "/contact"@ && r.routes@[6].page == PageId::Contact,
        r.routes@[7].pattern@ == "/privacy"@ && r.routes@[7].page == PageId::Privacy,
        r.routes@[8].pattern@ == "/shipping"@ && r.routes@[8].page == PageId::Shipping,
        r.routes@[9].pattern@ == "/terms"@ && r.routes@[9].page == PageId::Terms,
        r.nav_entries@.len() == 7,
        r.nav_entries@[0].label@ == "Strona Główna"@ && r.nav_entries@[0].target_path@ == "/"@,
        r.nav_entries@[1].label@ == "Damska"@ && r.nav_entries@[1].target_path@ == "/woman"@,
        r.nav_entries@[2].label@ == "Męska"@ && r.nav_entries@[2].target_path@ == "/man"@,
        r.nav_entries@[3].label@ == "Nowości"@ && r.nav_entries@[3].target_path@
            == "/new-arrivals"@,
        r.nav_entries@[4].label@ == "Wyprzedaż"@ && r.nav_entries@[4].target_path@ == "/sale"@,
        r.nav_entries@[5].label@ == "O Nas"@ && r.nav_entries@[5].target_path@ == "/about"@,
        r.nav_entries@[6].label@ == "Kontakt"@ && r.nav_entries@[6].target_path@ == "/contact"@,
        r.global_metadata.title@
            == "Meg Joni - Odzież Używana Online | Najlepsze Second Hand Odkrycia"@,
        r.global_metadata.description@
            == "Znajdź stylowe perełki z drugiej ręki i odśwież swoją garderobę w ekologiczny sposób. Wysoka jakość w świetnych cenach!"@,
        r.global_metadata.canonical_url@ == "https://www.megjoni.pl/"@,
        r.global_metadata.og_tags@.len() == 6,
        r.global_metadata.og_tags@[0].0@ == "og:title"@,
        r.global_metadata.og_tags@[1].0@ == "og:description"@,
        r.global_metadata.og_tags@[2].0@ == "og:type"@ && r.global_metadata.og_tags@[2].1@
            == "website"@,
        r.global_metadata.og_tags@[3].0@ == "og:url"@ && r.global_metadata.og_tags@[3].1@
            == "https://www.megjoni.pl/"@,
        r.global_metadata.og_tags@[4].0@ == "og:site_name"@ && r.global_metadata.og_tags@[4].1@
            == "Meg Joni"@,
        r.global_metadata.og_tags@[5].0@ == "og:locale"@ && r.global_metadata.og_tags@[5].1@
            == "pl_PL"@,
{
    SiteConfig {
        routes: default_routes(),
        nav_entries: default_nav_entries(),
        global_metadata: default_metadata(),
    }
}

/// Assembles the full document for a resolved page: merges the page's
/// metadata override over the global defaults, embeds the result as head
/// tags beside the global resources, and mounts the composed content tree
/// in the body. This has no failure path: every resolved page, the
/// fallback included, yields a well-formed document.
pub fn render(
    resolved: (ContentNode, Option<PageMetadata>),
    global: &Metadata,
    nav_entries: &Vec<NavigationEntry>,
) -> (r: Document)
    ensures
        r.doctype@ == "html"@,
        r.lang@ == "pl"@,
        r.metadata.title@ == merged_title(*global, resolved.1),
        r.metadata.description@ == merged_description(*global, resolved.1),
        r.metadata.canonical_url@ == merged_canonical(*global, resolved.1),
        forall|k: Seq<char>| #[trigger] tag_lookup(r.metadata.og_tags@, k) == merged_og(
            *global,
            resolved.1,
            k,
        ),
        resolved.1 is None ==> r.metadata.title == global.title && r.metadata.description
            == global.description && r.metadata.canonical_url == global.canonical_url
            && r.metadata.og_tags@ == global.og_tags@,
        merged_tags_ordered(
            r.metadata.og_tags@,
            global.og_tags@,
            (match resolved.1 {
                Some(p) => p.og_tags@,
                None => Seq::<(String, String)>::empty(),
            }),
        ),
        head_shape(r.head@, r.metadata),
        shell_body_shape(r.body, resolved.0, nav_entries@),
{
    let (page, page_meta) = resolved;
    let merged = merge_metadata(global, page_meta.as_ref());
    let head = head_nodes(&merged);
    let body = compose(header(), navbar(nav_entries), page, footer());
    Document { doctype: "html".to_owned(), lang: "pl".to_owned(), metadata: merged, head, body }
}

/// The single inbound operation: renders the document served for a URL
/// path. The router selects the page view — the not-found fallback for
/// every unmatched string — the page view renders its content from the
/// catalog source, the composer wraps it in the shared shell, and the
/// shell renderer emits the document under the global default metadata,
/// which no page of this site overrides.
pub fn render_path_to_document(site: &SiteConfig, catalog: &CatalogSource, path: &str) -> (r:
    Document)
    ensures
        r.doctype@ == "html"@,
        r.lang@ == "pl"@,
        r.metadata.title == site.global_metadata.title,
        r.metadata.description == site.global_metadata.description,
        r.metadata.canonical_url == site.global_metadata.canonical_url,
        r.metadata.og_tags@ == site.global_metadata.og_tags@,
        head_shape(r.head@, r.metadata),
        shell_body_shape(r.body, main_content(r.body), site.nav_entries@),
        page_view_shape(resolved_page(site.routes@, path@), *catalog, main_content(r.body)),
{
    let (page_id, _kind) = resolve(&site.routes, path);
    let resolved = page_view(page_id, catalog);
    let r = render(resolved, &site.global_metadata, &site.nav_entries);
    proof {
        assert(children_of(children_of(r.body)[2])[0] == resolved.0);
    }
    r
}

} // verus!
