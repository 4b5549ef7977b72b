//! The shared layout: header, navigation bar, footer, and the composer
//! that wraps page content in them in a fixed vertical order.

use vstd::prelude::*;
use crate::content::{
    Attribute, ContentNode, attribute, attrs_of, children_of, element, has_attr, is_element,
    is_text, plain_element, single_text, text,
};

verus! {

/// One entry of the navigation bar: a label and the path it links to.
#[derive(Debug, PartialEq, Eq)]
pub struct NavigationEntry {
    pub label: String,
    pub target_path: String,
}

/// The shape of a list item holding one link: to `href`, reading `label`.
pub open spec fn li_link_shape(n: ContentNode, href: Seq<char>, label: Seq<char>) -> bool {
    &&& is_element(n, "li"@)
    &&& children_of(n).len() == 1
    &&& is_element(children_of(n)[0], "a"@)
    &&& has_attr(children_of(n)[0], "href"@, href)
    &&& single_text(children_of(n)[0], label)
}

/// The shape of one rendered navigation entry: a list item holding a link
/// to the entry's target path, labelled with the entry's label.
pub open spec fn nav_entry_shape(n: ContentNode, e: NavigationEntry) -> bool {
    li_link_shape(n, e.target_path@, e.label@)
}

/// The shape of a social-media link: it opens in a new browsing context
/// and severs the opener relation.
pub open spec fn social_link_shape(n: ContentNode, href: Seq<char>) -> bool {
    &&& is_element(n, "a"@)
    &&& has_attr(n, "href"@, href)
    &&& has_attr(n, "target"@, "_blank"@)
    &&& has_attr(n, "rel"@, "noopener noreferrer"@)
}

/// The shape of the rendered navigation bar: a `nav` element holding one
/// list with one item per entry, in the entries' order.
pub open spec fn navbar_shape(n: ContentNode, entries: Seq<NavigationEntry>) -> bool {
    &&& is_element(n, "nav"@)
    &&& children_of(n).len() == 1
    &&& is_element(children_of(n)[0], "ul"@)
    &&& children_of(children_of(n)[0]).len() == entries.len()
    &&& forall|i: int|
        0 <= i < entries.len() ==> nav_entry_shape(
            children_of(children_of(n)[0])[i],
            entries[i],
        )
}

/// The shape of the composed document body: header, then navigation, then
/// the page content inside the designated `main` region, then footer —
/// present on every route, in this order and no other.
pub open spec fn composed_shape(
    r: ContentNode,
    header: ContentNode,
    nav: ContentNode,
    page: ContentNode,
    footer: ContentNode,
) -> bool {
    &&& is_element(r, "body"@)
    &&& children_of(r).len() == 4
    &&& children_of(r)[0] == header
    &&& children_of(r)[1] == nav
    &&& is_element(children_of(r)[2], "main"@)
    &&& children_of(children_of(r)[2]) == seq![page]
    &&& children_of(r)[3] == footer
}

/// The shape of the shared page header: the logo link to the root, the
/// search form with its declared target and query input, and the account
/// and cart links with the cart count.
pub open spec fn header_shape(r: ContentNode) -> bool {
    &&& is_element(r, "header"@)
    &&& children_of(r).len() == 3
    &&& is_element(children_of(r)[0], "div"@)
    &&& has_attr(children_of(r)[0], "class"@, "logo-title"@)
    &&& children_of(children_of(r)[0]).len() == 1
    &&& is_element(children_of(children_of(r)[0])[0], "a"@)
    &&& has_attr(children_of(children_of(r)[0])[0], "href"@, "/"@)
    &&& is_element(children_of(r)[1], "div"@)
    &&& has_attr(children_of(r)[1], "class"@, "search-bar"@)
    &&& children_of(children_of(r)[1]).len() == 1
    &&& is_element(children_of(children_of(r)[1])[0], "form"@)
    &&& has_attr(children_of(children_of(r)[1])[0], "action"@, "/search"@)
    &&& has_attr(children_of(children_of(r)[1])[0], "method"@, "get"@)
    &&& children_of(children_of(children_of(r)[1])[0]).len() == 3
    &&& is_element(children_of(children_of(children_of(r)[1])[0])[1], "input"@)
    &&& has_attr(children_of(children_of(children_of(r)[1])[0])[1], "name"@, "query"@)
    &&& is_element(children_of(r)[2], "div"@)
    &&& has_attr(children_of(r)[2], "class"@, "user-cart-icons"@)
    &&& children_of(children_of(r)[2]).len() == 2
    &&& is_element(children_of(children_of(r)[2])[0], "a"@)
    &&& has_attr(children_of(children_of(r)[2])[0], "href"@, "/account"@)
    &&& is_element(children_of(children_of(r)[2])[1], "a"@)
    &&& has_attr(children_of(children_of(r)[2])[1], "href"@, "/cart"@)
    &&& children_of(children_of(children_of(r)[2])[1]).len() == 2
    &&& is_element(children_of(children_of(children_of(r)[2])[1])[1], "span"@)
    &&& has_attr(children_of(children_of(children_of(r)[2])[1])[1], "class"@, "cart-count"@)
    &&& single_text(children_of(children_of(children_of(r)[2])[1])[1], "0"@)
}

/// The shape of the shared page footer: the secondary link list with its
/// four targets in order, the social media links, and the copyright line.
pub open spec fn footer_shape(r: ContentNode) -> bool {
    &&& is_element(r, "footer"@)
    &&& children_of(r).len() == 3
    &&& is_element(children_of(r)[0], "div"@)
    &&& has_attr(children_of(r)[0], "class"@, "footer-links"@)
    &&& children_of(children_of(r)[0]).len() == 1
    &&& is_element(children_of(children_of(r)[0])[0], "ul"@)
    &&& children_of(children_of(children_of(r)[0])[0]).len() == 4
    &&& li_link_shape(children_of(children_of(children_of(r)[0])[0])[0], "/contact"@, "Kontakt"@)
    &&& li_link_shape(
        children_of(children_of(children_of(r)[0])[0])[1],
        "/shipping"@,
        "Wysyłka i zwroty"@,
    )
    &&& li_link_shape(
        children_of(children_of(children_of(r)[0])[0])[2],
        "/privacy"@,
        "Polityka Prywatności"@,
    )
    &&& li_link_shape(
        children_of(children_of(children_of(r)[0])[0])[3],
        "/terms"@,
        "Regulamin sklepu"@,
    )
    &&& is_element(children_of(r)[1], "div"@)
    &&& has_attr(children_of(r)[1], "class"@, "social-media"@)
    &&& children_of(children_of(r)[1]).len() == 3
    &&& social_link_shape(children_of(children_of(r)[1])[1], "https://www.facebook.com/MegJoni"@)
    &&& social_link_shape(children_of(children_of(r)[1])[2], "https://www.instagram.com/Meg.joni"@)
    &&& is_element(children_of(r)[2], "div"@)
    &&& has_attr(children_of(r)[2], "class"@, "copyright"@)
    &&& children_of(children_of(r)[2]).len() == 1
    &&& is_element(children_of(children_of(r)[2])[0], "p"@)
    &&& children_of(children_of(children_of(r)[2])[0]).len() == 3
    &&& is_text(children_of(children_of(children_of(r)[2])[0])[0], "©"@)
    &&& is_element(children_of(children_of(children_of(r)[2])[0])[1], "span"@)
    &&& single_text(children_of(children_of(children_of(r)[2])[0])[1], "2025"@)
    &&& is_text(
        children_of(children_of(children_of(r)[2])[0])[2],
        " Meg Joni. Wszelkie prawa zastrzeżone."@,
    )
}

/// A list item holding one link: the building block of the navigation bar
/// and of the footer's link list.
fn link_item(href: &str, label: &str) -> (r: ContentNode)
    ensures
        li_link_shape(r, href@, label@),
{
    let anchor = element("a", vec![attribute("href", href)], vec![text(label)]);
    let r = plain_element("li", vec![anchor]);
    proof {
        assert(attrs_of(children_of(r)[0])[0].name@ == "href"@);
    }
    r
}

/// An image element with a source and an alternative text.
fn image(src: &str, alt: &str) -> (r: ContentNode)
    ensures
        is_element(r, "img"@),
        has_attr(r, "src"@, src@),
        has_attr(r, "alt"@, alt@),
{
    let r = element("img", vec![attribute("src", src), attribute("alt", alt)], Vec::new());
    proof {
        assert(attrs_of(r)[0].name@ == "src"@);
        assert(attrs_of(r)[1].name@ == "alt"@);
    }
    r
}

/// The navigation entries of the site, in presentation order.
pub fn default_nav_entries() -> (r: Vec<NavigationEntry>)
    ensures
        r@.len() == 7,
        r@[0].label@ == "Strona Główna"@ && r@[0].target_path@ == "/"@,
        r@[1].label@ == "Damska"@ && r@[1].target_path@ == "/woman"@,
        r@[2].label@ == "Męska"@ && r@[2].target_path@ == "/man"@,
        r@[3].label@ == "Nowości"@ && r@[3].target_path@ == "/new-arrivals"@,
        r@[4].label@ == "Wyprzedaż"@ && r@[4].target_path@ == "/sale"@,
        r@[5].label@ == "O Nas"@ && r@[5].target_path@ == "/about"@,
        r@[6].label@ == "Kontakt"@ && r@[6].target_path@ == "/contact"@,
{
    vec![
        nav_entry("Strona Główna", "/"),
        nav_entry("Damska", "/woman"),
        nav_entry("Męska", "/man"),
        nav_entry("Nowości", "/new-arrivals"),
        nav_entry("Wyprzedaż", "/sale"),
        nav_entry("O Nas", "/about"),
        nav_entry("Kontakt", "/contact"),
    ]
}

/// One navigation entry.
fn nav_entry(label: &str, target_path: &str) -> (r: NavigationEntry)
    ensures
        r.label@ == label@,
        r.target_path@ == target_path@,
{
    NavigationEntry { label: label.to_owned(), target_path: target_path.to_owned() }
}

/// Renders the navigation bar from the given entries, keeping their order.
pub fn navbar(entries: &Vec<NavigationEntry>) -> (r: ContentNode)
    ensures
        navbar_shape(r, entries@),
{
    let mut items: Vec<ContentNode> = Vec::new();
    let mut i: usize = 0;
    while i < entries.len()
        invariant
            i <= entries.len(),
            items@.len() == i as int,
            forall|j: int| 0 <= j < i as int ==> nav_entry_shape(items@[j], entries@[j]),
        decreases entries.len() - i,
    {
        let item = link_item(entries[i].target_path.as_str(), entries[i].label.as_str());
        items.push(item);
        i = i + 1;
    }
    let listing = plain_element("ul", items);
    let r = plain_element("nav", vec![listing]);
    r
}

/// Renders the shared page header: the logo link, the search form, and the
/// account and cart links.
pub fn header() -> (r: ContentNode)
    ensures
        header_shape(r),
{
    let logo = element(
        "a",
        vec![attribute("href", "/")],
        vec![image("/megjoni-big.png", "Nazwa Sklepu Meg Joni / Logo")],
    );
    let logo_box = element("div", vec![attribute("class", "logo-title")], vec![logo]);
    let search_input = element(
        "input",
        vec![
            attribute("type", "text"),
            attribute("id", "search-input"),
            attribute("name", "query"),
            attribute("placeholder", "Szukaj..."),
        ],
        Vec::new(),
    );
    let search_label = element(
        "label",
        vec![attribute("for", "search-input"), attribute("class", "visually-hidden")],
        vec![text("Szukaj produktów")],
    );
    let search_button = element(
        "button",
        vec![attribute("type", "submit")],
        vec![text("Szukaj")],
    );
    let search_form = element(
        "form",
        vec![attribute("action", "/search"), attribute("method", "get")],
        vec![search_label, search_input, search_button],
    );
    let search_box = element("div", vec![attribute("class", "search-bar")], vec![search_form]);
    let account_link = element(
        "a",
        vec![attribute("href", "/account"), attribute("aria-label", "Moje konto")],
        vec![image("/my-account.svg", "")],
    );
    let cart_count = element(
        "span",
        vec![attribute("class", "cart-count")],
        vec![text("0")],
    );
    let cart_link = element(
        "a",
        vec![attribute("href", "/cart"), attribute("aria-label", "Mój koszyk")],
        vec![image("/shopping-cart.svg", ""), cart_count],
    );
    let icon_box = element(
        "div",
        vec![attribute("class", "user-cart-icons")],
        vec![account_link, cart_link],
    );
    let r = plain_element("header", vec![logo_box, search_box, icon_box]);
    proof {
        assert(attrs_of(children_of(r)[0])[0].name@ == "class"@);
        assert(attrs_of(children_of(children_of(r)[0])[0])[0].name@ == "href"@);
        assert(attrs_of(children_of(r)[1])[0].name@ == "class"@);
        assert(attrs_of(children_of(children_of(r)[1])[0])[0].name@ == "action"@);
        assert(attrs_of(children_of(children_of(r)[1])[0])[1].name@ == "method"@);
        assert(attrs_of(children_of(children_of(children_of(r)[1])[0])[1])[2].name@ == "name"@);
        assert(attrs_of(children_of(r)[2])[0].name@ == "class"@);
        assert(attrs_of(children_of(children_of(r)[2])[0])[0].name@ == "href"@);
        assert(attrs_of(children_of(children_of(r)[2])[1])[0].name@ == "href"@);
        assert(attrs_of(children_of(children_of(children_of(r)[2])[1])[1])[0].name@ == "class"@);
    }
    r
}

/// Renders the shared page footer: the secondary link list, the social
/// media links, and the copyright line.
pub fn footer() -> (r: ContentNode)
    ensures
        footer_shape(r),
{
    let links = plain_element(
        "ul",
        vec![
            link_item("/contact", "Kontakt"),
            link_item("/shipping", "Wysyłka i zwroty"),
            link_item("/privacy", "Polityka Prywatności"),
            link_item("/terms", "Regulamin sklepu"),
        ],
    );
    let link_box = element("div", vec![attribute("class", "footer-links")], vec![links]);
    let facebook = element(
        "a",
        vec![
            attribute("href", "https://www.facebook.com/MegJoni"),
            attribute("target", "_blank"),
            attribute("rel", "noopener noreferrer"),
            attribute("aria-label", "Facebook"),
        ],
        vec![image("/facebook.svg", "")],
    );
    let instagram = element(
        "a",
        vec![
            attribute("href", "https://www.instagram.com/Meg.joni"),
            attribute("target", "_blank"),
            attribute("rel", "noopener noreferrer"),
            attribute("aria-label", "Instagram"),
        ],
        vec![image("/instagram.svg", "")],
    );
    let social_box = element(
        "div",
        vec![attribute("class", "social-media")],
        vec![text("Znajdź nas w social mediach:"), facebook, instagram],
    );
    let year = element("span", vec![attribute("id", "current-year")], vec![text("2025")]);
    let copyright_line = plain_element(
        "p",
        vec![text("©"), year, text(" Meg Joni. Wszelkie prawa zastrzeżone.")],
    );
    let copyright_box = element(
        "div",
        vec![attribute("class", "copyright")],
        vec![copyright_line],
    );
    let r = plain_element("footer", vec![link_box, social_box, copyright_box]);
    proof {
        assert(attrs_of(children_of(r)[0])[0].name@ == "class"@);
        assert(attrs_of(children_of(r)[1])[0].name@ == "class"@);
        assert(attrs_of(children_of(children_of(r)[1])[1])[0].name@ == "href"@);
        assert(attrs_of(children_of(children_of(r)[1])[1])[1].name@ == "target"@);
        assert(attrs_of(children_of(children_of(r)[1])[1])[2].name@ == "rel"@);
        assert(attrs_of(children_of(children_of(r)[1])[2])[0].name@ == "href"@);
        assert(attrs_of(children_of(children_of(r)[1])[2])[1].name@ == "target"@);
        assert(attrs_of(children_of(children_of(r)[1])[2])[2].name@ == "rel"@);
        assert(attrs_of(children_of(r)[2])[0].name@ == "class"@);
    }
    r
}

/// Wraps page content with the shared layout: header, then navigation,
/// then the content inside the `main` region, then footer. The order is an
/// invariant of every rendered document and nothing is ever omitted.
pub fn compose(
    header: ContentNode,
    nav: ContentNode,
    page: ContentNode,
    footer: ContentNode,
) -> (r: ContentNode)
    ensures
        composed_shape(r, header, nav, page, footer),
{
    let main_region = plain_element("main", vec![page]);
    let r = plain_element("body", vec![header, nav, main_region, footer]);
    proof {
        assert(children_of(children_of(r)[2]) =~= seq![page]);
    }
    r
}

} // verus!
