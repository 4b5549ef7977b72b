//! The page view registry: one pure function per route, each producing a
//! content tree and an optional metadata override.
//!
//! Every page view is deterministic and side-effect-free. The catalog
//! category pages take an already-resolved sequence of product entries from
//! the placeholder catalog source and render them in the order supplied.

use vstd::prelude::*;
use crate::content::{
    Attribute, ContentNode, attribute, attrs_of, children_of, element, has_attr, is_element,
    is_text, plain_element, single_text, text,
};
use crate::metadata::PageMetadata;
use crate::routes::PageId;

verus! {

/// One product entry handed in by the catalog source.
#[derive(Debug, PartialEq, Eq)]
pub struct ProductEntry {
    pub display_name: String,
    pub price_display: String,
    pub image_ref: String,
    pub detail_path: String,
}

/// The placeholder catalog source: an already-resolved, ordered listing of
/// product entries for each category page.
#[derive(Debug, PartialEq, Eq)]
pub struct CatalogSource {
    pub woman: Vec<ProductEntry>,
    pub man: Vec<ProductEntry>,
    pub new_arrivals: Vec<ProductEntry>,
    pub sale: Vec<ProductEntry>,
}

/// The catalog listing a page draws from; empty for pages that list no
/// products.
pub open spec fn catalog_entries(c: CatalogSource, id: PageId) -> Seq<ProductEntry> {
    match id {
        PageId::Woman => c.woman@,
        PageId::Man => c.man@,
        PageId::NewArrivals => c.new_arrivals@,
        PageId::Sale => c.sale@,
        _ => Seq::empty(),
    }
}

/// The shape of one rendered product entry: an article holding a link to
/// the product's detail path with its image, display name, and price.
pub open spec fn product_item_fields(
    n: ContentNode,
    name: Seq<char>,
    price: Seq<char>,
    image: Seq<char>,
    detail: Seq<char>,
) -> bool {
    &&& is_element(n, "article"@)
    &&& has_attr(n, "class"@, "product-item"@)
    &&& children_of(n).len() == 1
    &&& is_element(children_of(n)[0], "a"@)
    &&& has_attr(children_of(n)[0], "href"@, detail)
    &&& children_of(children_of(n)[0]).len() == 3
    &&& is_element(children_of(children_of(n)[0])[0], "figure"@)
    &&& children_of(children_of(children_of(n)[0])[0]).len() == 1
    &&& has_attr(children_of(children_of(children_of(n)[0])[0])[0], "src"@, image)
    &&& is_element(children_of(children_of(n)[0])[1], "h3"@)
    &&& single_text(children_of(children_of(n)[0])[1], name)
    &&& is_element(children_of(children_of(n)[0])[2], "p"@)
    &&& has_attr(children_of(children_of(n)[0])[2], "class"@, "product-price"@)
    &&& single_text(children_of(children_of(n)[0])[2], price)
}

/// The shape of one rendered product entry, tied to the entry it renders.
pub open spec fn product_item_shape(n: ContentNode, e: ProductEntry) -> bool {
    product_item_fields(n, e.display_name@, e.price_display@, e.image_ref@, e.detail_path@)
}

/// The shape of a product grid: one rendered item per catalog entry, in
/// the catalog source's order — presentation order, never sorted.
pub open spec fn product_grid_shape(n: ContentNode, entries: Seq<ProductEntry>) -> bool {
    &&& is_element(n, "div"@)
    &&& has_attr(n, "class"@, "product-grid"@)
    &&& children_of(n).len() == entries.len()
    &&& forall|i: int|
        0 <= i < entries.len() ==> product_item_shape(children_of(n)[i], entries[i])
}

/// The shape of a catalog category page: a section with its heading, an
/// introductory paragraph, and the product grid.
pub open spec fn category_page_shape(
    n: ContentNode,
    heading: Seq<char>,
    blurb: Seq<char>,
    entries: Seq<ProductEntry>,
) -> bool {
    &&& is_element(n, "section"@)
    &&& children_of(n).len() == 3
    &&& is_element(children_of(n)[0], "h2"@)
    &&& single_text(children_of(n)[0], heading)
    &&& is_element(children_of(n)[1], "p"@)
    &&& single_text(children_of(n)[1], blurb)
    &&& product_grid_shape(children_of(n)[2], entries)
}

/// The shape of the home page's hero section.
pub open spec fn hero_shape(n: ContentNode) -> bool {
    &&& is_element(n, "section"@)
    &&& has_attr(n, "class"@, "hero-section"@)
    &&& children_of(n).len() == 2
    &&& is_element(children_of(n)[0], "img"@)
    &&& has_attr(children_of(n)[0], "src"@, "/clothes1.jpg"@)
    &&& has_attr(children_of(n)[0], "class"@, "hero-image"@)
    &&& is_element(children_of(n)[1], "div"@)
    &&& has_attr(children_of(n)[1], "class"@, "hero-text"@)
    &&& children_of(children_of(n)[1]).len() == 3
    &&& is_element(children_of(children_of(n)[1])[0], "h2"@)
    &&& single_text(
        children_of(children_of(n)[1])[0],
        "Moda z Duszą - Znajdź Swoje Unikalne Perełki"@,
    )
    &&& is_element(children_of(children_of(n)[1])[2], "a"@)
    &&& has_attr(children_of(children_of(n)[1])[2], "href"@, "/woman"@)
}

/// The shape of the home page: the hero section, the featured products,
/// and the promotional blurb, in this order.
pub open spec fn home_page_shape(n: ContentNode) -> bool {
    &&& is_element(n, "div"@)
    &&& children_of(n).len() == 3
    &&& hero_shape(children_of(n)[0])
    &&& is_element(children_of(n)[1], "section"@)
    &&& has_attr(children_of(n)[1], "class"@, "featured-products"@)
    &&& children_of(children_of(n)[1]).len() == 3
    &&& single_text(children_of(children_of(n)[1])[0], "Polecane produkty"@)
    &&& product_item_fields(
        children_of(children_of(children_of(n)[1])[1])[0],
        "Spodnie Vintage"@,
        "49.99 PLN"@,
        "/spodnie-vintage.jpg"@,
        "product/id-produktu"@,
    )
    &&& is_element(children_of(n)[2], "section"@)
    &&& has_attr(children_of(n)[2], "class"@, "about-promo"@)
    &&& children_of(children_of(n)[2]).len() == 3
    &&& single_text(children_of(children_of(n)[2])[0], "Dlaczego Second Hand?"@)
    &&& is_element(children_of(children_of(n)[2])[2], "a"@)
    &&& has_attr(children_of(children_of(n)[2])[2], "href"@, "/about"@)
}

/// The shape of the about page.
pub open spec fn about_page_shape(n: ContentNode) -> bool {
    &&& is_element(n, "section"@)
    &&& has_attr(n, "class"@, "about-promo"@)
    &&& children_of(n).len() == 5
    &&& is_element(children_of(n)[0], "div"@)
    &&& has_attr(children_of(n)[0], "class"@, "container"@)
    &&& single_text(children_of(children_of(n)[0])[0], "O Nas"@)
    &&& is_element(children_of(n)[1], "p"@)
    &&& is_element(children_of(n)[2], "p"@)
    &&& is_element(children_of(n)[3], "p"@)
    &&& is_element(children_of(n)[4], "a"@)
    &&& has_attr(children_of(n)[4], "href"@, "/woman"@)
}

/// The shape of a required form field: a box holding a label and an input
/// named `id` that the browser must not submit empty.
pub open spec fn required_field_shape(d: ContentNode, id: Seq<char>) -> bool {
    &&& is_element(d, "div"@)
    &&& children_of(d).len() == 2
    &&& is_element(children_of(d)[1], "input"@)
    &&& has_attr(children_of(d)[1], "name"@, id)
    &&& has_attr(children_of(d)[1], "required"@, "required"@)
}

/// The shape of the contact page: heading, introduction, the direct
/// contact address, and the contact form with its declared action and
/// method and its required fields.
pub open spec fn contact_page_shape(n: ContentNode) -> bool {
    &&& is_element(n, "section"@)
    &&& has_attr(n, "class"@, "contact-section"@)
    &&& children_of(n).len() == 4
    &&& is_element(children_of(n)[0], "h2"@)
    &&& single_text(children_of(n)[0], "Skontaktuj się z Nami"@)
    &&& is_element(children_of(n)[1], "p"@)
    &&& is_element(children_of(n)[2], "div"@)
    &&& has_attr(children_of(n)[2], "class"@, "contact-info"@)
    &&& children_of(children_of(n)[2]).len() == 1
    &&& is_element(children_of(children_of(n)[2])[0], "p"@)
    &&& children_of(children_of(children_of(n)[2])[0]).len() == 1
    &&& is_element(children_of(children_of(children_of(n)[2])[0])[0], "a"@)
    &&& has_attr(
        children_of(children_of(children_of(n)[2])[0])[0],
        "href"@,
        "mailto:kontakt@megjoni.pl"@,
    )
    &&& is_element(children_of(n)[3], "form"@)
    &&& has_attr(children_of(n)[3], "action"@, "/submit-contact-form"@)
    &&& has_attr(children_of(n)[3], "method"@, "post"@)
    &&& children_of(children_of(n)[3]).len() == 5
    &&& required_field_shape(children_of(children_of(n)[3])[0], "name"@)
    &&& required_field_shape(children_of(children_of(n)[3])[1], "email"@)
    &&& is_element(children_of(children_of(n)[3])[2], "div"@)
    &&& is_element(children_of(children_of(n)[3])[3], "div"@)
    &&& children_of(children_of(children_of(n)[3])[3]).len() == 1
    &&& is_element(children_of(children_of(children_of(n)[3])[3])[0], "textarea"@)
    &&& has_attr(children_of(children_of(children_of(n)[3])[3])[0], "name"@, "message"@)
    &&& has_attr(children_of(children_of(children_of(n)[3])[3])[0], "required"@, "required"@)
    &&& is_element(children_of(children_of(n)[3])[4], "button"@)
}

/// The shape of a legal page: its main heading, the update-date line, and
/// `sections` numbered sections.
pub open spec fn legal_page_shape(n: ContentNode, title: Seq<char>, sections: int) -> bool {
    &&& is_element(n, "div"@)
    &&& children_of(n).len() == 2 + sections
    &&& is_element(children_of(n)[0], "h1"@)
    &&& single_text(children_of(n)[0], title)
    &&& is_element(children_of(n)[1], "p"@)
    &&& forall|i: int| 2 <= i < 2 + sections ==> is_element(children_of(n)[i], "section"@)
}

/// The heading of numbered section `i` of a legal page.
pub open spec fn legal_section_heading(n: ContentNode, i: int, title: Seq<char>) -> bool {
    &&& children_of(children_of(n)[2 + i]).len() >= 1
    &&& is_element(children_of(children_of(n)[2 + i])[0], "h2"@)
    &&& single_text(children_of(children_of(n)[2 + i])[0], title)
}

/// The shape of the not-found fallback: a static message and nothing else.
pub open spec fn not_found_shape(n: ContentNode) -> bool {
    is_text(n, "Strona nie istnieje."@)
}

/// The introductory paragraph of the women's category page.
pub open spec fn woman_blurb() -> Seq<char> {
    "Odkryj naszą kolekcję odzieży damskiej z drugiej ręki. Eleganckie sukienki, wygodne spodnie, stylowe bluzki i wiele więcej!"@
}

/// The introductory paragraph of the men's category page.
pub open spec fn man_blurb() -> Seq<char> {
    "Przeglądaj naszą ofertę męskiej odzieży używanej. Znajdź koszule, spodnie, marynarki i inne elementy garderoby w świetnych cenach."@
}

/// The introductory paragraph of the new-arrivals page.
pub open spec fn news_blurb() -> Seq<char> {
    "Zobacz nasze najnowsze dostawy! Świeże i unikalne ubrania dodane do sklepu."@
}

/// The introductory paragraph of the sale page.
pub open spec fn sale_blurb() -> Seq<char> {
    "Super okazje czekają! Ostatnie sztuki w niższych cenach."@
}

/// What the registry guarantees of the view a page identifier selects.
pub open spec fn page_view_shape(id: PageId, c: CatalogSource, n: ContentNode) -> bool {
    match id {
        PageId::Home => home_page_shape(n),
        PageId::Woman => category_page_shape(n, "Kategoria: Damska"@, woman_blurb(), c.woman@),
        PageId::Man => category_page_shape(n, "Kategoria: Męska"@, man_blurb(), c.man@),
        PageId::NewArrivals => category_page_shape(
            n,
            "Nowości u Meg Joni"@,
            news_blurb(),
            c.new_arrivals@,
        ),
        PageId::Sale => category_page_shape(n, "Wyprzedaż"@, sale_blurb(), c.sale@),
        PageId::About => about_page_shape(n),
        PageId::Contact => contact_page_shape(n),
        PageId::Privacy => legal_page_shape(n, "Polityka Prywatności"@, 8),
        PageId::Shipping => legal_page_shape(n, "Wysyłka i zwroty"@, 6),
        PageId::Terms => legal_page_shape(n, "Regulamin sklepu"@, 7),
        PageId::NotFound => not_found_shape(n),
    }
}

/// An element with a single text child: headings, paragraphs, buttons.
fn tagged_text(tag: &str, s: &str) -> (r: ContentNode)
    ensures
        is_element(r, tag@),
        attrs_of(r).len() == 0,
        single_text(r, s@),
{
    plain_element(tag, vec![text(s)])
}

/// A list item holding plain text.
fn li_text(s: &str) -> (r: ContentNode)
    ensures
        is_element(r, "li"@),
        single_text(r, s@),
{
    tagged_text("li", s)
}

/// An unordered list of plain-text items.
fn bullet_list(items: Vec<ContentNode>) -> (r: ContentNode)
    ensures
        is_element(r, "ul"@),
        has_attr(r, "class"@, "list-disc list-inside"@),
        children_of(r) == items@,
{
    let r = element("ul", vec![attribute("class", "list-disc list-inside")], items);
    proof {
        assert(attrs_of(r)[0].name@ == "class"@);
    }
    r
}

/// A numbered legal-text section: a heading and its body.
fn legal_section(title: &str, body: Vec<ContentNode>) -> (r: ContentNode)
    ensures
        is_element(r, "section"@),
        has_attr(r, "class"@, "mb-6"@),
        children_of(r).len() == 1 + body@.len(),
        is_element(children_of(r)[0], "h2"@),
        single_text(children_of(r)[0], title@),
{
    let heading = element(
        "h2",
        vec![attribute("class", "text-xl font-semibold mb-2")],
        vec![text(title)],
    );
    let mut children: Vec<ContentNode> = vec![heading];
    let ghost body_snapshot = body@;
    let mut rest = body;
    let total = rest.len();
    let mut i: usize = 0;
    while rest.len() > 0
        invariant
            i <= body_snapshot.len(),
            body_snapshot.len() == total as int,
            rest@ == body_snapshot.skip(i as int),
            children@.len() == 1 + i as int,
            children@[0] == heading,
        decreases body_snapshot.len() - i,
    {
        let next = rest.remove(0);
        proof {
            assert(body_snapshot.skip(i as int).drop_first() =~= body_snapshot.skip(i as int + 1));
        }
        children.push(next);
        i = i + 1;
    }
    let r = element("section", vec![attribute("class", "mb-6")], children);
    proof {
        assert(attrs_of(r)[0].name@ == "class"@);
    }
    r
}

/// One product entry as plain values.
pub fn product_entry(name: &str, price: &str, image: &str, detail: &str) -> (r: ProductEntry)
    ensures
        r.display_name@ == name@,
        r.price_display@ == price@,
        r.image_ref@ == image@,
        r.detail_path@ == detail@,
{
    ProductEntry {
        display_name: name.to_owned(),
        price_display: price.to_owned(),
        image_ref: image.to_owned(),
        detail_path: detail.to_owned(),
    }
}

/// Renders one product entry.
pub fn product_item(e: &ProductEntry) -> (r: ContentNode)
    ensures
        product_item_shape(r, *e),
{
    let picture = element(
        "img",
        vec![
            attribute("src", e.image_ref.as_str()),
            attribute("alt", e.display_name.as_str()),
            attribute("width", "300"),
            attribute("height", "400"),
        ],
        Vec::new(),
    );
    let figure = plain_element("figure", vec![picture]);
    let name = tagged_text("h3", e.display_name.as_str());
    let price = element(
        "p",
        vec![attribute("class", "product-price")],
        vec![text(e.price_display.as_str())],
    );
    let link = element(
        "a",
        vec![attribute("href", e.detail_path.as_str())],
        vec![figure, name, price],
    );
    let r = element("article", vec![attribute("class", "product-item")], vec![link]);
    proof {
        assert(attrs_of(r)[0].name@ == "class"@);
        assert(attrs_of(children_of(r)[0])[0].name@ == "href"@);
        assert(attrs_of(children_of(children_of(children_of(r)[0])[0])[0])[0].name@ == "src"@);
        assert(attrs_of(children_of(children_of(r)[0])[2])[0].name@ == "class"@);
    }
    r
}

/// Renders the product grid for a catalog listing, in the listing's order.
pub fn product_grid(entries: &Vec<ProductEntry>) -> (r: ContentNode)
    ensures
        product_grid_shape(r, entries@),
{
    let mut items: Vec<ContentNode> = Vec::new();
    let mut i: usize = 0;
    while i < entries.len()
        invariant
            i <= entries.len(),
            items@.len() == i as int,
            forall|j: int| 0 <= j < i as int ==> product_item_shape(items@[j], entries@[j]),
        decreases entries.len() - i,
    {
        let item = product_item(&entries[i]);
        items.push(item);
        i = i + 1;
    }
    let r = element("div", vec![attribute("class", "product-grid")], items);
    proof {
        assert(attrs_of(r)[0].name@ == "class"@);
    }
    r
}

/// Renders a catalog category page: heading, introduction, and the product
/// grid in the catalog source's order.
fn category_page(heading: &str, blurb: &str, entries: &Vec<ProductEntry>) -> (r: ContentNode)
    ensures
        category_page_shape(r, heading@, blurb@, entries@),
{
    plain_element(
        "section",
        vec![tagged_text("h2", heading), tagged_text("p", blurb), product_grid(entries)],
    )
}

/// Renders the home page: hero section, featured products, and the
/// promotional blurb.
pub fn home_page() -> (r: ContentNode)
    ensures
        home_page_shape(r),
{
    let hero_image = element(
        "img",
        vec![
            attribute("src", "/clothes1.jpg"),
            attribute("alt", "Odkryj unikalne perełki z drugiej ręki"),
            attribute("class", "hero-image"),
        ],
        Vec::new(),
    );
    let hero_button = element(
        "a",
        vec![attribute("href", "/woman")],
        vec![tagged_text("button", "Przejdź do sklepu")],
    );
    let hero_text = element(
        "div",
        vec![attribute("class", "hero-text")],
        vec![
            tagged_text("h2", "Moda z Duszą - Znajdź Swoje Unikalne Perełki"),
            tagged_text("p", "Wysokiej jakości odzież używana, starannie wyselekcjonowana dla Ciebie."),
            hero_button,
        ],
    );
    let hero = element(
        "section",
        vec![attribute("class", "hero-section")],
        vec![hero_image, hero_text],
    );
    let featured_entry = product_entry(
        "Spodnie Vintage",
        "49.99 PLN",
        "/spodnie-vintage.jpg",
        "product/id-produktu",
    );
    let featured_grid = element(
        "div",
        vec![attribute("class", "product-grid")],
        vec![product_item(&featured_entry)],
    );
    let view_all = element(
        "div",
        vec![attribute("class", "view-all-link")],
        vec![
            element(
                "a",
                vec![attribute("href", "/woman")],
                vec![text("Zobacz wszystkie produkty")],
            ),
        ],
    );
    let featured = element(
        "section",
        vec![attribute("class", "featured-products")],
        vec![tagged_text("h2", "Polecane produkty"), featured_grid, view_all],
    );
    let promo_link = element(
        "a",
        vec![attribute("href", "/about"), attribute("class", "btn")],
        vec![tagged_text("button", "Dowiedz się więcej o nas")],
    );
    let promo = element(
        "section",
        vec![attribute("class", "about-promo")],
        vec![
            tagged_text("h2", "Dlaczego Second Hand?"),
            tagged_text(
                "p",
                "Moda z drugiej ręki to świadomy wybór - ekologiczny, ekonomiczny i niepowtarzalny. Daj ubraniom drugie życie!",
            ),
            promo_link,
        ],
    );
    let r = plain_element("div", vec![hero, featured, promo]);
    proof {
        assert(attrs_of(children_of(r)[0])[0].name@ == "class"@);
        assert(attrs_of(children_of(children_of(r)[0])[0])[0].name@ == "src"@);
        assert(attrs_of(children_of(children_of(r)[0])[0])[2].name@ == "class"@);
        assert(attrs_of(children_of(children_of(r)[0])[1])[0].name@ == "class"@);
        assert(attrs_of(children_of(children_of(children_of(r)[0])[1])[2])[0].name@ == "href"@);
        assert(attrs_of(children_of(r)[1])[0].name@ == "class"@);
        assert(attrs_of(children_of(r)[2])[0].name@ == "class"@);
        assert(attrs_of(children_of(children_of(r)[2])[2])[0].name@ == "href"@);
    }
    r
}

/// Renders the about page.
pub fn about_page() -> (r: ContentNode)
    ensures
        about_page_shape(r),
{
    let banner = element(
        "div",
        vec![attribute("class", "container")],
        vec![
            tagged_text("h2", "O Nas"),
            element(
                "img",
                vec![attribute("src", "megjoni-big.png"), attribute("id", "megjoni-logo")],
                Vec::new(),
            ),
        ],
    );
    let shop_link = element(
        "a",
        vec![attribute("href", "/woman")],
        vec![tagged_text("button", "Zobacz nasze produkty")],
    );
    let r = element(
        "section",
        vec![attribute("class", "about-promo")],
        vec![
            banner,
            tagged_text(
                "p",
                "Witaj w Meg Joni! Jesteśmy pasjonatami mody z drugiej ręki, wierzymy, że ubrania zasługują na drugie życie. Nasz sklep to miejsce, gdzie znajdziesz unikalne perełki vintage i starannie wyselekcjonowaną odzież używaną w doskonałym stanie.",
            ),
            tagged_text(
                "p",
                "Naszą misją jest promowanie zrównoważonej mody i pokazywanie, że można ubierać się stylowo, dbając jednocześnie o planetę. Każdy zakup w naszym sklepie to krok w stronę bardziej świadomego konsumpcjonizmu.",
            ),
            tagged_text(
                "p",
                "Dołącz do naszej społeczności miłośników second handu i odkryj swój niepowtarzalny styl!",
            ),
            shop_link,
        ],
    );
    proof {
        assert(attrs_of(r)[0].name@ == "class"@);
        assert(attrs_of(children_of(r)[0])[0].name@ == "class"@);
        assert(attrs_of(children_of(r)[4])[0].name@ == "href"@);
    }
    r
}

/// A labelled form input with its hidden label, marked required on demand.
fn form_field(kind: &str, id: &str, label: &str, placeholder: &str, required: bool) -> (r:
    ContentNode)
    ensures
        is_element(r, "div"@),
        children_of(r).len() == 2,
        is_element(children_of(r)[1], "input"@),
        has_attr(children_of(r)[1], "name"@, id@),
        required ==> required_field_shape(r, id@),
{
    let field_label = element(
        "label",
        vec![attribute("for", id), attribute("class", "visually-hidden")],
        vec![text(label)],
    );
    let mut field_attrs: Vec<Attribute> = vec![
        attribute("type", kind),
        attribute("id", id),
        attribute("name", id),
        attribute("placeholder", placeholder),
    ];
    if required {
        field_attrs.push(attribute("required", "required"));
    }
    let ghost attrs_snapshot = field_attrs@;
    let field = element("input", field_attrs, Vec::new());
    let r = plain_element("div", vec![field_label, field]);
    proof {
        assert(attrs_of(children_of(r)[1]) == attrs_snapshot);
        assert(attrs_snapshot[2].name@ == "name"@);
        if required {
            assert(attrs_snapshot[4].name@ == "required"@);
        }
    }
    r
}

/// Renders the contact page: introduction, direct contact details, and the
/// contact form. The form only declares its action and method; submission
/// handling belongs to the form-submission endpoint, not to this core.
pub fn contact_page() -> (r: ContentNode)
    ensures
        contact_page_shape(r),
{
    let info = element(
        "div",
        vec![attribute("class", "contact-info")],
        vec![
            plain_element(
                "p",
                vec![
                    element(
                        "a",
                        vec![attribute("href", "mailto:kontakt@megjoni.pl")],
                        vec![text("kontakt@megjoni.pl")],
                    ),
                ],
            ),
        ],
    );
    let message = element(
        "textarea",
        vec![
            attribute("id", "message"),
            attribute("name", "message"),
            attribute("placeholder", "Twoja wiadomość"),
            attribute("rows", "6"),
            attribute("required", "required"),
        ],
        Vec::new(),
    );
    let form = element(
        "form",
        vec![attribute("action", "/submit-contact-form"), attribute("method", "post")],
        vec![
            form_field("text", "name", "Twoje imię:", "Twoje imię", true),
            form_field("email", "email", "Twój email:", "Twój email", true),
            form_field("text", "subject", "Temat:", "Temat wiadomości", false),
            plain_element("div", vec![message]),
            element(
                "button",
                vec![attribute("type", "submit")],
                vec![text("Wyślij wiadomość")],
            ),
        ],
    );
    let r = element(
        "section",
        vec![attribute("class", "contact-section")],
        vec![
            tagged_text("h2", "Skontaktuj się z Nami"),
            tagged_text(
                "p",
                "Masz pytania dotyczące produktów, zamówień, czy współpracy? Chętnie pomożemy! Skontaktuj się z nami poprzez formularz poniżej lub bezpośrednio.",
            ),
            info,
            form,
        ],
    );
    proof {
        assert(attrs_of(r)[0].name@ == "class"@);
        assert(attrs_of(children_of(r)[2])[0].name@ == "class"@);
        assert(attrs_of(children_of(children_of(children_of(r)[2])[0])[0])[0].name@ == "href"@);
        assert(attrs_of(children_of(r)[3])[0].name@ == "action"@);
        assert(attrs_of(children_of(r)[3])[1].name@ == "method"@);
        assert(attrs_of(children_of(children_of(children_of(r)[3])[3])[0])[1].name@ == "name"@);
        assert(attrs_of(children_of(children_of(children_of(r)[3])[3])[0])[4].name@
            == "required"@);
    }
    r
}

/// The root of a legal page: its heading, the update-date line, and the
/// numbered sections.
fn legal_page(title: &str, sections: Vec<ContentNode>) -> (r: ContentNode)
    ensures
        is_element(r, "div"@),
        children_of(r).len() == 2 + sections@.len(),
        is_element(children_of(r)[0], "h1"@),
        single_text(children_of(r)[0], title@),
        is_element(children_of(r)[1], "p"@),
        forall|j: int|
            2 <= j < children_of(r).len() ==> #[trigger] children_of(r)[j] == sections@[j - 2],
{
    let heading = element(
        "h1",
        vec![attribute("class", "text-3xl font-bold mb-6")],
        vec![text(title)],
    );
    let date_line = element(
        "p",
        vec![attribute("class", "text-sm text-gray-500 mb-8")],
        vec![text("Data ostatniej aktualizacji: 23 kwietnia 2025 r.")],
    );
    let mut children: Vec<ContentNode> = vec![heading, date_line];
    let ghost section_snapshot = sections@;
    let mut rest = sections;
    let total = rest.len();
    let mut i: usize = 0;
    while rest.len() > 0
        invariant
            i <= section_snapshot.len(),
            section_snapshot.len() == total as int,
            rest@ == section_snapshot.skip(i as int),
            children@.len() == 2 + i as int,
            children@[0] == heading,
            children@[1] == date_line,
            forall|j: int| 2 <= j < 2 + i as int ==> #[trigger] children@[j] == section_snapshot[j - 2],
        decreases section_snapshot.len() - i,
    {
        let next = rest.remove(0);
        proof {
            assert(section_snapshot.skip(i as int).drop_first() =~= section_snapshot.skip(
                i as int + 1,
            ));
        }
        children.push(next);
        i = i + 1;
    }
    let r = element(
        "div",
        vec![attribute("class", "max-w-3xl mx-auto p-4 text-gray-800 dark:text-gray-200")],
        children,
    );
    r
}

/// Renders the privacy policy page.
pub fn privacy_page() -> (r: ContentNode)
    ensures
        legal_page_shape(r, "Polityka Prywatności"@, 8),
        legal_section_heading(r, 0, "1. Administrator danych osobowych"@),
        legal_section_heading(r, 1, "2. Jakie dane zbieramy?"@),
        legal_section_heading(r, 2, "3. Cel i podstawa prawna przetwarzania danych"@),
        legal_section_heading(r, 3, "4. Czas przechowywania danych"@),
        legal_section_heading(r, 4, "5. Udostępnianie danych"@),
        legal_section_heading(r, 5, "6. Pliki cookies"@),
        legal_section_heading(r, 6, "7. Twoje prawa"@),
        legal_section_heading(r, 7, "8. Kontakt"@),
{
    let sections: Vec<ContentNode> = vec![
        legal_section(
            "1. Administrator danych osobowych",
            vec![
                tagged_text(
                    "p",
                    "Administratorem Twoich danych osobowych jest Magdalena Kluba, prowadząca działalność pod nazwą \"Meg Joni\". Możesz się z nami skontaktować pod adresem e-mail: kontakt@megjoni.pl.",
                ),
            ],
        ),
        legal_section(
            "2. Jakie dane zbieramy?",
            vec![
                bullet_list(
                    vec![
                        li_text("imię i nazwisko"),
                        li_text("adres dostawy"),
                        li_text("adres e-mail"),
                        li_text("numer telefonu (opcjonalnie)"),
                        li_text("dane do faktury (jeśli dotyczy)"),
                        li_text("adres IP oraz dane o aktywności na stronie (cookies – patrz pkt 6)"),
                    ],
                ),
            ],
        ),
        legal_section(
            "3. Cel i podstawa prawna przetwarzania danych",
            vec![
                bullet_list(
                    vec![
                        li_text("realizacja zamówień (art. 6 ust. 1 lit. b RODO)"),
                        li_text("prowadzenie konta użytkownika (jeśli dotyczy)"),
                        li_text("kontakt z klientem (art. 6 ust. 1 lit. f RODO)"),
                        li_text("cele księgowe (art. 6 ust. 1 lit. c RODO)"),
                        li_text("cele marketingowe za zgodą (art. 6 ust. 1 lit. a RODO)"),
                    ],
                ),
            ],
        ),
        legal_section(
            "4. Czas przechowywania danych",
            vec![
                tagged_text(
                    "p",
                    "Dane przechowujemy do czasu realizacji umowy i przez okres wymagany przepisami prawa. Dane wykorzystywane do celów marketingowych – do momentu cofnięcia zgody.",
                ),
            ],
        ),
        legal_section(
            "5. Udostępnianie danych",
            vec![
                tagged_text(
                    "p",
                    "Dane mogą być przekazywane firmom kurierskim, operatorom płatności, biuru księgowemu oraz firmie hostingowej – tylko w zakresie niezbędnym do świadczenia usług.",
                ),
            ],
        ),
        legal_section(
            "6. Pliki cookies",
            vec![
                tagged_text(
                    "p",
                    "Używamy cookies do działania strony, analizy ruchu (np. Google Analytics) i personalizacji treści. Możesz zmienić ich ustawienia w przeglądarce.",
                ),
            ],
        ),
        legal_section(
            "7. Twoje prawa",
            vec![
                bullet_list(
                    vec![
                        li_text("dostęp do danych"),
                        li_text("sprostowanie, usunięcie lub ograniczenie przetwarzania"),
                        li_text("przenoszenie danych"),
                        li_text("sprzeciw wobec przetwarzania"),
                        li_text("cofnięcie zgody"),
                        li_text("skarga do Prezesa UODO"),
                    ],
                ),
            ],
        ),
        legal_section(
            "8. Kontakt",
            vec![
                tagged_text(
                    "p",
                    "W sprawach związanych z ochroną danych osobowych, skontaktuj się z nami: E-mail: kontakt@megjoni.pl, Adres: Siedziba Łódź",
                ),
            ],
        ),
    ];
    let r = legal_page("Polityka Prywatności", sections);
    proof {
        assert forall|i: int|
            2 <= i < children_of(r).len() implies is_element(children_of(r)[i], "section"@) by {
        }
    }
    r
}

/// Renders the shipping-and-returns page.
pub fn shipping_returns_page() -> (r: ContentNode)
    ensures
        legal_page_shape(r, "Wysyłka i zwroty"@, 6),
        legal_section_heading(r, 0, "1. Koszt i czas wysyłki"@),
        legal_section_heading(r, 1, "2. Formy dostawy"@),
        legal_section_heading(r, 2, "3. Zwroty i reklamacje"@),
        legal_section_heading(r, 3, "4. Jak dokonać zwrotu?"@),
        legal_section_heading(r, 4, "5. Reklamacje"@),
        legal_section_heading(r, 5, "6. Kontakt"@),
{
    let sections: Vec<ContentNode> = vec![
        legal_section(
            "1. Koszt i czas wysyłki",
            vec![
                bullet_list(
                    vec![
                        li_text("Koszt dostawy na terenie Polski: 14,99 zł"),
                        li_text("Czas realizacji zamówienia: 1–3 dni robocze"),
                        li_text("Czas dostawy: 1–2 dni robocze od momentu nadania"),
                        li_text("Darmowa dostawa dla zamówień powyżej [np. 200 zł]"),
                    ],
                ),
            ],
        ),
        legal_section(
            "2. Formy dostawy",
            vec![
                bullet_list(
                    vec![li_text("Kurier (np. InPost, DPD, DHL)"), li_text("Paczkomaty InPost")],
                ),
            ],
        ),
        legal_section(
            "3. Zwroty i reklamacje",
            vec![
                tagged_text(
                    "p",
                    "Zgodnie z prawem konsumenta masz prawo do zwrotu towaru w ciągu 14 dni od jego otrzymania – bez podania przyczyny.",
                ),
                bullet_list(
                    vec![
                        li_text(
                            "Produkt nie może nosić śladów użytkowania i musi być odesłany w oryginalnym stanie",
                        ),
                        li_text("Zwrotu dokonujesz na własny koszt"),
                        li_text("Zwrot środków nastąpi do 14 dni od otrzymania przesyłki"),
                    ],
                ),
            ],
        ),
        legal_section(
            "4. Jak dokonać zwrotu?",
            vec![
                element(
                    "ol",
                    vec![attribute("class", "list-decimal list-inside")],
                    vec![
                        li_text(
                            "Wypełnij formularz zwrotu (dostępny w zakładce Zwroty lub dołączony do przesyłki)",
                        ),
                        li_text("Zapakuj produkt i odeślij na adres: [Adres do zwrotu]"),
                        li_text("Po otrzymaniu i sprawdzeniu przesyłki dokonamy zwrotu pieniędzy"),
                    ],
                ),
            ],
        ),
        legal_section(
            "5. Reklamacje",
            vec![
                tagged_text(
                    "p",
                    "Jeśli produkt jest uszkodzony lub niezgodny z opisem, skontaktuj się z nami pod adresem e-mail: kontakt@megjoni.pl. Do reklamacji dołącz zdjęcia oraz numer zamówienia.",
                ),
            ],
        ),
        legal_section(
            "6. Kontakt",
            vec![
                tagged_text(
                    "p",
                    "W razie pytań dotyczących wysyłki lub zwrotów: E-mail: kontakt@megjoni.pl, Adres: Siedziba Łódź",
                ),
            ],
        ),
    ];
    let r = legal_page("Wysyłka i zwroty", sections);
    proof {
        assert forall|i: int|
            2 <= i < children_of(r).len() implies is_element(children_of(r)[i], "section"@) by {
        }
    }
    r
}

/// Renders the terms-and-conditions page.
pub fn terms_and_conditions_page() -> (r: ContentNode)
    ensures
        legal_page_shape(r, "Regulamin sklepu"@, 7),
        legal_section_heading(r, 0, "1. Postanowienia ogólne"@),
        legal_section_heading(r, 1, "2. Składanie zamówień"@),
        legal_section_heading(r, 2, "3. Ceny i płatności"@),
        legal_section_heading(r, 3, "4. Dostawa"@),
        legal_section_heading(r, 4, "5. Zwroty i reklamacje"@),
        legal_section_heading(r, 5, "6. Dane osobowe"@),
        legal_section_heading(r, 6, "7. Postanowienia końcowe"@),
{
    let sections: Vec<ContentNode> = vec![
        legal_section(
            "1. Postanowienia ogólne",
            vec![
                tagged_text(
                    "p",
                    "Niniejszy regulamin określa zasady korzystania ze sklepu internetowego prowadzonego pod adresem www.megjoni.pl. Sklep prowadzony jest przez [pełna nazwa firmy, adres, NIP, REGON].",
                ),
            ],
        ),
        legal_section(
            "2. Składanie zamówień",
            vec![
                bullet_list(
                    vec![
                        li_text("Zamówienia można składać 24 godziny na dobę, 7 dni w tygodniu"),
                        li_text("Złożenie zamówienia oznacza akceptację niniejszego regulaminu"),
                        li_text(
                            "Po złożeniu zamówienia klient otrzymuje e-mail z potwierdzeniem przyjęcia zamówienia",
                        ),
                    ],
                ),
            ],
        ),
        legal_section(
            "3. Ceny i płatności",
            vec![
                bullet_list(
                    vec![
                        li_text("Wszystkie ceny podane w sklepie są cenami brutto i zawierają podatek VAT"),
                        li_text(
                            "Akceptowane formy płatności: przelew bankowy, szybkie płatności online, BLIK",
                        ),
                        li_text("Zamówienie jest realizowane po zaksięgowaniu płatności"),
                    ],
                ),
            ],
        ),
        legal_section(
            "4. Dostawa",
            vec![
                tagged_text(
                    "p",
                    "Informacje o kosztach i czasie dostawy znajdują się w zakładce Wysyłka i zwroty.",
                ),
            ],
        ),
        legal_section(
            "5. Zwroty i reklamacje",
            vec![
                tagged_text(
                    "p",
                    "Klient ma prawo do zwrotu towaru w ciągu 14 dni bez podania przyczyny. Szczegóły znajdują się w zakładce Wysyłka i zwroty.",
                ),
            ],
        ),
        legal_section(
            "6. Dane osobowe",
            vec![
                tagged_text(
                    "p",
                    "Szczegóły dotyczące przetwarzania danych osobowych znajdują się w Polityce Prywatności.",
                ),
            ],
        ),
        legal_section(
            "7. Postanowienia końcowe",
            vec![
                bullet_list(
                    vec![
                        li_text("Sklep zastrzega sobie prawo do zmiany regulaminu"),
                        li_text("W sprawach nieuregulowanych mają zastosowanie przepisy prawa polskiego"),
                        li_text("Spory będą rozstrzygane przez właściwy sąd powszechny"),
                    ],
                ),
            ],
        ),
    ];
    let r = legal_page("Regulamin sklepu", sections);
    proof {
        assert forall|i: int|
            2 <= i < children_of(r).len() implies is_element(children_of(r)[i], "section"@) by {
        }
    }
    r
}

/// Renders the catalog category page for women's clothing.
pub fn woman_page(entries: &Vec<ProductEntry>) -> (r: ContentNode)
    ensures
        category_page_shape(r, "Kategoria: Damska"@, woman_blurb(), entries@),
{
    category_page(
        "Kategoria: Damska",
        "Odkryj naszą kolekcję odzieży damskiej z drugiej ręki. Eleganckie sukienki, wygodne spodnie, stylowe bluzki i wiele więcej!",
        entries,
    )
}

/// Renders the catalog category page for men's clothing.
pub fn men_page(entries: &Vec<ProductEntry>) -> (r: ContentNode)
    ensures
        category_page_shape(r, "Kategoria: Męska"@, man_blurb(), entries@),
{
    category_page(
        "Kategoria: Męska",
        "Przeglądaj naszą ofertę męskiej odzieży używanej. Znajdź koszule, spodnie, marynarki i inne elementy garderoby w świetnych cenach.",
        entries,
    )
}

/// Renders the new-arrivals category page.
pub fn news_page(entries: &Vec<ProductEntry>) -> (r: ContentNode)
    ensures
        category_page_shape(r, "Nowości u Meg Joni"@, news_blurb(), entries@),
{
    category_page(
        "Nowości u Meg Joni",
        "Zobacz nasze najnowsze dostawy! Świeże i unikalne ubrania dodane do sklepu.",
        entries,
    )
}

/// Renders the sale category page.
pub fn sale_page(entries: &Vec<ProductEntry>) -> (r: ContentNode)
    ensures
        category_page_shape(r, "Wyprzedaż"@, sale_blurb(), entries@),
{
    category_page("Wyprzedaż", "Super okazje czekają! Ostatnie sztuki w niższych cenach.", entries)
}

/// Renders the not-found fallback view: a static message, never a failure.
pub fn not_found_page() -> (r: ContentNode)
    ensures
        not_found_shape(r),
{
    text("Strona nie istnieje.")
}

/// Selects and renders the page view for a resolved page identifier. Every
/// page is rendered from plain values: the catalog source's listings are
/// the only inputs, and no page sets a metadata override of its own.
pub fn page_view(id: PageId, catalog: &CatalogSource) -> (r: (ContentNode, Option<PageMetadata>))
    ensures
        page_view_shape(id, *catalog, r.0),
        r.1 is None,
{
    let content = match id {
        PageId::Home => home_page(),
        PageId::Woman => woman_page(&catalog.woman),
        PageId::Man => men_page(&catalog.man),
        PageId::NewArrivals => news_page(&catalog.new_arrivals),
        PageId::Sale => sale_page(&catalog.sale),
        PageId::About => about_page(),
        PageId::Contact => contact_page(),
        PageId::Privacy => privacy_page(),
        PageId::Shipping => shipping_returns_page(),
        PageId::Terms => terms_and_conditions_page(),
        PageId::NotFound => not_found_page(),
    };
    (content, None)
}

/// The placeholder catalog listings shown on the category pages. The sale
/// entry's price display carries the old price before the reduced one.
pub fn default_catalog() -> (r: CatalogSource)
    ensures
        r.woman@.len() == 2,
        r.woman@[0].display_name@ == "Czerwona sukienka"@,
        r.woman@[0].price_display@ == "75.00 PLN"@,
        r.woman@[0].image_ref@ == "/czerwona-sukienka.jpg"@,
        r.woman@[0].detail_path@ == "/product/damskie-001"@,
        r.woman@[1].display_name@ == "Elegancka sukienka"@,
        r.woman@[1].price_display@ == "55.00 PLN"@,
        r.woman@[1].image_ref@ == "/elegancka-sukienka.jpg"@,
        r.woman@[1].detail_path@ == "/product/damskie-002"@,
        r.man@.len() == 2,
        r.man@[0].display_name@ == "Czarny T-Shirt Męski"@,
        r.man@[0].price_display@ == "39.50 PLN"@,
        r.man@[0].image_ref@ == "/black-tshirt.jpg"@,
        r.man@[0].detail_path@ == "/product/meskie-001"@,
        r.man@[1].display_name@ == "Niebieska Bluza"@,
        r.man@[1].price_display@ == "85.00 PLN"@,
        r.man@[1].image_ref@ == "/niebieska-bluza.jpg"@,
        r.man@[1].detail_path@ == "/product/meskie-002"@,
        r.new_arrivals@.len() == 1,
        r.new_arrivals@[0].display_name@ == "Bluza Oversize"@,
        r.new_arrivals@[0].price_display@ == "65.00 PLN"@,
        r.new_arrivals@[0].image_ref@ == "/bluza-oversize.jpg"@,
        r.new_arrivals@[0].detail_path@ == "/product/nowosc-001"@,
        r.sale@.len() == 1,
        r.sale@[0].display_name@ == "Letnia Sukienka"@,
        r.sale@[0].price_display@ == "50.00 PLN 30.00 PLN"@,
        r.sale@[0].image_ref@ == "letnia-sukienka.jpg"@,
        r.sale@[0].detail_path@ == "/product/sale-001"@,
{
    CatalogSource {
        woman: vec![
            product_entry(
                "Czerwona sukienka",
                "75.00 PLN",
                "/czerwona-sukienka.jpg",
                "/product/damskie-001",
            ),
            product_entry(
                "Elegancka sukienka",
                "55.00 PLN",
                "/elegancka-sukienka.jpg",
                "/product/damskie-002",
            ),
        ],
        man: vec![
            product_entry(
                "Czarny T-Shirt Męski",
                "39.50 PLN",
                "/black-tshirt.jpg",
                "/product/meskie-001",
            ),
            product_entry(
                "Niebieska Bluza",
                "85.00 PLN",
                "/niebieska-bluza.jpg",
                "/product/meskie-002",
            ),
        ],
        new_arrivals: vec![
            product_entry("Bluza Oversize", "65.00 PLN", "/bluza-oversize.jpg", "/product/nowosc-001"),
        ],
        sale: vec![
            product_entry(
                "Letnia Sukienka",
                "50.00 PLN 30.00 PLN",
                "letnia-sukienka.jpg",
                "/product/sale-001",
            ),
        ],
    }
}

} // verus!
