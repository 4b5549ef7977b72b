use megjoni::content::ContentNode;
use megjoni::layout::{compose, default_nav_entries, footer, header, navbar};
use megjoni::metadata::PageMetadata;
use megjoni::pages::{default_catalog, page_view, product_entry, product_item};
use megjoni::routes::PageId;
use megjoni::shell::{default_metadata, default_site, render, render_path_to_document};

fn tag_of(n: &ContentNode) -> &str {
    match n {
        ContentNode::Element { tag, .. } => tag,
        ContentNode::Text(_) => panic!("expected an element, found text"),
    }
}

fn child(n: &ContentNode, i: usize) -> &ContentNode {
    match n {
        ContentNode::Element { children, .. } => &children[i],
        ContentNode::Text(_) => panic!("expected an element, found text"),
    }
}

fn child_count(n: &ContentNode) -> usize {
    match n {
        ContentNode::Element { children, .. } => children.len(),
        ContentNode::Text(_) => panic!("expected an element, found text"),
    }
}

fn attr_value<'a>(n: &'a ContentNode, name: &str) -> &'a str {
    match n {
        ContentNode::Element { attrs, .. } => {
            for a in attrs {
                if a.name == name {
                    return &a.value;
                }
            }
            panic!("attribute not found");
        }
        ContentNode::Text(_) => panic!("expected an element, found text"),
    }
}

fn text_of(n: &ContentNode) -> &str {
    match n {
        ContentNode::Text(s) => s,
        ContentNode::Element { .. } => panic!("expected text, found an element"),
    }
}

#[test]
fn compose_keeps_the_fixed_vertical_order() {
    let page = ContentNode::Text(String::from("page content"));
    let body = compose(header(), navbar(&default_nav_entries()), page, footer());
    assert_eq!(tag_of(&body), "body");
    assert_eq!(child_count(&body), 4);
    assert_eq!(tag_of(child(&body, 0)), "header");
    assert_eq!(tag_of(child(&body, 1)), "nav");
    assert_eq!(tag_of(child(&body, 2)), "main");
    assert_eq!(tag_of(child(&body, 3)), "footer");
    assert_eq!(text_of(child(child(&body, 2), 0)), "page content");
}

#[test]
fn navbar_renders_every_entry_in_order() {
    let entries = default_nav_entries();
    let nav = navbar(&entries);
    let listing = child(&nav, 0);
    assert_eq!(tag_of(listing), "ul");
    assert_eq!(child_count(listing), 7);
    let first_link = child(child(listing, 0), 0);
    assert_eq!(attr_value(first_link, "href"), "/");
    assert_eq!(text_of(child(first_link, 0)), "Strona Główna");
    let last_link = child(child(listing, 6), 0);
    assert_eq!(attr_value(last_link, "href"), "/contact");
    assert_eq!(text_of(child(last_link, 0)), "Kontakt");
}

#[test]
fn root_path_document_has_hero_and_shell_triad() {
    let site = default_site();
    let catalog = default_catalog();
    let doc = render_path_to_document(&site, &catalog, "/");
    assert_eq!(doc.doctype, "html");
    assert_eq!(doc.lang, "pl");
    assert_eq!(tag_of(child(&doc.body, 0)), "header");
    assert_eq!(tag_of(child(&doc.body, 1)), "nav");
    assert_eq!(tag_of(child(&doc.body, 3)), "footer");
    let page = child(child(&doc.body, 2), 0);
    let hero = child(page, 0);
    assert_eq!(tag_of(hero), "section");
    assert_eq!(attr_value(hero, "class"), "hero-section");
    let hero_cta = child(child(hero, 1), 2);
    assert_eq!(attr_value(hero_cta, "href"), "/woman");
    let promo_link = child(child(page, 2), 2);
    assert_eq!(attr_value(promo_link, "href"), "/about");
}

#[test]
fn header_links_query_input_and_cart_count() {
    let h = header();
    let logo_link = child(child(&h, 0), 0);
    assert_eq!(tag_of(logo_link), "a");
    assert_eq!(attr_value(logo_link, "href"), "/");
    let form = child(child(&h, 1), 0);
    assert_eq!(attr_value(form, "action"), "/search");
    let input = child(form, 1);
    assert_eq!(tag_of(input), "input");
    assert_eq!(attr_value(input, "name"), "query");
    let icons = child(&h, 2);
    assert_eq!(attr_value(child(icons, 0), "href"), "/account");
    let cart = child(icons, 1);
    assert_eq!(attr_value(cart, "href"), "/cart");
    let count = child(cart, 1);
    assert_eq!(attr_value(count, "class"), "cart-count");
    assert_eq!(text_of(child(count, 0)), "0");
}

#[test]
fn footer_links_social_and_copyright() {
    let f = footer();
    let listing = child(child(&f, 0), 0);
    let expected = [
        ("/contact", "Kontakt"),
        ("/shipping", "Wysyłka i zwroty"),
        ("/privacy", "Polityka Prywatności"),
        ("/terms", "Regulamin sklepu"),
    ];
    for (i, (href, label)) in expected.iter().enumerate() {
        let link = child(child(listing, i), 0);
        assert_eq!(attr_value(link, "href"), *href);
        assert_eq!(text_of(child(link, 0)), *label);
    }
    let social = child(&f, 1);
    let facebook = child(social, 1);
    assert_eq!(attr_value(facebook, "href"), "https://www.facebook.com/MegJoni");
    assert_eq!(attr_value(facebook, "target"), "_blank");
    assert_eq!(attr_value(facebook, "rel"), "noopener noreferrer");
    let instagram = child(social, 2);
    assert_eq!(attr_value(instagram, "href"), "https://www.instagram.com/Meg.joni");
    let copyright_line = child(child(&f, 2), 0);
    assert_eq!(text_of(child(copyright_line, 0)), "©");
    assert_eq!(text_of(child(child(copyright_line, 1), 0)), "2025");
    assert_eq!(text_of(child(copyright_line, 2)), " Meg Joni. Wszelkie prawa zastrzeżone.");
}

#[test]
fn contact_form_marks_required_fields_and_mailto() {
    let catalog = default_catalog();
    let (contact, _) = page_view(PageId::Contact, &catalog);
    let mail_link = child(child(child(&contact, 2), 0), 0);
    assert_eq!(attr_value(mail_link, "href"), "mailto:kontakt@megjoni.pl");
    let form = child(&contact, 3);
    let name_input = child(child(form, 0), 1);
    assert_eq!(attr_value(name_input, "name"), "name");
    assert_eq!(attr_value(name_input, "required"), "required");
    let email_input = child(child(form, 1), 1);
    assert_eq!(attr_value(email_input, "name"), "email");
    assert_eq!(attr_value(email_input, "required"), "required");
    let message = child(child(form, 3), 0);
    assert_eq!(tag_of(message), "textarea");
    assert_eq!(attr_value(message, "required"), "required");
}

#[test]
fn sale_path_document_shows_old_and_new_price() {
    let site = default_site();
    let catalog = default_catalog();
    let doc = render_path_to_document(&site, &catalog, "/sale");
    let page = child(child(&doc.body, 2), 0);
    let grid = child(page, 2);
    assert_eq!(child_count(grid), 1);
    let item_link = child(child(grid, 0), 0);
    assert_eq!(text_of(child(child(item_link, 1), 0)), "Letnia Sukienka");
    assert_eq!(text_of(child(child(item_link, 2), 0)), "50.00 PLN 30.00 PLN");
}

#[test]
fn unregistered_path_document_has_fallback_and_shell_triad() {
    let site = default_site();
    let catalog = default_catalog();
    let doc = render_path_to_document(&site, &catalog, "/does-not-exist");
    assert_eq!(tag_of(child(&doc.body, 0)), "header");
    assert_eq!(tag_of(child(&doc.body, 1)), "nav");
    assert_eq!(tag_of(child(&doc.body, 3)), "footer");
    let page = child(child(&doc.body, 2), 0);
    assert_eq!(text_of(page), "Strona nie istnieje.");
}

#[test]
fn category_path_document_lists_products_in_catalog_order() {
    let site = default_site();
    let catalog = default_catalog();
    let doc = render_path_to_document(&site, &catalog, "/woman");
    let page = child(child(&doc.body, 2), 0);
    assert_eq!(tag_of(page), "section");
    assert_eq!(text_of(child(child(page, 0), 0)), "Kategoria: Damska");
    assert_eq!(
        text_of(child(child(page, 1), 0)),
        "Odkryj naszą kolekcję odzieży damskiej z drugiej ręki. Eleganckie sukienki, wygodne spodnie, stylowe bluzki i wiele więcej!"
    );
    let grid = child(page, 2);
    assert_eq!(attr_value(grid, "class"), "product-grid");
    assert_eq!(child_count(grid), 2);
    let first = child(child(grid, 0), 0);
    assert_eq!(text_of(child(child(first, 1), 0)), "Czerwona sukienka");
    assert_eq!(text_of(child(child(first, 2), 0)), "75.00 PLN");
    let second = child(child(grid, 1), 0);
    assert_eq!(text_of(child(child(second, 1), 0)), "Elegancka sukienka");
    assert_eq!(text_of(child(child(second, 2), 0)), "55.00 PLN");
}

#[test]
fn rendered_title_prefers_the_page_override() {
    let global = default_metadata();
    let nav = default_nav_entries();
    let with_override = PageMetadata {
        title: Some(String::from("T2")),
        description: None,
        canonical_url: None,
        og_tags: Vec::new(),
    };
    let page = ContentNode::Text(String::from("x"));
    let doc = render((page, Some(with_override)), &global, &nav);
    assert_eq!(doc.metadata.title, "T2");
    let title_node = &doc.head[6];
    assert_eq!(tag_of(title_node), "title");
    assert_eq!(text_of(child(title_node, 0)), "T2");
}

#[test]
fn rendered_title_defaults_to_the_global_title() {
    let global = default_metadata();
    let nav = default_nav_entries();
    let page = ContentNode::Text(String::from("x"));
    let doc = render((page, None), &global, &nav);
    assert_eq!(
        doc.metadata.title,
        "Meg Joni - Odzież Używana Online | Najlepsze Second Hand Odkrycia"
    );
    let title_node = &doc.head[6];
    assert_eq!(
        text_of(child(title_node, 0)),
        "Meg Joni - Odzież Używana Online | Najlepsze Second Hand Odkrycia"
    );
}

#[test]
fn head_embeds_merged_og_tags_and_stylesheet() {
    let global = default_metadata();
    let nav = default_nav_entries();
    let page = ContentNode::Text(String::from("x"));
    let doc = render((page, None), &global, &nav);
    assert_eq!(doc.head.len(), 10 + 6);
    let first_og = &doc.head[9];
    assert_eq!(tag_of(first_og), "meta");
    assert_eq!(attr_value(first_og, "property"), "og:title");
    let locale_og = &doc.head[14];
    assert_eq!(attr_value(locale_og, "property"), "og:locale");
    assert_eq!(attr_value(locale_og, "content"), "pl_PL");
    let stylesheet = &doc.head[15];
    assert_eq!(tag_of(stylesheet), "link");
    assert_eq!(attr_value(stylesheet, "rel"), "stylesheet");
    assert_eq!(attr_value(stylesheet, "href"), "/style.css");
}

#[test]
fn every_page_view_yields_no_metadata_override() {
    let catalog = default_catalog();
    let ids = [
        PageId::Home,
        PageId::Woman,
        PageId::Man,
        PageId::NewArrivals,
        PageId::Sale,
        PageId::About,
        PageId::Contact,
        PageId::Privacy,
        PageId::Shipping,
        PageId::Terms,
        PageId::NotFound,
    ];
    for id in ids {
        let (_, meta) = page_view(id, &catalog);
        assert!(meta.is_none());
    }
}

#[test]
fn legal_pages_carry_their_headings() {
    let catalog = default_catalog();
    let (privacy, _) = page_view(PageId::Privacy, &catalog);
    assert_eq!(text_of(child(child(&privacy, 0), 0)), "Polityka Prywatności");
    assert_eq!(child_count(&privacy), 10);
    let (shipping, _) = page_view(PageId::Shipping, &catalog);
    assert_eq!(text_of(child(child(&shipping, 0), 0)), "Wysyłka i zwroty");
    assert_eq!(child_count(&shipping), 8);
    let (terms, _) = page_view(PageId::Terms, &catalog);
    assert_eq!(text_of(child(child(&terms, 0), 0)), "Regulamin sklepu");
    assert_eq!(child_count(&terms), 9);
}

#[test]
fn legal_sections_are_numbered_and_titled() {
    let catalog = default_catalog();
    let (privacy, _) = page_view(PageId::Privacy, &catalog);
    let first = child(&privacy, 2);
    assert_eq!(tag_of(first), "section");
    assert_eq!(text_of(child(child(first, 0), 0)), "1. Administrator danych osobowych");
    let last = child(&privacy, 9);
    assert_eq!(text_of(child(child(last, 0), 0)), "8. Kontakt");
    let (terms, _) = page_view(PageId::Terms, &catalog);
    assert_eq!(text_of(child(child(child(&terms, 8), 0), 0)), "7. Postanowienia końcowe");
}

#[test]
fn product_item_renders_the_entry_it_is_given() {
    let entry = product_entry("Nazwa", "12.00 PLN", "/obrazek.jpg", "/product/x-001");
    let item = product_item(&entry);
    assert_eq!(tag_of(&item), "article");
    let link = child(&item, 0);
    assert_eq!(attr_value(link, "href"), "/product/x-001");
    assert_eq!(attr_value(child(child(link, 0), 0), "src"), "/obrazek.jpg");
    assert_eq!(text_of(child(child(link, 1), 0)), "Nazwa");
    assert_eq!(text_of(child(child(link, 2), 0)), "12.00 PLN");
}

#[test]
fn empty_catalog_listing_renders_an_empty_grid() {
    let site = default_site();
    let catalog = megjoni::pages::CatalogSource {
        woman: Vec::new(),
        man: Vec::new(),
        new_arrivals: Vec::new(),
        sale: Vec::new(),
    };
    let doc = render_path_to_document(&site, &catalog, "/sale");
    let page = child(child(&doc.body, 2), 0);
    let grid = child(page, 2);
    assert_eq!(child_count(grid), 0);
}
