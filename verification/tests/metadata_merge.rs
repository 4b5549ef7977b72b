use megjoni::metadata::{Metadata, PageMetadata, find_tag, merge_metadata};

fn global() -> Metadata {
    Metadata {
        title: String::from("T1"),
        description: String::from("D1"),
        canonical_url: String::from("https://example.test/"),
        og_tags: vec![
            (String::from("a"), String::from("1")),
            (String::from("b"), String::from("2")),
        ],
    }
}

fn no_override() -> PageMetadata {
    PageMetadata { title: None, description: None, canonical_url: None, og_tags: Vec::new() }
}

#[test]
fn merge_with_no_override_is_identity() {
    let g = global();
    let merged = merge_metadata(&g, None);
    assert_eq!(merged.title, g.title);
    assert_eq!(merged.description, g.description);
    assert_eq!(merged.canonical_url, g.canonical_url);
    assert_eq!(merged.og_tags, g.og_tags);
}

#[test]
fn merge_with_empty_override_keeps_every_field() {
    let g = global();
    let p = no_override();
    let merged = merge_metadata(&g, Some(&p));
    assert_eq!(merged.title, "T1");
    assert_eq!(merged.description, "D1");
    assert_eq!(merged.canonical_url, "https://example.test/");
    assert_eq!(merged.og_tags, g.og_tags);
}

#[test]
fn page_title_overrides_global_title() {
    let g = global();
    let p = PageMetadata { title: Some(String::from("T2")), ..no_override() };
    let merged = merge_metadata(&g, Some(&p));
    assert_eq!(merged.title, "T2");
    assert_eq!(merged.description, "D1");
}

#[test]
fn og_tags_merge_as_mapping_union_with_page_precedence() {
    let g = global();
    let p = PageMetadata {
        og_tags: vec![
            (String::from("b"), String::from("3")),
            (String::from("c"), String::from("4")),
        ],
        ..no_override()
    };
    let merged = merge_metadata(&g, Some(&p));
    assert_eq!(merged.og_tags.len(), 3);
    assert_eq!(merged.og_tags[0], (String::from("a"), String::from("1")));
    assert_eq!(merged.og_tags[1], (String::from("b"), String::from("3")));
    assert_eq!(merged.og_tags[2], (String::from("c"), String::from("4")));
    assert_eq!(merged.og_tag_value(&String::from("a")), Some(&String::from("1")));
    assert_eq!(merged.og_tag_value(&String::from("b")), Some(&String::from("3")));
    assert_eq!(merged.og_tag_value(&String::from("c")), Some(&String::from("4")));
    assert_eq!(merged.og_tag_value(&String::from("d")), None);
}

#[test]
fn find_tag_returns_first_match() {
    let tags = vec![
        (String::from("k"), String::from("first")),
        (String::from("k"), String::from("second")),
    ];
    assert_eq!(find_tag(&tags, &String::from("k")), Some(&String::from("first")));
    assert_eq!(find_tag(&tags, &String::from("missing")), None);
}
