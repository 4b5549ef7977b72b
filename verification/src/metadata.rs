//! Document-head metadata and the merge of per-page overrides over the
//! global defaults.
//!
//! A `Metadata` value describes the document head: title, description,
//! canonical URL, and social-preview (`og:`) tags. A page may carry a
//! `PageMetadata` override; merging is per field, and the tag listing merges
//! as a mapping union in which page entries win on a name collision.

use vstd::prelude::*;

verus! {

/// The document-head values of a rendered page.
#[derive(Debug, PartialEq, Eq)]
pub struct Metadata {
    pub title: String,
    pub description: String,
    pub canonical_url: String,
    pub og_tags: Vec<(String, String)>,
}

/// A page-level override of the global `Metadata`. A field left `None`
/// keeps the global default; `og_tags` entries are merged over the global
/// listing, winning on a name collision.
#[derive(Debug, PartialEq, Eq)]
pub struct PageMetadata {
    pub title: Option<String>,
    pub description: Option<String>,
    pub canonical_url: Option<String>,
    pub og_tags: Vec<(String, String)>,
}

/// The value bound to tag name `k` in the listing `s`: the value of the
/// first entry whose name reads `k`, or `None` when no entry does.
pub open spec fn tag_lookup(s: Seq<(String, String)>, k: Seq<char>) -> Option<Seq<char>>
    decreases s.len(),
{
    if s.len() == 0 {
        None
    } else if s[0].0@ == k {
        Some(s[0].1@)
    } else {
        tag_lookup(s.drop_first(), k)
    }
}

/// The value bound to `k` after merging the page listing `p` over the
/// global listing `g`: the page entry when present, the global one
/// otherwise.
pub open spec fn merged_tag(
    g: Seq<(String, String)>,
    p: Seq<(String, String)>,
    k: Seq<char>,
) -> Option<Seq<char>> {
    match tag_lookup(p, k) {
        Some(v) => Some(v),
        None => tag_lookup(g, k),
    }
}

/// The page entries bound to names the global listing does not bind, in
/// their own order: the part of a merge that extends the global listing.
pub open spec fn fresh_tags(
    p: Seq<(String, String)>,
    g: Seq<(String, String)>,
) -> Seq<(String, String)>
    decreases p.len(),
{
    if p.len() == 0 {
        Seq::empty()
    } else {
        fresh_tags(p.drop_last(), g) + (if tag_lookup(g, p.last().0@) is Some {
            Seq::empty()
        } else {
            seq![p.last()]
        })
    }
}

/// A merged tag listing laid out in order: the global entries first, in
/// their order and with overridden values in place, then the page entries
/// bound to new names, in their order.
pub open spec fn merged_tags_ordered(
    r: Seq<(String, String)>,
    g: Seq<(String, String)>,
    p: Seq<(String, String)>,
) -> bool {
    &&& r.len() == g.len() + fresh_tags(p, g).len()
    &&& forall|i: int|
        0 <= i < g.len() ==> (#[trigger] r[i]).0 == g[i].0 && r[i].1@ == (match tag_lookup(
            p,
            g[i].0@,
        ) {
            Some(w) => w,
            None => g[i].1@,
        })
    &&& r.skip(g.len() as int) == fresh_tags(p, g)
}

/// Looking a name up in a concatenation tries the front listing first.
pub proof fn lemma_tag_lookup_append(s1: Seq<(String, String)>, s2: Seq<(String, String)>, k: Seq<char>)
    ensures
        tag_lookup(s1 + s2, k) == (match tag_lookup(s1, k) {
            Some(v) => Some(v),
            None => tag_lookup(s2, k),
        }),
    decreases s1.len(),
{
    if s1.len() == 0 {
        assert(s1 + s2 =~= s2);
    } else {
        assert((s1 + s2)[0] == s1[0]);
        if s1[0].0@ == k {
        } else {
            assert((s1 + s2).drop_first() =~= s1.drop_first() + s2);
            lemma_tag_lookup_append(s1.drop_first(), s2, k);
        }
    }
}

/// Appending one entry changes the lookup only for a name not yet bound.
pub proof fn lemma_tag_lookup_push(s: Seq<(String, String)>, e: (String, String), k: Seq<char>)
    ensures
        tag_lookup(s.push(e), k) == (match tag_lookup(s, k) {
            Some(v) => Some(v),
            None => if e.0@ == k {
                Some(e.1@)
            } else {
                None
            },
        }),
{
    let single = seq![e];
    assert(s.push(e) =~= s + single);
    lemma_tag_lookup_append(s, single, k);
    assert(single.drop_first() =~= Seq::<(String, String)>::empty());
    if e.0@ == k {
        assert(tag_lookup(single, k) == Some(e.1@));
    } else {
        assert(tag_lookup(single, k) == tag_lookup(single.drop_first(), k));
        assert(tag_lookup(single.drop_first(), k) is None);
    }
}

/// Finds the value bound to `name` in an ordered tag listing; the first
/// entry with that name wins.
pub fn find_tag<'a>(tags: &'a Vec<(String, String)>, name: &String) -> (r: Option<&'a String>)
    ensures
        match r {
            Some(v) => tag_lookup(tags@, name@) == Some(v@),
            None => tag_lookup(tags@, name@) is None,
        },
{
    let ghost all = tags@;
    let mut i: usize = 0;
    while i < tags.len()
        invariant
            i <= tags.len(),
            all == tags@,
            tag_lookup(all.take(i as int), name@) is None,
        decreases tags.len() - i,
    {
        proof {
            assert(all.take(i as int + 1) =~= all.take(i as int).push(all[i as int]));
            lemma_tag_lookup_push(all.take(i as int), all[i as int], name@);
        }
        if tags[i].0 == *name {
            proof {
                assert(all =~= all.take(i as int + 1) + all.skip(i as int + 1));
                lemma_tag_lookup_append(all.take(i as int + 1), all.skip(i as int + 1), name@);
            }
            return Some(&tags[i].1);
        }
        i = i + 1;
    }
    proof {
        assert(all.take(tags@.len() as int) =~= all);
    }
    None
}

/// Clones a tag listing entry by entry.
fn clone_tags(tags: &Vec<(String, String)>) -> (r: Vec<(String, String)>)
    ensures
        r@ == tags@,
{
    let mut r: Vec<(String, String)> = Vec::new();
    let mut i: usize = 0;
    while i < tags.len()
        invariant
            i <= tags.len(),
            r@.len() == i as int,
            forall|j: int| 0 <= j < i as int ==> r@[j] == tags@[j],
        decreases tags.len() - i,
    {
        r.push((tags[i].0.clone(), tags[i].1.clone()));
        i = i + 1;
    }
    proof {
        assert(r@ =~= tags@);
    }
    r
}

/// Merges the page tag listing `p` over the global listing `g`: a mapping
/// union in which page entries win on a name collision. Global entries keep
/// their order, with overridden values in place; page entries bound to new
/// names follow in their own order.
fn merge_og_tags(g: &Vec<(String, String)>, p: &Vec<(String, String)>) -> (r: Vec<(String, String)>)
    ensures
        forall|k: Seq<char>| #[trigger] tag_lookup(r@, k) == merged_tag(g@, p@, k),
        merged_tags_ordered(r@, g@, p@),
{
    let ghost gs = g@;
    let ghost ps = p@;
    let mut r: Vec<(String, String)> = Vec::new();
    let mut i: usize = 0;
    while i < g.len()
        invariant
            i <= g.len(),
            gs == g@,
            ps == p@,
            r@.len() == i as int,
            forall|m: int|
                0 <= m < i as int ==> (#[trigger] r@[m]).0 == gs[m].0 && r@[m].1@ == (match
                tag_lookup(ps, gs[m].0@) {
                    Some(w) => w,
                    None => gs[m].1@,
                }),
            forall|k: Seq<char>| #[trigger] tag_lookup(r@, k) == (match tag_lookup(
                gs.take(i as int),
                k,
            ) {
                Some(v) => Some(
                    match tag_lookup(ps, k) {
                        Some(w) => w,
                        None => v,
                    },
                ),
                None => None::<Seq<char>>,
            }),
        decreases g.len() - i,
    {
        let ghost r_before = r@;
        let value: String = match find_tag(p, &g[i].0) {
            Some(v) => v.clone(),
            None => g[i].1.clone(),
        };
        r.push((g[i].0.clone(), value));
        proof {
            assert(gs.take(i as int + 1) =~= gs.take(i as int).push(gs[i as int]));
            assert forall|k: Seq<char>| #[trigger] tag_lookup(r@, k) == (match tag_lookup(
                gs.take(i as int + 1),
                k,
            ) {
                Some(v) => Some(
                    match tag_lookup(ps, k) {
                        Some(w) => w,
                        None => v,
                    },
                ),
                None => None::<Seq<char>>,
            }) by {
                lemma_tag_lookup_push(r_before, r@.last(), k);
                lemma_tag_lookup_push(gs.take(i as int), gs[i as int], k);
            }
        }
        i = i + 1;
    }
    proof {
        assert(gs.take(gs.len() as int) =~= gs);
        assert(r@.skip(gs.len() as int) =~= Seq::<(String, String)>::empty());
        assert(fresh_tags(ps.take(0), gs) =~= Seq::<(String, String)>::empty());
    }
    let mut j: usize = 0;
    while j < p.len()
        invariant
            j <= p.len(),
            gs == g@,
            ps == p@,
            r@.len() == gs.len() + fresh_tags(ps.take(j as int), gs).len(),
            forall|m: int|
                0 <= m < gs.len() ==> (#[trigger] r@[m]).0 == gs[m].0 && r@[m].1@ == (match
                tag_lookup(ps, gs[m].0@) {
                    Some(w) => w,
                    None => gs[m].1@,
                }),
            r@.skip(gs.len() as int) == fresh_tags(ps.take(j as int), gs),
            forall|k: Seq<char>| #[trigger] tag_lookup(r@, k) == (match tag_lookup(gs, k) {
                Some(v) => Some(
                    match tag_lookup(ps, k) {
                        Some(w) => w,
                        None => v,
                    },
                ),
                None => tag_lookup(ps.take(j as int), k),
            }),
        decreases p.len() - j,
    {
        let ghost r_before = r@;
        let fresh = match find_tag(g, &p[j].0) {
            Some(_) => false,
            None => true,
        };
        if fresh {
            r.push((p[j].0.clone(), p[j].1.clone()));
        }
        proof {
            assert(ps.take(j as int + 1) =~= ps.take(j as int).push(ps[j as int]));
            assert(ps.take(j as int + 1).drop_last() =~= ps.take(j as int));
            if fresh {
                assert(r@.last() == ps[j as int]);
                assert(r@.skip(gs.len() as int) =~= r_before.skip(gs.len() as int).push(
                    ps[j as int],
                ));
                assert(fresh_tags(ps.take(j as int), gs).push(ps[j as int]) =~= fresh_tags(
                    ps.take(j as int),
                    gs,
                ) + seq![ps[j as int]]);
                assert(r@.skip(gs.len() as int) == fresh_tags(ps.take(j as int + 1), gs));
            } else {
                assert(fresh_tags(ps.take(j as int), gs) + Seq::<(String, String)>::empty()
                    =~= fresh_tags(ps.take(j as int), gs));
                assert(r@.skip(gs.len() as int) == fresh_tags(ps.take(j as int + 1), gs));
            }
            assert forall|k: Seq<char>| #[trigger] tag_lookup(r@, k) == (match tag_lookup(gs, k) {
                Some(v) => Some(
                    match tag_lookup(ps, k) {
                        Some(w) => w,
                        None => v,
                    },
                ),
                None => tag_lookup(ps.take(j as int + 1), k),
            }) by {
                if fresh {
                    lemma_tag_lookup_push(r_before, r@.last(), k);
                }
                lemma_tag_lookup_push(ps.take(j as int), ps[j as int], k);
            }
        }
        j = j + 1;
    }
    proof {
        assert(ps.take(ps.len() as int) =~= ps);
    }
    r
}

/// Merges a page-level override over the global defaults, field by field: a
/// field the page sets wins, a field it leaves unset keeps the global value,
/// and the tag listings merge as a mapping union with page entries winning.
/// A missing override leaves the defaults unchanged.
pub fn merge_metadata(global: &Metadata, page: Option<&PageMetadata>) -> (r: Metadata)
    ensures
        r.title@ == (match page {
            Some(p) => match p.title {
                Some(t) => t@,
                None => global.title@,
            },
            None => global.title@,
        }),
        r.description@ == (match page {
            Some(p) => match p.description {
                Some(d) => d@,
                None => global.description@,
            },
            None => global.description@,
        }),
        r.canonical_url@ == (match page {
            Some(p) => match p.canonical_url {
                Some(u) => u@,
                None => global.canonical_url@,
            },
            None => global.canonical_url@,
        }),
        forall|k: Seq<char>| #[trigger] tag_lookup(r.og_tags@, k) == merged_tag(
            global.og_tags@,
            (match page {
                Some(p) => p.og_tags@,
                None => Seq::<(String, String)>::empty(),
            }),
            k,
        ),
        page is None ==> r.title == global.title && r.description == global.description
            && r.canonical_url == global.canonical_url && r.og_tags@ == global.og_tags@,
        merged_tags_ordered(
            r.og_tags@,
            global.og_tags@,
            (match page {
                Some(p) => p.og_tags@,
                None => Seq::<(String, String)>::empty(),
            }),
        ),
{
    let r = match page {
        None => Metadata {
            title: global.title.clone(),
            description: global.description.clone(),
            canonical_url: global.canonical_url.clone(),
            og_tags: clone_tags(&global.og_tags),
        },
        Some(p) => Metadata {
            title: match &p.title {
                Some(t) => t.clone(),
                None => global.title.clone(),
            },
            description: match &p.description {
                Some(d) => d.clone(),
                None => global.description.clone(),
            },
            canonical_url: match &p.canonical_url {
                Some(u) => u.clone(),
                None => global.canonical_url.clone(),
            },
            og_tags: merge_og_tags(&global.og_tags, &p.og_tags),
        },
    };
    proof {
        if page is None {
            let empty = Seq::<(String, String)>::empty();
            assert(fresh_tags(empty, global.og_tags@) =~= empty);
            assert(r.og_tags@.skip(global.og_tags@.len() as int) =~= empty);
        }
    }
    r
}

impl Metadata {
    /// The value bound to `name` among the social-preview tags, if any.
    pub fn og_tag_value<'a>(&'a self, name: &String) -> (r: Option<&'a String>)
        ensures
            match r {
                Some(v) => tag_lookup(self.og_tags@, name@) == Some(v@),
                None => tag_lookup(self.og_tags@, name@) is None,
            },
    {
        find_tag(&self.og_tags, name)
    }
}

} // verus!
