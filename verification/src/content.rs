//! The content tree: the opaque, composable unit of renderable page content.
//!
//! A `ContentNode` is either literal text or an element with a tag, a list of
//! attributes and an ordered list of children. The rest of the library only
//! nests these trees; it never parses them.

use vstd::prelude::*;

verus! {

/// One attribute on an element: a name and a value.
#[derive(Debug, PartialEq, Eq)]
pub struct Attribute {
    pub name: String,
    pub value: String,
}

/// A renderable unit of page content: literal text, or an element with a
/// tag, attributes, and an ordered sequence of child nodes.
#[derive(Debug, PartialEq, Eq)]
pub enum ContentNode {
    Text(String),
    Element { tag: String, attrs: Vec<Attribute>, children: Vec<ContentNode> },
}

/// Holds when `n` is an element whose tag reads `tag`.
pub open spec fn is_element(n: ContentNode, tag: Seq<char>) -> bool {
    n matches ContentNode::Element { tag: t, .. } && t@ == tag
}

/// Holds when `n` is literal text reading `s`.
pub open spec fn is_text(n: ContentNode, s: Seq<char>) -> bool {
    n matches ContentNode::Text(t) && t@ == s
}

/// The ordered children of an element node.
pub open spec fn children_of(n: ContentNode) -> Seq<ContentNode>
    recommends
        n is Element,
{
    n->children@
}

/// The attributes of an element node.
pub open spec fn attrs_of(n: ContentNode) -> Seq<Attribute>
    recommends
        n is Element,
{
    n->attrs@
}

/// Holds when `n` has exactly one child, the text `s`.
pub open spec fn single_text(n: ContentNode, s: Seq<char>) -> bool {
    children_of(n).len() == 1 && is_text(children_of(n)[0], s)
}

/// Holds when `n` carries an attribute named `name` with value `value`.
pub open spec fn has_attr(n: ContentNode, name: Seq<char>, value: Seq<char>) -> bool {
    exists|i: int|
        0 <= i < attrs_of(n).len() && attrs_of(n)[i].name@ == name && attrs_of(n)[i].value@
            == value
}

/// Builds a text node.
pub fn text(s: &str) -> (r: ContentNode)
    ensures
        is_text(r, s@),
{
    ContentNode::Text(s.to_owned())
}

/// Builds an element node from a tag, attributes, and children.
pub fn element(tag: &str, attrs: Vec<Attribute>, children: Vec<ContentNode>) -> (r: ContentNode)
    ensures
        is_element(r, tag@),
        attrs_of(r) == attrs@,
        children_of(r) == children@,
{
    ContentNode::Element { tag: tag.to_owned(), attrs, children }
}

/// Builds an element node with no attributes.
pub fn plain_element(tag: &str, children: Vec<ContentNode>) -> (r: ContentNode)
    ensures
        is_element(r, tag@),
        attrs_of(r).len() == 0,
        children_of(r) == children@,
{
    element(tag, Vec::new(), children)
}

/// Builds one attribute.
pub fn attribute(name: &str, value: &str) -> (r: Attribute)
    ensures
        r.name@ == name@,
        r.value@ == value@,
{
    Attribute { name: name.to_owned(), value: value.to_owned() }
}

} // verus!
