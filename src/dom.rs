//! The boundary with html5ever and rcdom.
//!
//! A parsed document is an rcdom tree of reference-counted nodes. The library
//! reads it through three trusted items and models each node as an
//! [`HtmlNode`]: its data (document, element, text or other) and its children.

use std::rc::Rc;
use html5ever::driver::ParseOpts;
use html5ever::tendril::TendrilSink;
use html5ever::tree_builder::TreeBuilderOpts;
use html5ever::parse_document;
use markup5ever_rcdom::{NodeData, RcDom};
use crate::model::{attr_value, attrs_of, is_tag};
use crate::style::opt_view;
use crate::text::str_eq;
use vstd::prelude::*;

verus! {

/// What a node carries besides its children.
pub enum HtmlData {
    Document,
    Element { tag: Seq<char>, attrs: Seq<(Seq<char>, Seq<char>)> },
    Text { content: Seq<char> },
    /// A comment, doctype or processing instruction.
    Other,
}

/// The model of a node of the document tree.
pub struct HtmlNode {
    pub data: HtmlData,
    pub children: Seq<HtmlNode>,
}

/// An attribute of an element, as the parser reports it.
pub struct Attr {
    pub name: String,
    pub value: String,
}

impl View for Attr {
    type V = (Seq<char>, Seq<char>);

    open spec fn view(&self) -> (Seq<char>, Seq<char>) {
        (self.name@, self.value@)
    }
}

/// The data of one node, read out of the parsed tree.
pub enum NodeInfo {
    Document,
    Element { tag: String, attrs: Vec<Attr> },
    Text { content: String },
    Other,
}

/// The views of a list of attributes.
pub open spec fn attrs_view(v: Seq<Attr>) -> Seq<(Seq<char>, Seq<char>)> {
    v.map_values(|a: Attr| a@)
}

impl View for NodeInfo {
    type V = HtmlData;

    open spec fn view(&self) -> HtmlData {
        match self {
            NodeInfo::Document => HtmlData::Document,
            NodeInfo::Element { tag, attrs } => HtmlData::Element {
                tag: tag@,
                attrs: attrs_view(attrs@),
            },
            NodeInfo::Text { content } => HtmlData::Text { content: content@ },
            NodeInfo::Other => HtmlData::Other,
        }
    }
}

/// A node of a parsed document.
pub type Handle = Rc<markup5ever_rcdom::Node>;

#[verifier::external_type_specification]
#[verifier::external_body]
pub struct ExDomNode(markup5ever_rcdom::Node);

/// The tree that html5ever builds from a document text.
pub uninterp spec fn html_tree(html: Seq<char>) -> HtmlNode;

/// The subtree that an rcdom node holds.
pub uninterp spec fn dom_view(n: markup5ever_rcdom::Node) -> HtmlNode;

/// Relies on `html5ever::parse_document` into an rcdom `RcDom`, with doctypes
/// dropped: the document node of the tree built from `html`.
#[verifier::external_body]
pub(crate) fn parse_html(html: &str) -> (r: Rc<markup5ever_rcdom::Node>)
    ensures
        dom_view(*r) == html_tree(html@),
        dom_view(*r).data is Document,
{
    let opts = ParseOpts {
        tree_builder: TreeBuilderOpts { drop_doctype: true, ..Default::default() },
        ..Default::default()
    };
    parse_document(RcDom::default(), opts).one(html).document
}

/// Relies on rcdom's `Node::data`: the kind of the node, the local name and
/// attributes of an element, the text of a text node.
#[verifier::external_body]
pub(crate) fn node_info(h: &Rc<markup5ever_rcdom::Node>) -> (r: NodeInfo)
    ensures
        r@ == dom_view(**h).data,
{
    match &h.data {
        NodeData::Document => NodeInfo::Document,
        NodeData::Element { name, attrs, .. } => NodeInfo::Element {
            tag: name.local.to_string(),
            attrs: attrs.borrow().iter().map(
                |a| Attr { name: a.name.local.to_string(), value: a.value.to_string() },
            ).collect(),
        },
        NodeData::Text { contents } => NodeInfo::Text { content: contents.borrow().to_string() },
        NodeData::Doctype { .. } => NodeInfo::Other,
        NodeData::Comment { .. } => NodeInfo::Other,
        NodeData::ProcessingInstruction { .. } => NodeInfo::Other,
    }
}

/// Relies on rcdom's `Node::children`: the children of the node, in document order.
#[verifier::external_body]
pub(crate) fn node_children(h: &Rc<markup5ever_rcdom::Node>) -> (r: Vec<Rc<markup5ever_rcdom::Node>>)
    ensures
        r@.len() == dom_view(**h).children.len(),
        forall|i: int| 0 <= i < r@.len() ==> dom_view(*#[trigger] r@[i]) == dom_view(**h).children[i],
{
    h.children.borrow().clone()
}

/// The model of the subtree at `h`.
pub open spec fn node_view(h: &Handle) -> HtmlNode {
    dom_view(**h)
}

/// The model of an optional parent node.
pub open spec fn parent_view(p: Option<&Handle>) -> Option<HtmlNode> {
    match p {
        Some(h) => Some(dom_view(**h)),
        None => None,
    }
}

/// Whether `idx` is a child position of the parent, when there is one.
pub open spec fn position_ok(p: Option<&Handle>, idx: usize) -> bool {
    match p {
        Some(h) => idx < dom_view(**h).children.len(),
        None => true,
    }
}

/// Whether `h` is an element with tag `t`.
pub fn has_tag(h: &Handle, t: &str) -> (r: bool)
    ensures
        r == is_tag(dom_view(**h), t@),
{
    match node_info(h) {
        NodeInfo::Element { tag, .. } => str_eq(tag.as_str(), t),
        _ => false,
    }
}

/// The attributes of `h`; none unless it is an element.
pub fn element_attrs(h: &Handle) -> (r: Vec<Attr>)
    ensures
        attrs_view(r@) == attrs_of(dom_view(**h)),
{
    match node_info(h) {
        NodeInfo::Element { attrs, .. } => attrs,
        _ => {
            let v: Vec<Attr> = Vec::new();
            assert(attrs_view(v@) =~= Seq::empty());
            v
        },
    }
}

/// The value of the first attribute called `name`.
pub fn find_attr(attrs: &Vec<Attr>, name: &str) -> (r: Option<String>)
    ensures
        opt_view(r) == attr_value(attrs_view(attrs@), name@),
{
    let ghost all = attrs_view(attrs@);
    assert(all.skip(0) =~= all);
    let mut i: usize = 0;
    while i < attrs.len()
        invariant
            all == attrs_view(attrs@),
            i <= attrs@.len(),
            attr_value(all, name@) == attr_value(all.skip(i as int), name@),
        decreases attrs@.len() - i,
    {
        assert(all.skip(i as int).drop_first() =~= all.skip(i + 1));
        if str_eq(attrs[i].name.as_str(), name) {
            return Some(attrs[i].value.clone());
        }
        i += 1;
    }
    assert(all.skip(i as int).len() == 0);
    None
}

} // verus!
