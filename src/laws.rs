//! Laws of the conversion, proved over the rendering model.

use crate::converter::{handler_for, Handler};
use crate::blocks::ParagraphHandler;
use crate::dom::{html_tree, HtmlData, HtmlNode};
use crate::formatting::SpanHandler;
use crate::lists::ListItemHandler;
use crate::model::{
    attr_value, count_items, deeper, emit, emit_handler, emit_walk, indent_units, item_marker,
    markdown_of, parent_is, span_markers,
};
use crate::style::{parsed_styles, style_value};
use crate::text::{decimal, repeat, trim_ws};
use vstd::prelude::*;

verus! {

/// The text of a subtree: its text nodes that are not all whitespace, in
/// document order.
pub open spec fn plain_text(n: HtmlNode) -> Seq<char>
    decreases n, 1int, 0int,
{
    match n.data {
        HtmlData::Text { content } => if trim_ws(content).len() == 0 {
            Seq::empty()
        } else {
            content
        },
        _ => plain_walk(n, n.children.len() as int),
    }
}

/// The text of the first `k` children of `n`.
pub open spec fn plain_walk(n: HtmlNode, k: int) -> Seq<char>
    decreases n, 0int, k,
{
    if k <= 0 || k > n.children.len() {
        Seq::empty()
    } else {
        plain_walk(n, k - 1) + plain_text(n.children[k - 1])
    }
}

/// Whether no element of the subtree has a supported tag.
pub open spec fn untagged(n: HtmlNode) -> bool
    decreases n, 1int, 0int,
{
    (match n.data {
        HtmlData::Element { tag, .. } => handler_for(tag) is None,
        _ => true,
    }) && untagged_walk(n, n.children.len() as int)
}

/// Whether none of the first `k` children of `n` holds a supported tag.
pub open spec fn untagged_walk(n: HtmlNode, k: int) -> bool
    decreases n, 0int, k,
{
    k <= 0 || k > n.children.len() || (untagged_walk(n, k - 1) && untagged(n.children[k - 1]))
}

proof fn lemma_plain(out: Seq<char>, n: HtmlNode, parent: Option<HtmlNode>, idx: int, depth: int)
    requires
        untagged(n),
    ensures
        emit(out, n, parent, idx, depth) == out + plain_text(n),
    decreases n, 1int, 0int,
{
    match n.data {
        HtmlData::Text { .. } => {
            assert(out + Seq::<char>::empty() =~= out);
        },
        _ => {
            lemma_plain_walk(out, n, n.children.len() as int, depth);
        },
    }
}

proof fn lemma_plain_walk(out: Seq<char>, n: HtmlNode, k: int, depth: int)
    requires
        untagged_walk(n, k),
    ensures
        emit_walk(out, n, k, depth) == out + plain_walk(n, k),
    decreases n, 0int, k,
{
    if k <= 0 || k > n.children.len() {
        assert(out + Seq::<char>::empty() =~= out);
    } else {
        let before = emit_walk(out, n, k - 1, depth);
        lemma_plain_walk(out, n, k - 1, depth);
        lemma_plain(before, n.children[k - 1], Some(n), k - 1, deeper(depth));
        assert((out + plain_walk(n, k - 1)) + plain_text(n.children[k - 1]) =~= out + (plain_walk(
            n,
            k - 1,
        ) + plain_text(n.children[k - 1])));
    }
}

/// A subtree without supported tags renders as its text, whatever stands
/// before it.
pub proof fn untagged_renders_as_text(
    out: Seq<char>,
    n: HtmlNode,
    parent: Option<HtmlNode>,
    idx: int,
    depth: int,
)
    requires
        untagged(n),
    ensures
        emit(out, n, parent, idx, depth) == out + plain_text(n),
{
    lemma_plain(out, n, parent, idx, depth);
}

/// A document without supported tags converts to its text, trimmed.
pub proof fn plain_document_round_trips(html: Seq<char>)
    requires
        untagged(html_tree(html)),
    ensures
        markdown_of(html) == trim_ws(plain_text(html_tree(html))),
{
    lemma_plain(Seq::empty(), html_tree(html), None, 0, 0);
    assert(Seq::<char>::empty() + plain_text(html_tree(html)) =~= plain_text(html_tree(html)));
}

/// An element whose tag has no handler adds nothing: it renders as its
/// children.
pub proof fn unknown_tag_renders_children(
    out: Seq<char>,
    n: HtmlNode,
    parent: Option<HtmlNode>,
    idx: int,
    depth: int,
)
    requires
        n.data is Element,
        handler_for(n.data->tag) is None,
    ensures
        emit(out, n, parent, idx, depth) == emit_walk(out, n, n.children.len() as int, depth),
{
}

/// An element whose tag has no handler, around one text that is not all
/// whitespace, renders as that text.
pub proof fn unknown_tag_passes_text(
    out: Seq<char>,
    n: HtmlNode,
    parent: Option<HtmlNode>,
    idx: int,
    depth: int,
)
    requires
        n.data is Element,
        handler_for(n.data->tag) is None,
        n.children.len() == 1,
        n.children[0].data is Text,
        trim_ws(n.children[0].data->content).len() > 0,
    ensures
        emit(out, n, parent, idx, depth) == out + n.children[0].data->content,
{
    let child = n.children[0];
    assert(emit_walk(out, n, 0, depth) == out);
    assert(emit_walk(out, n, 1, depth) == emit(out, child, Some(n), 0, deeper(depth)));
    assert(emit(out, child, Some(n), 0, deeper(depth)) == out + child.data->content);
}

/// A paragraph directly in a list item adds no newlines; elsewhere it is
/// framed by one newline before and one after.
pub proof fn paragraph_framing(
    out: Seq<char>,
    n: HtmlNode,
    parent: Option<HtmlNode>,
    idx: int,
    depth: int,
)
    ensures
        parent_is(parent, "li"@) ==> emit_handler(
            out,
            Handler::Paragraph(ParagraphHandler),
            n,
            parent,
            idx,
            depth,
        ) == emit_walk(out, n, n.children.len() as int, depth),
        !parent_is(parent, "li"@) ==> emit_handler(
            out,
            Handler::Paragraph(ParagraphHandler),
            n,
            parent,
            idx,
            depth,
        ) == emit_walk(out + "\n"@, n, n.children.len() as int, depth) + "\n"@,
{
}

/// The number of an item of an ordered list is one more than the number of
/// list items before it among its siblings: the list's attributes play no
/// part.
pub proof fn ordered_item_number(
    out: Seq<char>,
    n: HtmlNode,
    list: HtmlNode,
    idx: int,
    depth: int,
)
    requires
        parent_is(Some(list), "ol"@),
    ensures
        emit_handler(out, Handler::ListItem(ListItemHandler), n, Some(list), idx, depth)
            == emit_walk(
            out + repeat("  "@, indent_units(depth)) + (decimal(count_items(list.children, idx) + 1)
                + ". "@),
            n,
            n.children.len() as int,
            depth,
        ) + "\n"@,
{
}

/// Two ordered lists with the same children number their items alike,
/// whatever their attributes.
pub proof fn ordered_numbering_ignores_attributes(a: HtmlNode, b: HtmlNode, idx: int)
    requires
        parent_is(Some(a), "ol"@),
        parent_is(Some(b), "ol"@),
        a.children == b.children,
    ensures
        item_marker(Some(a), idx) == item_marker(Some(b), idx),
{
}

/// A bold weight decides a span's markers, whatever else its style says:
/// exactly one pair of markers is applied.
pub proof fn span_bold_wins(out: Seq<char>, n: HtmlNode, parent: Option<HtmlNode>, idx: int, depth: int)
    requires
        n.data is Element,
        attr_value(n.data->attrs, "style"@) is Some,
        style_value(parsed_styles(attr_value(n.data->attrs, "style"@)->0), "font-weight"@)
            == Some("bold"@) || style_value(
            parsed_styles(attr_value(n.data->attrs, "style"@)->0),
            "font-weight"@,
        ) == Some("700"@),
    ensures
        span_markers(n.data->attrs) == Some(("**"@, "**"@)),
        emit_handler(out, Handler::Span(SpanHandler), n, parent, idx, depth) == emit_walk(
            out + "**"@,
            n,
            n.children.len() as int,
            depth,
        ) + "**"@,
{
}

} // verus!
