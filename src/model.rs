//! The rendering model: what the converter appends to its output for each
//! node of the document tree.
//!
//! `emit(out, n, parent, idx, depth)` is the whole output after node `n`,
//! child number `idx` of `parent`, is rendered at `depth` behind `out`. The
//! output so far matters only to a blockquote, which starts on a fresh line.

use crate::converter::Handler;
use crate::dom::{HtmlData, HtmlNode};
use crate::style::{parsed_styles, style_markers};
use crate::text::{decimal, lines_of, repeat, trim_ws};
use vstd::prelude::*;

verus! {

/// The nesting depth at which the items of an outermost list stand: the
/// document, `html`, `body` and the list lie above them.
pub const LIST_BASELINE: usize = 4;

/// The depth of the children of a node at depth `d`.
pub open spec fn deeper(d: int) -> int {
    if d < usize::MAX {
        d + 1
    } else {
        d
    }
}

/// The indentation units of a list item at depth `d`.
pub open spec fn indent_units(d: int) -> nat {
    if d > LIST_BASELINE {
        (d - LIST_BASELINE) as nat
    } else {
        0
    }
}

/// Whether `n` is an element with tag `t`.
pub open spec fn is_tag(n: HtmlNode, t: Seq<char>) -> bool {
    match n.data {
        HtmlData::Element { tag, .. } => tag == t,
        _ => false,
    }
}

/// Whether the parent is an element with tag `t`.
pub open spec fn parent_is(parent: Option<HtmlNode>, t: Seq<char>) -> bool {
    match parent {
        Some(p) => is_tag(p, t),
        None => false,
    }
}

/// The number of list items among the first `k` of `sibs`.
pub open spec fn count_items(sibs: Seq<HtmlNode>, k: int) -> nat
    decreases k,
{
    if k <= 0 {
        0
    } else {
        count_items(sibs, k - 1) + if is_tag(sibs[k - 1], "li"@) {
            1nat
        } else {
            0nat
        }
    }
}

/// The value of the first attribute called `name`.
pub open spec fn attr_value(attrs: Seq<(Seq<char>, Seq<char>)>, name: Seq<char>) -> Option<
    Seq<char>,
>
    decreases attrs.len(),
{
    if attrs.len() == 0 {
        None
    } else if attrs[0].0 == name {
        Some(attrs[0].1)
    } else {
        attr_value(attrs.drop_first(), name)
    }
}

/// The language of a code element: the rest of the first `class` value that
/// starts with `language-`, or nothing.
pub open spec fn code_lang(attrs: Seq<(Seq<char>, Seq<char>)>) -> Seq<char>
    decreases attrs.len(),
{
    if attrs.len() == 0 {
        Seq::empty()
    } else if attrs[0].0 == "class"@ && "language-"@.is_prefix_of(attrs[0].1) {
        attrs[0].1.skip("language-"@.len() as int)
    } else {
        code_lang(attrs.drop_first())
    }
}

/// The attributes of an element node; none for another node.
pub open spec fn attrs_of(n: HtmlNode) -> Seq<(Seq<char>, Seq<char>)> {
    match n.data {
        HtmlData::Element { attrs, .. } => attrs,
        _ => Seq::empty(),
    }
}

/// The markers that a span with these attributes is wrapped in.
pub open spec fn span_markers(attrs: Seq<(Seq<char>, Seq<char>)>) -> Option<(Seq<char>, Seq<char>)> {
    match attr_value(attrs, "style"@) {
        Some(s) => style_markers(parsed_styles(s)),
        None => None,
    }
}

/// The target of a link: its `href`, or nothing.
pub open spec fn link_target(attrs: Seq<(Seq<char>, Seq<char>)>) -> Seq<char> {
    match attr_value(attrs, "href"@) {
        Some(v) => v,
        None => Seq::empty(),
    }
}

/// The marker that begins a list item: `N. ` under an ordered list, where `N`
/// counts the list items before it among its siblings, else `- `.
pub open spec fn item_marker(parent: Option<HtmlNode>, idx: int) -> Seq<char> {
    if parent_is(parent, "ol"@) {
        decimal(count_items(parent->0.children, idx) + 1) + ". "@
    } else {
        "- "@
    }
}

/// Each line behind `> ` and ended by a newline.
pub open spec fn quote_lines(ls: Seq<Seq<char>>) -> Seq<char>
    decreases ls.len(),
{
    if ls.len() == 0 {
        Seq::empty()
    } else {
        quote_lines(ls.drop_last()) + "> "@ + ls.last() + "\n"@
    }
}

/// `out`, with a newline added unless it is empty or already ends with one.
pub open spec fn fresh_line(out: Seq<char>) -> Seq<char> {
    if out.len() > 0 && out.last() != '\n' {
        out + "\n"@
    } else {
        out
    }
}

/// The tag table: each supported tag and its handler, looked up front first.
pub open spec fn find_handler(table: Seq<(Seq<char>, Handler)>, tag: Seq<char>) -> Option<Handler>
    decreases table.len(),
{
    if table.len() == 0 {
        None
    } else if table[0].0 == tag {
        Some(table[0].1)
    } else {
        find_handler(table.drop_first(), tag)
    }
}

/// The output after `n`.
pub open spec fn emit(
    out: Seq<char>,
    n: HtmlNode,
    parent: Option<HtmlNode>,
    idx: int,
    depth: int,
) -> Seq<char>
    decreases n, 2int, 0int,
{
    match n.data {
        HtmlData::Text { content } => if trim_ws(content).len() == 0 {
            out
        } else {
            out + content
        },
        HtmlData::Element { tag, .. } => match find_handler(crate::converter::registry(), tag) {
            Some(h) => emit_handler(out, h, n, parent, idx, depth),
            None => emit_walk(out, n, n.children.len() as int, depth),
        },
        _ => emit_walk(out, n, n.children.len() as int, depth),
    }
}

/// The output after the first `k` children of `n`, each one level deeper.
pub open spec fn emit_walk(out: Seq<char>, n: HtmlNode, k: int, depth: int) -> Seq<char>
    decreases n, 0int, k,
{
    if k <= 0 || k > n.children.len() {
        out
    } else {
        emit(emit_walk(out, n, k - 1, depth), n.children[k - 1], Some(n), k - 1, deeper(depth))
    }
}

/// The output after element `n`, rendered by handler `h`.
pub open spec fn emit_handler(
    out: Seq<char>,
    h: Handler,
    n: HtmlNode,
    parent: Option<HtmlNode>,
    idx: int,
    depth: int,
) -> Seq<char>
    decreases n, 1int, 0int,
{
    let len = n.children.len() as int;
    match h {
        Handler::Paragraph(_) => if parent_is(parent, "li"@) {
            emit_walk(out, n, len, depth)
        } else {
            emit_walk(out + "\n"@, n, len, depth) + "\n"@
        },
        Handler::Header(hh) => emit_walk(
            out + "\n"@ + repeat("#"@, hh.level as nat) + " "@,
            n,
            len,
            depth,
        ),
        Handler::Emphasis(_) => emit_walk(out + "*"@, n, len, depth) + "*"@,
        Handler::Bold(_) => emit_walk(out + "**"@, n, len, depth) + "**"@,
        Handler::StrikeThrough(_) => emit_walk(out + "~~"@, n, len, depth) + "~~"@,
        Handler::InlineCode(_) => emit_walk(out + "`"@, n, len, depth) + "`"@,
        Handler::Mark(_) => emit_walk(out + "=="@, n, len, depth) + "=="@,
        Handler::Underline(_) => emit_walk(out + "<u>"@, n, len, depth) + "</u>"@,
        Handler::Link(_) => emit_walk(out + "["@, n, len, depth) + "]("@ + link_target(
            attrs_of(n),
        ) + ")"@,
        Handler::Span(_) => match span_markers(attrs_of(n)) {
            Some(m) => emit_walk(out + m.0, n, len, depth) + m.1,
            None => emit_walk(out, n, len, depth),
        },
        Handler::Blockquote(_) => fresh_line(out) + quote_lines(
            lines_of(trim_ws(emit_walk(Seq::empty(), n, len, deeper(depth)))),
        ),
        Handler::CodeBlock(_) => if len == 0 || !(n.children[0].data is Element) {
            out
        } else {
            let code = n.children[0];
            emit_walk(
                out + "\n```"@ + code_lang(attrs_of(code)) + "\n"@,
                code,
                code.children.len() as int,
                depth,
            ) + "\n```\n"@
        },
        Handler::HorizontalRule(_) => emit_walk(out + "\n---"@, n, len, depth) + "\n"@,
        Handler::UnorderedList(_) => emit_walk(out + "\n"@, n, len, depth) + "\n"@,
        Handler::OrderedList(_) => emit_walk(out + "\n"@, n, len, depth) + "\n"@,
        Handler::ListItem(_) => emit_walk(
            out + repeat("  "@, indent_units(depth)) + item_marker(parent, idx),
            n,
            len,
            depth,
        ) + "\n"@,
    }
}

/// The Markdown for an HTML text: the rendered document, trimmed.
pub open spec fn markdown_of(html: Seq<char>) -> Seq<char> {
    trim_ws(emit(Seq::empty(), crate::dom::html_tree(html), None, 0, 0))
}

} // verus!
