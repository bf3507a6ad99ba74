//! Block handlers: paragraphs, blockquotes and fenced code blocks.

use crate::converter::{child_depth, Handler, MarkdownConverter};
use crate::dom::{
    attrs_view, dom_view, has_tag, node_children, node_info, parent_view, position_ok, Attr,
    Handle, NodeInfo,
};
use crate::model::{code_lang, emit_handler, quote_lines};
use crate::text::{split_lines, str_eq, strip_prefix_str, trim_str};
use vstd::prelude::*;
use vstd::string::*;

verus! {

/// `<p>`: the content between newlines, or alone on the marker's line when
/// the paragraph stands directly in a list item.
#[derive(Clone, Copy)]
pub struct ParagraphHandler;

impl ParagraphHandler {
    pub fn handle(
        &self,
        converter: &MarkdownConverter,
        node: &Handle,
        parent: Option<&Handle>,
        idx: usize,
        output: &mut String,
        depth: usize,
    )
        requires
            converter.wf(),
            position_ok(parent, idx),
        ensures
            final(output)@ == emit_handler(
                old(output)@,
                Handler::Paragraph(*self),
                dom_view(**node),
                parent_view(parent),
                idx as int,
                depth as int,
            ),
        decreases dom_view(**node), 1int,
    {
        let in_item = match parent {
            Some(p) => has_tag(p, "li"),
            None => false,
        };
        if in_item {
            converter.walk_children(node, output, depth);
        } else {
            output.append("\n");
            converter.walk_children(node, output, depth);
            output.append("\n");
        }
    }
}

/// `<blockquote>`: the content rendered apart and trimmed, each of its lines
/// then written behind `> `, starting on a fresh line.
#[derive(Clone, Copy)]
pub struct BlockquoteHandler;

impl BlockquoteHandler {
    pub fn handle(
        &self,
        converter: &MarkdownConverter,
        node: &Handle,
        parent: Option<&Handle>,
        idx: usize,
        output: &mut String,
        depth: usize,
    )
        requires
            converter.wf(),
            position_ok(parent, idx),
        ensures
            final(output)@ == emit_handler(
                old(output)@,
                Handler::Blockquote(*self),
                dom_view(**node),
                parent_view(parent),
                idx as int,
                depth as int,
            ),
        decreases dom_view(**node), 1int,
    {
        let len = output.as_str().unicode_len();
        if len > 0 && output.as_str().get_char(len - 1) != '\n' {
            output.append("\n");
        }
        let mut quote = String::new();
        converter.walk_children(node, &mut quote, child_depth(depth));
        let trimmed = trim_str(quote.as_str());
        let lines = split_lines(trimmed.as_str());
        let ghost ls = crate::text::lines_of(trimmed@);
        let ghost start = output@;
        let mut i: usize = 0;
        while i < lines.len()
            invariant
                lines@.len() == ls.len(),
                forall|j: int| 0 <= j < lines@.len() ==> #[trigger] lines@[j]@ == ls[j],
                i <= lines@.len(),
                output@ == start + quote_lines(ls.take(i as int)),
            decreases lines@.len() - i,
        {
            assert(ls.take(i + 1).drop_last() =~= ls.take(i as int));
            assert(ls.take(i + 1).last() == lines@[i as int]@);
            output.append("> ");
            output.append(lines[i].as_str());
            output.append("\n");
            i += 1;
        }
        assert(ls.take(lines@.len() as int) =~= ls);
    }
}

/// The language that a code element names: the rest of its first `class`
/// value that starts with `language-`, or nothing.
fn code_language(attrs: &Vec<Attr>) -> (r: String)
    ensures
        r@ == code_lang(attrs_view(attrs@)),
{
    let ghost all = attrs_view(attrs@);
    assert(all.skip(0) =~= all);
    let mut i: usize = 0;
    while i < attrs.len()
        invariant
            all == attrs_view(attrs@),
            i <= attrs@.len(),
            code_lang(all) == code_lang(all.skip(i as int)),
        decreases attrs@.len() - i,
    {
        assert(all.skip(i as int).drop_first() =~= all.skip(i + 1));
        if str_eq(attrs[i].name.as_str(), "class") {
            if let Some(lang) = strip_prefix_str(attrs[i].value.as_str(), "language-") {
                return lang;
            }
        }
        i += 1;
    }
    assert(all.skip(i as int).len() == 0);
    String::new()
}

/// `<pre>` around a code element: a fence named after the code's language,
/// the code's content, a closing fence. Nothing when the first child is not
/// an element.
#[derive(Clone, Copy)]
pub struct CodeBlockHandler;

impl CodeBlockHandler {
    pub fn handle(
        &self,
        converter: &MarkdownConverter,
        node: &Handle,
        parent: Option<&Handle>,
        idx: usize,
        output: &mut String,
        depth: usize,
    )
        requires
            converter.wf(),
            position_ok(parent, idx),
        ensures
            final(output)@ == emit_handler(
                old(output)@,
                Handler::CodeBlock(*self),
                dom_view(**node),
                parent_view(parent),
                idx as int,
                depth as int,
            ),
        decreases dom_view(**node), 1int,
    {
        let children = node_children(node);
        if children.len() == 0 {
            return;
        }
        let code = &children[0];
        assert(dom_view(**code) == dom_view(**node).children[0]);
        match node_info(code) {
            NodeInfo::Element { attrs, .. } => {
                output.append("\n```");
                let lang = code_language(&attrs);
                output.append(lang.as_str());
                output.append("\n");
                converter.walk_children(code, output, depth);
                output.append("\n```\n");
            },
            _ => {},
        }
    }
}

} // verus!
