//! Inline handlers: fixed markers around the content, links and styled spans.

use crate::converter::{Handler, MarkdownConverter};
use crate::dom::{dom_view, element_attrs, find_attr, parent_view, position_ok, Handle};
use crate::model::emit_handler;
use crate::style::StyleParser;
use vstd::prelude::*;
use vstd::string::*;

verus! {

/// `<mark>`: the content between `==` markers.
#[derive(Clone, Copy)]
pub struct MarkHandler;

impl MarkHandler {
    pub fn handle(
        &self,
        converter: &MarkdownConverter,
        node: &Handle,
        parent: Option<&Handle>,
        idx: usize,
        output: &mut String,
        depth: usize,
    )
        requires
            converter.wf(),
            position_ok(parent, idx),
        ensures
            final(output)@ == emit_handler(
                old(output)@,
                Handler::Mark(*self),
                dom_view(**node),
                parent_view(parent),
                idx as int,
                depth as int,
            ),
        decreases dom_view(**node), 1int,
    {
        output.append("==");
        converter.walk_children(node, output, depth);
        output.append("==");
    }
}

/// `<u>`: kept as literal `<u>` markup, for Markdown has no underline.
#[derive(Clone, Copy)]
pub struct UnderlineHandler;

impl UnderlineHandler {
    pub fn handle(
        &self,
        converter: &MarkdownConverter,
        node: &Handle,
        parent: Option<&Handle>,
        idx: usize,
        output: &mut String,
        depth: usize,
    )
        requires
            converter.wf(),
            position_ok(parent, idx),
        ensures
            final(output)@ == emit_handler(
                old(output)@,
                Handler::Underline(*self),
                dom_view(**node),
                parent_view(parent),
                idx as int,
                depth as int,
            ),
        decreases dom_view(**node), 1int,
    {
        output.append("<u>");
        converter.walk_children(node, output, depth);
        output.append("</u>");
    }
}

/// `<em>`: the content between `*` markers.
#[derive(Clone, Copy)]
pub struct EmphasisHandler;

impl EmphasisHandler {
    pub fn handle(
        &self,
        converter: &MarkdownConverter,
        node: &Handle,
        parent: Option<&Handle>,
        idx: usize,
        output: &mut String,
        depth: usize,
    )
        requires
            converter.wf(),
            position_ok(parent, idx),
        ensures
            final(output)@ == emit_handler(
                old(output)@,
                Handler::Emphasis(*self),
                dom_view(**node),
                parent_view(parent),
                idx as int,
                depth as int,
            ),
        decreases dom_view(**node), 1int,
    {
        output.append("*");
        converter.walk_children(node, output, depth);
        output.append("*");
    }
}

/// `<b>` and `<strong>`: the content between `**` markers.
#[derive(Clone, Copy)]
pub struct BoldHandler;

impl BoldHandler {
    pub fn handle(
        &self,
        converter: &MarkdownConverter,
        node: &Handle,
        parent: Option<&Handle>,
        idx: usize,
        output: &mut String,
        depth: usize,
    )
        requires
            converter.wf(),
            position_ok(parent, idx),
        ensures
            final(output)@ == emit_handler(
                old(output)@,
                Handler::Bold(*self),
                dom_view(**node),
                parent_view(parent),
                idx as int,
                depth as int,
            ),
        decreases dom_view(**node), 1int,
    {
        output.append("**");
        converter.walk_children(node, output, depth);
        output.append("**");
    }
}

/// `<code>` outside a code block: the content between backticks.
#[derive(Clone, Copy)]
pub struct InlineCodeHandler;

impl InlineCodeHandler {
    pub fn handle(
        &self,
        converter: &MarkdownConverter,
        node: &Handle,
        parent: Option<&Handle>,
        idx: usize,
        output: &mut String,
        depth: usize,
    )
        requires
            converter.wf(),
            position_ok(parent, idx),
        ensures
            final(output)@ == emit_handler(
                old(output)@,
                Handler::InlineCode(*self),
                dom_view(**node),
                parent_view(parent),
                idx as int,
                depth as int,
            ),
        decreases dom_view(**node), 1int,
    {
        output.append("`");
        converter.walk_children(node, output, depth);
        output.append("`");
    }
}

/// `<s>`: the content between `~~` markers.
#[derive(Clone, Copy)]
pub struct StrikeThroughHandler;

impl StrikeThroughHandler {
    pub fn handle(
        &self,
        converter: &MarkdownConverter,
        node: &Handle,
        parent: Option<&Handle>,
        idx: usize,
        output: &mut String,
        depth: usize,
    )
        requires
            converter.wf(),
            position_ok(parent, idx),
        ensures
            final(output)@ == emit_handler(
                old(output)@,
                Handler::StrikeThrough(*self),
                dom_view(**node),
                parent_view(parent),
                idx as int,
                depth as int,
            ),
        decreases dom_view(**node), 1int,
    {
        output.append("~~");
        converter.walk_children(node, output, depth);
        output.append("~~");
    }
}

/// `<hr>`: a `---` line.
#[derive(Clone, Copy)]
pub struct HorizontalRuleHandler;

impl HorizontalRuleHandler {
    pub fn handle(
        &self,
        converter: &MarkdownConverter,
        node: &Handle,
        parent: Option<&Handle>,
        idx: usize,
        output: &mut String,
        depth: usize,
    )
        requires
            converter.wf(),
            position_ok(parent, idx),
        ensures
            final(output)@ == emit_handler(
                old(output)@,
                Handler::HorizontalRule(*self),
                dom_view(**node),
                parent_view(parent),
                idx as int,
                depth as int,
            ),
        decreases dom_view(**node), 1int,
    {
        output.append("\n---");
        converter.walk_children(node, output, depth);
        output.append("\n");
    }
}

/// `<a>`: `[content](href)`, the target empty without an `href`.
#[derive(Clone, Copy)]
pub struct LinkHandler;

impl LinkHandler {
    pub fn handle(
        &self,
        converter: &MarkdownConverter,
        node: &Handle,
        parent: Option<&Handle>,
        idx: usize,
        output: &mut String,
        depth: usize,
    )
        requires
            converter.wf(),
            position_ok(parent, idx),
        ensures
            final(output)@ == emit_handler(
                old(output)@,
                Handler::Link(*self),
                dom_view(**node),
                parent_view(parent),
                idx as int,
                depth as int,
            ),
        decreases dom_view(**node), 1int,
    {
        let attrs = element_attrs(node);
        output.append("[");
        converter.walk_children(node, output, depth);
        output.append("](");
        if let Some(href) = find_attr(&attrs, "href") {
            output.append(href.as_str());
        }
        output.append(")");
    }
}

/// `<span>`: wrapped in the markers that its `style` attribute calls for.
#[derive(Clone, Copy)]
pub struct SpanHandler;

impl SpanHandler {
    pub fn handle(
        &self,
        converter: &MarkdownConverter,
        node: &Handle,
        parent: Option<&Handle>,
        idx: usize,
        output: &mut String,
        depth: usize,
    )
        requires
            converter.wf(),
            position_ok(parent, idx),
        ensures
            final(output)@ == emit_handler(
                old(output)@,
                Handler::Span(*self),
                dom_view(**node),
                parent_view(parent),
                idx as int,
                depth as int,
            ),
        decreases dom_view(**node), 1int,
    {
        let attrs = element_attrs(node);
        if let Some(style) = find_attr(&attrs, "style") {
            let styles = StyleParser::parse_styles(style.as_str());
            if let Some((prefix, suffix)) = StyleParser::get_markdown_style(&styles) {
                output.append(prefix.as_str());
                converter.walk_children(node, output, depth);
                output.append(suffix.as_str());
                return;
            }
        }
        converter.walk_children(node, output, depth);
    }
}

} // verus!
