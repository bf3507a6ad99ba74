//! The handler registry and the traversal engine.

use crate::blocks::{BlockquoteHandler, CodeBlockHandler, ParagraphHandler};
use crate::dom::{
    dom_view, node_children, node_view, node_info, parent_view, parse_html, position_ok, Handle, NodeInfo,
};
use crate::formatting::{
    BoldHandler, EmphasisHandler, HorizontalRuleHandler, InlineCodeHandler, LinkHandler,
    MarkHandler, SpanHandler, StrikeThroughHandler, UnderlineHandler,
};
use crate::headers::HeaderHandler;
use crate::lists::{ListItemHandler, OrderedListHandler, UnorderedListHandler};
use crate::model::{deeper, emit, emit_handler, emit_walk, find_handler, markdown_of};
use crate::text::trim_str;
use vstd::prelude::*;
use vstd::string::*;

verus! {

/// The handler of a supported element.
#[derive(Clone, Copy)]
pub enum Handler {
    Paragraph(ParagraphHandler),
    Header(HeaderHandler),
    Emphasis(EmphasisHandler),
    Bold(BoldHandler),
    StrikeThrough(StrikeThroughHandler),
    InlineCode(InlineCodeHandler),
    Mark(MarkHandler),
    Underline(UnderlineHandler),
    Link(LinkHandler),
    Span(SpanHandler),
    Blockquote(BlockquoteHandler),
    CodeBlock(CodeBlockHandler),
    HorizontalRule(HorizontalRuleHandler),
    UnorderedList(UnorderedListHandler),
    OrderedList(OrderedListHandler),
    ListItem(ListItemHandler),
}

/// The supported tags and their handlers.
pub open spec fn registry() -> Seq<(Seq<char>, Handler)> {
    seq![
        ("p"@, Handler::Paragraph(ParagraphHandler)),
        ("mark"@, Handler::Mark(MarkHandler)),
        ("s"@, Handler::StrikeThrough(StrikeThroughHandler)),
        ("em"@, Handler::Emphasis(EmphasisHandler)),
        ("b"@, Handler::Bold(BoldHandler)),
        ("strong"@, Handler::Bold(BoldHandler)),
        ("u"@, Handler::Underline(UnderlineHandler)),
        ("a"@, Handler::Link(LinkHandler)),
        ("span"@, Handler::Span(SpanHandler)),
        ("blockquote"@, Handler::Blockquote(BlockquoteHandler)),
        ("code"@, Handler::InlineCode(InlineCodeHandler)),
        ("pre"@, Handler::CodeBlock(CodeBlockHandler)),
        ("hr"@, Handler::HorizontalRule(HorizontalRuleHandler)),
        ("ul"@, Handler::UnorderedList(UnorderedListHandler)),
        ("ol"@, Handler::OrderedList(OrderedListHandler)),
        ("li"@, Handler::ListItem(ListItemHandler)),
        ("h1"@, Handler::Header(HeaderHandler { level: 1 })),
        ("h2"@, Handler::Header(HeaderHandler { level: 2 })),
        ("h3"@, Handler::Header(HeaderHandler { level: 3 })),
        ("h4"@, Handler::Header(HeaderHandler { level: 4 })),
        ("h5"@, Handler::Header(HeaderHandler { level: 5 })),
        ("h6"@, Handler::Header(HeaderHandler { level: 6 })),
    ]
}

/// The handler registered for `tag`, if any.
pub open spec fn handler_for(tag: Seq<char>) -> Option<Handler> {
    find_handler(registry(), tag)
}

/// The depth of the children of a node at depth `d`.
pub fn child_depth(d: usize) -> (r: usize)
    ensures
        r as int == deeper(d as int),
{
    if d < usize::MAX {
        d + 1
    } else {
        d
    }
}

impl Handler {
    /// Renders element `node` with this handler.
    pub fn handle(
        &self,
        converter: &MarkdownConverter,
        node: &Handle,
        parent: Option<&Handle>,
        idx: usize,
        output: &mut String,
        depth: usize,
    )
        requires
            converter.wf(),
            position_ok(parent, idx),
        ensures
            final(output)@ == emit_handler(
                old(output)@,
                *self,
                dom_view(**node),
                parent_view(parent),
                idx as int,
                depth as int,
            ),
        decreases dom_view(**node), 2int,
    {
        match self {
            Handler::Paragraph(h) => h.handle(converter, node, parent, idx, output, depth),
            Handler::Header(h) => h.handle(converter, node, parent, idx, output, depth),
            Handler::Emphasis(h) => h.handle(converter, node, parent, idx, output, depth),
            Handler::Bold(h) => h.handle(converter, node, parent, idx, output, depth),
            Handler::StrikeThrough(h) => h.handle(converter, node, parent, idx, output, depth),
            Handler::InlineCode(h) => h.handle(converter, node, parent, idx, output, depth),
            Handler::Mark(h) => h.handle(converter, node, parent, idx, output, depth),
            Handler::Underline(h) => h.handle(converter, node, parent, idx, output, depth),
            Handler::Link(h) => h.handle(converter, node, parent, idx, output, depth),
            Handler::Span(h) => h.handle(converter, node, parent, idx, output, depth),
            Handler::Blockquote(h) => h.handle(converter, node, parent, idx, output, depth),
            Handler::CodeBlock(h) => h.handle(converter, node, parent, idx, output, depth),
            Handler::HorizontalRule(h) => h.handle(converter, node, parent, idx, output, depth),
            Handler::UnorderedList(h) => h.handle(converter, node, parent, idx, output, depth),
            Handler::OrderedList(h) => h.handle(converter, node, parent, idx, output, depth),
            Handler::ListItem(h) => h.handle(converter, node, parent, idx, output, depth),
        }
    }
}

/// Converts a document tree into Markdown, dispatching each element to the
/// handler registered for its tag.
pub struct MarkdownConverter {
    handlers: Vec<(String, Handler)>,
}

impl MarkdownConverter {
    /// The handler table holds exactly the registry, in order.
    pub closed spec fn wf(&self) -> bool {
        self.handlers@.map_values(|e: (String, Handler)| (e.0@, e.1)) == registry()
    }

    /// A converter with every supported tag registered.
    pub fn new() -> (r: Self)
        ensures
            r.wf(),
    {
        let mut handlers: Vec<(String, Handler)> = Vec::new();
        handlers.push((String::from_str("p"), Handler::Paragraph(ParagraphHandler)));
        handlers.push((String::from_str("mark"), Handler::Mark(MarkHandler)));
        handlers.push((String::from_str("s"), Handler::StrikeThrough(StrikeThroughHandler)));
        handlers.push((String::from_str("em"), Handler::Emphasis(EmphasisHandler)));
        handlers.push((String::from_str("b"), Handler::Bold(BoldHandler)));
        handlers.push((String::from_str("strong"), Handler::Bold(BoldHandler)));
        handlers.push((String::from_str("u"), Handler::Underline(UnderlineHandler)));
        handlers.push((String::from_str("a"), Handler::Link(LinkHandler)));
        handlers.push((String::from_str("span"), Handler::Span(SpanHandler)));
        handlers.push((String::from_str("blockquote"), Handler::Blockquote(BlockquoteHandler)));
        handlers.push((String::from_str("code"), Handler::InlineCode(InlineCodeHandler)));
        handlers.push((String::from_str("pre"), Handler::CodeBlock(CodeBlockHandler)));
        handlers.push((String::from_str("hr"), Handler::HorizontalRule(HorizontalRuleHandler)));
        handlers.push((String::from_str("ul"), Handler::UnorderedList(UnorderedListHandler)));
        handlers.push((String::from_str("ol"), Handler::OrderedList(OrderedListHandler)));
        handlers.push((String::from_str("li"), Handler::ListItem(ListItemHandler)));
        handlers.push((String::from_str("h1"), Handler::Header(HeaderHandler::level(1))));
        handlers.push((String::from_str("h2"), Handler::Header(HeaderHandler::level(2))));
        handlers.push((String::from_str("h3"), Handler::Header(HeaderHandler::level(3))));
        handlers.push((String::from_str("h4"), Handler::Header(HeaderHandler::level(4))));
        handlers.push((String::from_str("h5"), Handler::Header(HeaderHandler::level(5))));
        handlers.push((String::from_str("h6"), Handler::Header(HeaderHandler::level(6))));
        let r = MarkdownConverter { handlers };
        assert(r.handlers@.map_values(|e: (String, Handler)| (e.0@, e.1)) =~= registry());
        r
    }

    /// The handler registered for `tag`.
    fn lookup(&self, tag: &String) -> (r: Option<Handler>)
        requires
            self.wf(),
        ensures
            r == handler_for(tag@),
    {
        let ghost table = registry();
        assert(table.skip(0) =~= table);
        let mut i: usize = 0;
        while i < self.handlers.len()
            invariant
                self.wf(),
                table == registry(),
                i <= self.handlers@.len(),
                find_handler(table, tag@) == find_handler(table.skip(i as int), tag@),
            decreases self.handlers@.len() - i,
        {
            assert(table.skip(i as int).drop_first() =~= table.skip(i + 1));
            assert(table[i as int] == (self.handlers@[i as int].0@, self.handlers@[i as int].1));
            if self.handlers[i].0 == *tag {
                return Some(self.handlers[i].1);
            }
            i += 1;
        }
        assert(table.skip(i as int).len() == 0);
        None
    }

    /// Converts an HTML text into Markdown: parses it, renders the document
    /// and trims the result.
    pub fn convert_to_markdown(&self, html: &str) -> (r: String)
        requires
            self.wf(),
        ensures
            r@ == markdown_of(html@),
    {
        let root = parse_html(html);
        let mut markdown = String::new();
        self.traverse_dom(&root, None, 0, &mut markdown, 0);
        trim_str(markdown.as_str())
    }

    /// Renders `node`, child number `idx` of `parent`: a text verbatim unless
    /// it is all whitespace, an element through its handler or else as its
    /// children alone, any other node as its children.
    pub fn traverse_dom(
        &self,
        node: &Handle,
        parent: Option<&Handle>,
        idx: usize,
        output: &mut String,
        depth: usize,
    )
        requires
            self.wf(),
            position_ok(parent, idx),
        ensures
            final(output)@ == emit(
                old(output)@,
                dom_view(**node),
                parent_view(parent),
                idx as int,
                depth as int,
            ),
        decreases dom_view(**node), 3int,
    {
        match node_info(node) {
            NodeInfo::Text { content } => {
                let t = trim_str(content.as_str());
                if !t.as_str().is_empty() {
                    output.append(content.as_str());
                }
            },
            NodeInfo::Element { tag, .. } => match self.lookup(&tag) {
                Some(h) => h.handle(self, node, parent, idx, output, depth),
                None => self.walk_children(node, output, depth),
            },
            _ => self.walk_children(node, output, depth),
        }
    }

    /// Renders the children of `node` in order, one level deeper.
    pub fn walk_children(&self, node: &Handle, output: &mut String, depth: usize)
        requires
            self.wf(),
        ensures
            final(output)@ == emit_walk(
                old(output)@,
                dom_view(**node),
                dom_view(**node).children.len() as int,
                depth as int,
            ),
        decreases dom_view(**node), 0int,
    {
        let children = node_children(node);
        let ghost n = node_view(node);
        let ghost start = output@;
        let d = child_depth(depth);
        let mut i: usize = 0;
        while i < children.len()
            invariant
                self.wf(),
                n == dom_view(**node),
                children@.len() == n.children.len(),
                forall|j: int| 0 <= j < children@.len() ==> dom_view(*#[trigger] children@[j]) == n.children[j],
                i <= children@.len(),
                d as int == deeper(depth as int),
                output@ == emit_walk(start, n, i as int, depth as int),
            decreases children@.len() - i,
        {
            assert(dom_view(*children@[i as int]) == n.children[i as int]);
            self.traverse_dom(&children[i], Some(node), i, output, d);
            i += 1;
        }
    }
}

/// Converts an HTML text into Markdown with a fresh converter.
pub fn convert_to_markdown(html: &str) -> (r: String)
    ensures
        r@ == markdown_of(html@),
{
    MarkdownConverter::new().convert_to_markdown(html)
}

} // verus!
