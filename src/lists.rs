//! Lists and list items.

use crate::converter::{Handler, MarkdownConverter};
use crate::dom::{dom_view, has_tag, node_children, node_view, parent_view, position_ok, Handle};
use crate::model::{count_items, emit_handler, indent_units, item_marker, LIST_BASELINE};
use crate::text::{repeat, usize_to_string};
use vstd::prelude::*;
use vstd::string::*;

verus! {

/// `<ul>`: the items between two newlines; `ListItemHandler` writes the markers.
#[derive(Clone, Copy)]
pub struct UnorderedListHandler;

impl UnorderedListHandler {
    pub fn handle(
        &self,
        converter: &MarkdownConverter,
        node: &Handle,
        parent: Option<&Handle>,
        idx: usize,
        output: &mut String,
        depth: usize,
    )
        requires
            converter.wf(),
            position_ok(parent, idx),
        ensures
            final(output)@ == emit_handler(
                old(output)@,
                Handler::UnorderedList(*self),
                dom_view(**node),
                parent_view(parent),
                idx as int,
                depth as int,
            ),
        decreases dom_view(**node), 1int,
    {
        output.append("\n");
        converter.walk_children(node, output, depth);
        output.append("\n");
    }
}

/// `<ol>`: the items between two newlines; `ListItemHandler` numbers them.
#[derive(Clone, Copy)]
pub struct OrderedListHandler;

impl OrderedListHandler {
    pub fn handle(
        &self,
        converter: &MarkdownConverter,
        node: &Handle,
        parent: Option<&Handle>,
        idx: usize,
        output: &mut String,
        depth: usize,
    )
        requires
            converter.wf(),
            position_ok(parent, idx),
        ensures
            final(output)@ == emit_handler(
                old(output)@,
                Handler::OrderedList(*self),
                dom_view(**node),
                parent_view(parent),
                idx as int,
                depth as int,
            ),
        decreases dom_view(**node), 1int,
    {
        output.append("\n");
        converter.walk_children(node, output, depth);
        output.append("\n");
    }
}

/// `<li>`: indentation for the nesting depth, the marker, the content and a
/// newline.
#[derive(Clone, Copy)]
pub struct ListItemHandler;

/// The number of list items among the first `k` children of `p`.
fn items_before(p: &Handle, k: usize) -> (r: usize)
    requires
        k <= dom_view(**p).children.len(),
    ensures
        r as int == count_items(dom_view(**p).children, k as int),
        r <= k,
        k < dom_view(**p).children.len() ==> r < usize::MAX,
{
    let children = node_children(p);
    let total = children.len();
    let ghost sibs = node_view(p).children;
    let mut count: usize = 0;
    let mut j: usize = 0;
    while j < k
        invariant
            children@.len() == sibs.len(),
            forall|i: int| 0 <= i < children@.len() ==> dom_view(*#[trigger] children@[i]) == sibs[i],
            k <= sibs.len(),
            j <= k,
            count <= j,
            count as int == count_items(sibs, j as int),
        decreases k - j,
    {
        assert(dom_view(*children@[j as int]) == sibs[j as int]);
        if has_tag(&children[j], "li") {
            count += 1;
        }
        j += 1;
    }
    count
}

impl ListItemHandler {
    pub fn handle(
        &self,
        converter: &MarkdownConverter,
        node: &Handle,
        parent: Option<&Handle>,
        idx: usize,
        output: &mut String,
        depth: usize,
    )
        requires
            converter.wf(),
            position_ok(parent, idx),
        ensures
            final(output)@ == emit_handler(
                old(output)@,
                Handler::ListItem(*self),
                dom_view(**node),
                parent_view(parent),
                idx as int,
                depth as int,
            ),
        decreases dom_view(**node), 1int,
    {
        let units = if depth > LIST_BASELINE {
            depth - LIST_BASELINE
        } else {
            0
        };
        let ghost start = output@;
        let mut k: usize = 0;
        while k < units
            invariant
                k <= units,
                units as nat == indent_units(depth as int),
                output@ == start + repeat("  "@, k as nat),
            decreases units - k,
        {
            output.append("  ");
            k += 1;
        }
        let ghost indented = output@;
        let mut numbered = false;
        if let Some(p) = parent {
            if has_tag(p, "ol") {
                let n = items_before(p, idx) + 1;
                let number = usize_to_string(n);
                output.append(number.as_str());
                output.append(". ");
                numbered = true;
            }
        }
        if !numbered {
            output.append("- ");
        }
        assert(output@ =~= indented + item_marker(parent_view(parent), idx as int));
        converter.walk_children(node, output, depth);
        output.append("\n");
    }
}

} // verus!
