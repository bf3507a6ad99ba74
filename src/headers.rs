//! Headings.

use crate::converter::{Handler, MarkdownConverter};
use crate::dom::{dom_view, parent_view, position_ok, Handle};
use crate::model::emit_handler;
use crate::text::repeat;
use vstd::prelude::*;
use vstd::string::*;

verus! {

/// `<h1>` to `<h6>`: a new line, `level` hashes and a space, then the content.
#[derive(Clone, Copy)]
pub struct HeaderHandler {
    pub level: usize,
}

impl HeaderHandler {
    /// The handler of headings of the given level.
    pub fn level(level: usize) -> (r: Self)
        ensures
            r.level == level,
    {
        HeaderHandler { level }
    }

    pub fn handle(
        &self,
        converter: &MarkdownConverter,
        node: &Handle,
        parent: Option<&Handle>,
        idx: usize,
        output: &mut String,
        depth: usize,
    )
        requires
            converter.wf(),
            position_ok(parent, idx),
        ensures
            final(output)@ == emit_handler(
                old(output)@,
                Handler::Header(*self),
                dom_view(**node),
                parent_view(parent),
                idx as int,
                depth as int,
            ),
        decreases dom_view(**node), 1int,
    {
        output.append("\n");
        let ghost start = output@;
        let mut k: usize = 0;
        while k < self.level
            invariant
                k <= self.level,
                output@ == start + repeat("#"@, k as nat),
            decreases self.level - k,
        {
            output.append("#");
            k += 1;
        }
        output.append(" ");
        converter.walk_children(node, output, depth);
    }
}

} // verus!
