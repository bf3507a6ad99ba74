//! Inline style attributes: `property: value` declarations separated by `;`,
//! and the emphasis markers that they stand for.

use crate::text::{cut_at, pair_views, split_char, split_on, split_once_char, str_eq, trim_str, trim_ws};
use vstd::prelude::*;
use vstd::string::*;

verus! {

/// One `property: value` declaration.
pub struct Declaration {
    pub property: String,
    pub value: String,
}

impl View for Declaration {
    type V = (Seq<char>, Seq<char>);

    open spec fn view(&self) -> (Seq<char>, Seq<char>) {
        (self.property@, self.value@)
    }
}

/// The declarations of a style attribute in their order of appearance. A later
/// declaration of a property overrides an earlier one.
pub struct StyleMap {
    pub decls: Vec<Declaration>,
}

impl View for StyleMap {
    type V = Seq<(Seq<char>, Seq<char>)>;

    open spec fn view(&self) -> Seq<(Seq<char>, Seq<char>)> {
        self.decls@.map_values(|d: Declaration| d@)
    }
}

/// The declarations that the pieces hold: each piece is cut at its first `:`,
/// both sides trimmed; a piece without `:` declares nothing.
pub open spec fn decls_of(pieces: Seq<Seq<char>>) -> Seq<(Seq<char>, Seq<char>)>
    decreases pieces.len(),
{
    if pieces.len() == 0 {
        Seq::empty()
    } else {
        let d = decls_of(pieces.drop_last());
        match cut_at(pieces.last(), ':') {
            Some(p) => d.push((trim_ws(p.0), trim_ws(p.1))),
            None => d,
        }
    }
}

/// The declarations of a style attribute value.
pub open spec fn parsed_styles(s: Seq<char>) -> Seq<(Seq<char>, Seq<char>)> {
    decls_of(split_on(s, ';'))
}

/// The value of the last declaration of `key`, if any.
pub open spec fn style_value(d: Seq<(Seq<char>, Seq<char>)>, key: Seq<char>) -> Option<Seq<char>>
    decreases d.len(),
{
    if d.len() == 0 {
        None
    } else if d.last().0 == key {
        Some(d.last().1)
    } else {
        style_value(d.drop_last(), key)
    }
}

/// The markers that the declarations call for: bold before italic before
/// underline, never more than one.
pub open spec fn style_markers(d: Seq<(Seq<char>, Seq<char>)>) -> Option<(Seq<char>, Seq<char>)> {
    if style_value(d, "font-weight"@) == Some("bold"@) || style_value(d, "font-weight"@) == Some(
        "700"@,
    ) {
        Some(("**"@, "**"@))
    } else if style_value(d, "font-style"@) == Some("italic"@) {
        Some(("*"@, "*"@))
    } else if style_value(d, "text-decoration"@) == Some("underline"@) {
        Some(("__"@, "__"@))
    } else {
        None
    }
}

/// The view of an optional string.
pub open spec fn opt_view(o: Option<String>) -> Option<Seq<char>> {
    match o {
        Some(s) => Some(s@),
        None => None,
    }
}

impl StyleMap {
    /// The value of `key`: that of its last declaration.
    pub fn get(&self, key: &str) -> (r: Option<String>)
        ensures
            opt_view(r) == style_value(self@, key@),
    {
        let mut i = self.decls.len();
        assert(self@.take(i as int) =~= self@);
        while i > 0
            invariant
                i <= self.decls@.len(),
                style_value(self@, key@) == style_value(self@.take(i as int), key@),
            decreases i,
        {
            let d = &self.decls[i - 1];
            assert(self@.take(i as int).drop_last() =~= self@.take(i - 1));
            if str_eq(d.property.as_str(), key) {
                return Some(d.value.clone());
            }
            i -= 1;
        }
        None
    }
}

/// Reads style attributes.
pub struct StyleParser;

impl StyleParser {
    /// Splits `style_str` at `;` and each piece at its first `:`, trimming
    /// property and value; pieces without `:` are skipped.
    pub fn parse_styles(style_str: &str) -> (r: StyleMap)
        ensures
            r@ == parsed_styles(style_str@),
    {
        let pieces = split_char(style_str, ';');
        let ghost all = split_on(style_str@, ';');
        let mut decls: Vec<Declaration> = Vec::new();
        let mut i: usize = 0;
        while i < pieces.len()
            invariant
                pieces@.len() == all.len(),
                forall|j: int| 0 <= j < pieces@.len() ==> #[trigger] pieces@[j]@ == all[j],
                i <= pieces@.len(),
                decls@.map_values(|d: Declaration| d@) == decls_of(all.take(i as int)),
            decreases pieces@.len() - i,
        {
            assert(all.take(i + 1).drop_last() =~= all.take(i as int));
            assert(all.take(i + 1).last() == pieces@[i as int]@);
            match split_once_char(pieces[i].as_str(), ':') {
                Some((k, v)) => {
                    let d = Declaration { property: trim_str(k.as_str()), value: trim_str(v.as_str()) };
                    let ghost before = decls@;
                    decls.push(d);
                    assert(decls@.map_values(|d: Declaration| d@) =~= before.map_values(
                        |d: Declaration| d@,
                    ).push(d@));
                },
                None => {},
            }
            i += 1;
        }
        assert(all.take(pieces@.len() as int) =~= all);
        StyleMap { decls }
    }

    /// The markers that a span with these styles is wrapped in: `**` for a
    /// bold weight (`bold` or `700`), else `*` for italic, else `__` for
    /// underline, else none.
    pub fn get_markdown_style(styles: &StyleMap) -> (r: Option<(String, String)>)
        ensures
            pair_views(r) == style_markers(styles@),
    {
        if let Some(w) = styles.get("font-weight") {
            if str_eq(w.as_str(), "bold") || str_eq(w.as_str(), "700") {
                return Some((String::from_str("**"), String::from_str("**")));
            }
        }
        if let Some(s) = styles.get("font-style") {
            if str_eq(s.as_str(), "italic") {
                return Some((String::from_str("*"), String::from_str("*")));
            }
        }
        if let Some(d) = styles.get("text-decoration") {
            if str_eq(d.as_str(), "underline") {
                return Some((String::from_str("__"), String::from_str("__")));
            }
        }
        None
    }
}

} // verus!
