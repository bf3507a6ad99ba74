use markdown_engine::{convert_to_markdown, MarkdownConverter};
use markdown_engine::headers::HeaderHandler;
use markdown_engine::style::StyleParser;

#[test]
fn emphasis_becomes_single_stars() {
    assert_eq!(convert_to_markdown("<em>x</em>"), "*x*");
}

#[test]
fn strong_and_b_become_double_stars() {
    assert_eq!(convert_to_markdown("<strong>x</strong>"), "**x**");
    assert_eq!(convert_to_markdown("<b>x</b>"), "**x**");
}

#[test]
fn mark_becomes_equals() {
    assert_eq!(convert_to_markdown("<mark>x</mark>"), "==x==");
}

#[test]
fn strike_becomes_tildes() {
    assert_eq!(convert_to_markdown("<s>x</s>"), "~~x~~");
}

#[test]
fn inline_code_becomes_backticks() {
    assert_eq!(convert_to_markdown("<code>x</code>"), "`x`");
}

#[test]
fn underline_is_kept_as_markup() {
    assert_eq!(convert_to_markdown("<u>x</u>"), "<u>x</u>");
}

#[test]
fn headings_get_hashes() {
    assert_eq!(convert_to_markdown("<h1>A</h1>"), "# A");
    assert_eq!(convert_to_markdown("<h3>A</h3>"), "### A");
    assert_eq!(convert_to_markdown("<h6>A</h6>"), "###### A");
}

#[test]
fn links_with_and_without_href() {
    assert_eq!(convert_to_markdown("<a href=\"https://e.com\">t</a>"), "[t](https://e.com)");
    assert_eq!(convert_to_markdown("<a>t</a>"), "[t]()");
}

#[test]
fn unordered_list_items_start_with_dash() {
    let md = convert_to_markdown("<ul><li>a</li><li>b</li></ul>");
    assert_eq!(md, "- a\n- b");
    for line in md.lines() {
        assert!(line.starts_with("- "));
    }
}

#[test]
fn ordered_list_is_numbered_by_position() {
    assert_eq!(convert_to_markdown("<ol><li>a</li><li>b</li></ol>"), "1. a\n2. b");
    assert_eq!(convert_to_markdown("<ol><li>b</li><li>a</li></ol>"), "1. b\n2. a");
}

#[test]
fn ordered_list_ignores_start_attribute() {
    assert_eq!(convert_to_markdown("<ol start=\"5\"><li>a</li><li>b</li></ol>"), "1. a\n2. b");
}

#[test]
fn ordered_list_counts_past_nine() {
    let mut html = String::from("<ol>");
    for i in 0..10 {
        html.push_str(&format!("<li>i{}</li>", i));
    }
    html.push_str("</ol>");
    let md = convert_to_markdown(&html);
    assert!(md.ends_with("10. i9"));
}

#[test]
fn nested_list_is_indented() {
    assert_eq!(convert_to_markdown("<ul><li>a<ul><li>b</li></ul></li></ul>"), "- a\n    - b");
}

#[test]
fn blockquote_prefixes_every_line() {
    let md = convert_to_markdown("<blockquote><p>a</p><p>b</p></blockquote>");
    assert_eq!(md, "> a\n> \n> b");
    for line in md.lines() {
        assert!(line.starts_with("> "));
    }
}

#[test]
fn blockquote_after_text_starts_a_new_line() {
    assert_eq!(convert_to_markdown("x<blockquote>q</blockquote>"), "x\n> q");
}

#[test]
fn fenced_code_names_its_language() {
    assert_eq!(
        convert_to_markdown("<pre><code class=\"language-rust\">fn f(){}</code></pre>"),
        "```rust\nfn f(){}\n```"
    );
}

#[test]
fn fenced_code_without_language() {
    assert_eq!(convert_to_markdown("<pre><code>x</code></pre>"), "```\nx\n```");
}

#[test]
fn pre_without_code_child_emits_nothing() {
    assert_eq!(convert_to_markdown("<pre></pre>"), "");
}

#[test]
fn paragraph_in_list_item_has_no_blank_lines() {
    assert_eq!(convert_to_markdown("<ul><li><p>a</p></li></ul>"), "- a");
}

#[test]
fn paragraph_outside_list_is_framed_by_newlines() {
    assert_eq!(convert_to_markdown("x<p>a</p>y"), "x\na\ny");
    assert_eq!(convert_to_markdown("<p>a</p><p>b</p>"), "a\n\nb");
}

#[test]
fn span_bold_wins_over_italic() {
    assert_eq!(
        convert_to_markdown("<span style=\"font-weight:bold;font-style:italic\">x</span>"),
        "**x**"
    );
    assert_eq!(convert_to_markdown("<span style=\"font-weight: 700\">x</span>"), "**x**");
}

#[test]
fn span_italic_and_underline() {
    assert_eq!(convert_to_markdown("<span style=\"font-style: italic\">x</span>"), "*x*");
    assert_eq!(
        convert_to_markdown("<span style=\"text-decoration:underline\">x</span>"),
        "__x__"
    );
}

#[test]
fn span_without_style_is_plain() {
    assert_eq!(convert_to_markdown("<span>x</span>"), "x");
    assert_eq!(convert_to_markdown("<span style=\"color: red\">x</span>"), "x");
}

#[test]
fn horizontal_rule() {
    assert_eq!(convert_to_markdown("<hr>"), "---");
}

#[test]
fn unknown_tag_passes_text_through() {
    assert_eq!(convert_to_markdown("<custom>x</custom>"), "x");
    assert_eq!(convert_to_markdown("<div><section>x</section></div>"), "x");
}

#[test]
fn plain_text_round_trips() {
    assert_eq!(convert_to_markdown("hello world"), "hello world");
    assert_eq!(convert_to_markdown("  plain text \n"), "plain text");
}

#[test]
fn empty_input_gives_empty_output() {
    assert_eq!(convert_to_markdown(""), "");
}

#[test]
fn whitespace_only_text_is_dropped() {
    assert_eq!(convert_to_markdown("<em> </em>"), "**");
}

#[test]
fn doctype_is_dropped() {
    assert_eq!(convert_to_markdown("<!DOCTYPE html><p>a</p>"), "a");
}

#[test]
fn converter_value_converts() {
    let c = MarkdownConverter::new();
    assert_eq!(c.convert_to_markdown("<em>x</em>"), "*x*");
    assert_eq!(c.convert_to_markdown("<h2>T</h2>"), "## T");
}

#[test]
fn header_level_is_kept() {
    assert_eq!(HeaderHandler::level(3).level, 3);
}

#[test]
fn style_parsing_trims_and_skips_pieces_without_colon() {
    let s = StyleParser::parse_styles(" font-weight : bold ;junk; color:red;;");
    assert_eq!(s.decls.len(), 2);
    assert_eq!(s.decls[0].property, "font-weight");
    assert_eq!(s.decls[0].value, "bold");
    assert_eq!(s.decls[1].property, "color");
    assert_eq!(s.decls[1].value, "red");
    assert_eq!(s.get("color"), Some("red".to_string()));
    assert_eq!(s.get("margin"), None);
}

#[test]
fn later_declaration_overrides_earlier() {
    let s = StyleParser::parse_styles("font-weight:bold;font-weight:normal");
    assert_eq!(s.get("font-weight"), Some("normal".to_string()));
    assert_eq!(StyleParser::get_markdown_style(&s), None);
}

#[test]
fn markdown_style_precedence() {
    let s = StyleParser::parse_styles("text-decoration:underline;font-style:italic");
    assert_eq!(StyleParser::get_markdown_style(&s), Some(("*".to_string(), "*".to_string())));
    let s = StyleParser::parse_styles("font-style:italic;font-weight:700");
    assert_eq!(StyleParser::get_markdown_style(&s), Some(("**".to_string(), "**".to_string())));
}
