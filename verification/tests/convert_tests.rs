use md2notion::convert;
use md2notion::{Annotations, Block, RichText, TextColor};

fn s(x: &str) -> String {
    x.to_string()
}

fn plain() -> Annotations {
    Annotations {
        bold: false,
        italic: false,
        strikethrough: false,
        underline: false,
        code: false,
        color: TextColor::Default,
    }
}

fn styled(content: &str, style: Annotations) -> RichText {
    RichText::Text {
        content: s(content),
        link: None,
        annotations: Some(style),
        plain_text: Some(s(content)),
        href: None,
    }
}

fn linked(content: &str, url: &str) -> RichText {
    RichText::Text {
        content: s(content),
        link: Some(s(url)),
        annotations: None,
        plain_text: Some(s(content)),
        href: Some(s(url)),
    }
}

fn code_block(value: &str, language: Option<&str>) -> Block {
    Block::Code {
        caption: vec![],
        rich_text: vec![RichText::Text {
            content: s(value),
            link: None,
            annotations: None,
            plain_text: Some(s(value)),
            href: None,
        }],
        language: language.map(s),
    }
}

#[test]
fn empty_document_has_no_blocks() {
    assert_eq!(convert(""), vec![]);
}

#[test]
fn heading_levels() {
    let blocks = convert("# One\n\n## Two\n\n#### Four\n");
    assert_eq!(
        blocks,
        vec![
            Block::Heading1 { rich_text: vec![styled("One", plain())], color: None, is_toggleable: None },
            Block::Heading2 { rich_text: vec![styled("Two", plain())], color: None, is_toggleable: None },
            Block::Heading3 { rich_text: vec![styled("Four", plain())], color: None, is_toggleable: None },
        ]
    );
}

#[test]
fn paragraph_with_styles() {
    let blocks = convert("a **b** *c* ~~d~~ `e`");
    let bold = Annotations { bold: true, ..plain() };
    let italic = Annotations { italic: true, ..plain() };
    let strike = Annotations { strikethrough: true, ..plain() };
    let code = Annotations { code: true, ..plain() };
    assert_eq!(
        blocks,
        vec![Block::Paragraph {
            rich_text: vec![
                styled("a ", plain()),
                styled("b", bold),
                styled(" ", plain()),
                styled("c", italic),
                styled(" ", plain()),
                styled("d", strike),
                styled(" ", plain()),
                styled("e", code),
            ],
            color: Some(TextColor::Default),
        }]
    );
}

#[test]
fn inline_link_keeps_its_url() {
    let blocks = convert("[site](https://example.com)");
    assert_eq!(
        blocks,
        vec![Block::Paragraph {
            rich_text: vec![linked("site", "https://example.com")],
            color: Some(TextColor::Default),
        }]
    );
}

#[test]
fn link_reference_resolves_through_a_later_definition() {
    let blocks = convert("[text][ref]\n\n[ref]: https://example.org\n");
    assert_eq!(
        blocks,
        vec![Block::Paragraph {
            rich_text: vec![linked("text", "https://example.org")],
            color: Some(TextColor::Default),
        }]
    );
}

#[test]
fn code_fence_language_must_be_a_notion_language_in_json() {
    // The info string is read as JSON: a bare word is not a language.
    assert_eq!(convert("```rust\nfn main() {}\n```\n"), vec![code_block("fn main() {}", None)]);
    assert_eq!(
        convert("```\"rust\"\nfn main() {}\n```\n"),
        vec![code_block("fn main() {}", Some("\"rust\""))]
    );
    assert_eq!(convert("```\"klingon\"\nx\n```\n"), vec![code_block("x", None)]);
    assert_eq!(convert("```\nplain\n```\n"), vec![code_block("plain", None)]);
}

#[test]
fn html_becomes_plain_code() {
    assert_eq!(convert("<div>hi</div>\n"), vec![code_block("<div>hi</div>", None)]);
}

#[test]
fn thematic_break_becomes_divider() {
    assert_eq!(convert("***\n"), vec![Block::Divider]);
}

#[test]
fn blockquote_holds_its_inline_children_only() {
    // A quote's children are paragraphs, which are not inline text.
    assert_eq!(
        convert("> quoted\n"),
        vec![Block::Quote { rich_text: vec![RichText::Empty], color: TextColor::Default }]
    );
}

#[test]
fn bulleted_list_gives_one_block_per_item() {
    let para = |t: &str| Block::Paragraph {
        rich_text: vec![styled(t, plain())],
        color: Some(TextColor::Default),
    };
    assert_eq!(
        convert("- a\n- b\n"),
        vec![
            Block::BulletedListItem {
                rich_text: vec![RichText::Empty],
                color: TextColor::Default,
                children: vec![para("a")],
            },
            Block::BulletedListItem {
                rich_text: vec![RichText::Empty],
                color: TextColor::Default,
                children: vec![para("b")],
            },
        ]
    );
}

#[test]
fn ordered_list_gives_numbered_items() {
    let blocks = convert("3. x\n4. y\n5. z\n");
    assert_eq!(blocks.len(), 3);
    for b in &blocks {
        assert!(matches!(b, Block::NumberedListItem { .. }));
    }
}

#[test]
fn table_width_is_widest_row() {
    let blocks = convert("| a | b |\n| - | - |\n| 1 | 2 |\n");
    let cell = |t: &str| vec![styled(t, plain())];
    assert_eq!(
        blocks,
        vec![Block::Table {
            table_width: 2,
            has_column_header: false,
            has_row_header: true,
            children: vec![
                Block::TableRow { cells: vec![cell("a"), cell("b")] },
                Block::TableRow { cells: vec![cell("1"), cell("2")] },
            ],
        }]
    );
}

#[test]
fn footnote_definition_becomes_callout() {
    let blocks = convert("see[^n]\n\n[^n]: the note\n");
    assert_eq!(blocks.len(), 2);
    let gray = Annotations { color: TextColor::Gray, ..plain() };
    assert_eq!(
        blocks[0],
        Block::Paragraph {
            rich_text: vec![styled("see", plain()), styled("n", gray)],
            color: Some(TextColor::Default),
        }
    );
    assert_eq!(
        blocks[1],
        Block::Callout {
            rich_text: vec![RichText::Empty],
            icon: Some(s("\u{1F5D2}\u{FE0F}")),
            color: TextColor::Default,
        }
    );
}

fn check_runs(runs: &[RichText]) {
    for r in runs {
        match r {
            RichText::Text { content, link, plain_text, href, .. } => {
                assert_eq!(plain_text.as_ref(), Some(content));
                assert_eq!(link, href);
            }
            RichText::Equation { expression, plain_text, href, .. } => {
                assert_eq!(expression, plain_text);
                assert!(href.is_none());
            }
            RichText::Empty => {}
        }
    }
}

fn check_blocks(blocks: &[Block]) {
    for b in blocks {
        match b {
            Block::Quote { rich_text, .. }
            | Block::Callout { rich_text, .. }
            | Block::Paragraph { rich_text, .. }
            | Block::Heading1 { rich_text, .. }
            | Block::Heading2 { rich_text, .. }
            | Block::Heading3 { rich_text, .. } => check_runs(rich_text),
            Block::Code { caption, rich_text, .. } => {
                check_runs(caption);
                check_runs(rich_text);
            }
            Block::Table { children, .. } => check_blocks(children),
            Block::TableRow { cells } => cells.iter().for_each(|c| check_runs(c)),
            Block::NumberedListItem { rich_text, children, .. }
            | Block::BulletedListItem { rich_text, children, .. } => {
                check_runs(rich_text);
                check_blocks(children);
            }
            _ => {}
        }
    }
}

#[test]
fn rendered_rich_text_is_consistent_on_a_mixed_document() {
    let doc = "# Title\n\nSome *text* with [a link][l] and `code`.\n\n> quote\n\n\
               - item one\n- item [two](l)\n\n| h | i |\n|---|---|\n| **x** | ~~y~~ |\n\n\
               [l]: https://example.net\n";
    let blocks = convert(doc);
    assert_eq!(blocks.len(), 6);
    check_blocks(&blocks);
}

#[test]
fn list_item_reference_resolves_through_document_definition() {
    let blocks = convert("[a]: https://a.com\n\n- [x][a]\n");
    assert_eq!(
        blocks,
        vec![Block::BulletedListItem {
            rich_text: vec![RichText::Empty],
            color: TextColor::Default,
            children: vec![Block::Paragraph {
                rich_text: vec![linked("x", "https://a.com")],
                color: Some(TextColor::Default),
            }],
        }]
    );
}

#[test]
fn reference_after_a_table_still_resolves() {
    let blocks = convert("| a |\n| - |\n| 1 |\n\n[y][d]\n\n[d]: https://d.org\n");
    assert_eq!(blocks.len(), 2);
    assert_eq!(
        blocks[1],
        Block::Paragraph { rich_text: vec![linked("y", "https://d.org")], color: Some(TextColor::Default) }
    );
}
