use md2notion::{Align, Annotations, Block, MdNode, RichText, State, TextColor};

fn s(x: &str) -> String {
    x.to_string()
}

fn text(x: &str) -> MdNode {
    MdNode::Text { value: s(x) }
}

fn plain() -> Annotations {
    Annotations {
        bold: false,
        italic: false,
        strikethrough: false,
        underline: false,
        code: false,
        color: TextColor::Default,
    }
}

fn styled(content: &str, style: Annotations) -> RichText {
    RichText::Text {
        content: s(content),
        link: None,
        annotations: Some(style),
        plain_text: Some(s(content)),
        href: None,
    }
}

fn linked(content: &str, url: &str) -> RichText {
    RichText::Text {
        content: s(content),
        link: Some(s(url)),
        annotations: None,
        plain_text: Some(s(content)),
        href: Some(s(url)),
    }
}

fn render(children: Vec<MdNode>) -> Vec<Block> {
    State::new().render(MdNode::Root { children })
}

fn paragraph(rich_text: Vec<RichText>) -> Block {
    Block::Paragraph { rich_text, color: Some(TextColor::Default) }
}

#[test]
fn node_without_children_renders_nothing() {
    assert_eq!(State::new().render(text("x")), vec![]);
}

#[test]
fn render_uses_children_of_any_parent() {
    // A paragraph given as the tree: its children are rendered as blocks,
    // and text is not a block.
    let tree = MdNode::Paragraph { children: vec![text("x"), MdNode::ThematicBreak] };
    assert_eq!(State::new().render(tree), vec![Block::Divider]);
}

#[test]
fn math_becomes_equations() {
    let blocks = render(vec![
        MdNode::Math { value: s("e=mc^2") },
        MdNode::Paragraph { children: vec![MdNode::InlineMath { value: s("x") }] },
    ]);
    assert_eq!(
        blocks,
        vec![
            Block::Equation { expression: s("e=mc^2") },
            paragraph(vec![RichText::Equation {
                expression: s("x"),
                annotations: Annotations { code: true, ..plain() },
                plain_text: s("x"),
                href: None,
            }]),
        ]
    );
}

#[test]
fn image_and_image_reference() {
    let blocks = render(vec![
        MdNode::ImageReference { identifier: s("logo") },
        MdNode::Image { alt: s("logo"), url: s("https://img/logo.png") },
        MdNode::ImageReference { identifier: s("missing") },
    ]);
    assert_eq!(
        blocks,
        vec![
            Block::Image { url: s("https://img/logo.png") },
            Block::Image { url: s("https://img/logo.png") },
            Block::Empty,
        ]
    );
}

#[test]
fn later_definition_replaces_earlier() {
    let blocks = render(vec![
        MdNode::Paragraph {
            children: vec![MdNode::LinkReference { identifier: s("r"), children: vec![text("t")] }],
        },
        MdNode::Definition { identifier: s("r"), url: s("https://first") },
        MdNode::Definition { identifier: s("r"), url: s("https://second") },
    ]);
    assert_eq!(blocks, vec![paragraph(vec![linked("t", "https://second")])]);
}

#[test]
fn undefined_reference_links_to_its_identifier() {
    let blocks = render(vec![MdNode::Paragraph {
        children: vec![MdNode::LinkReference { identifier: s("nowhere"), children: vec![text("t")] }],
    }]);
    assert_eq!(blocks, vec![paragraph(vec![linked("t", "nowhere")])]);
}

#[test]
fn inline_link_url_is_looked_up_among_definitions() {
    let blocks = render(vec![
        MdNode::Paragraph {
            children: vec![MdNode::Link { url: s("home"), children: vec![text("h")] }],
        },
        MdNode::Definition { identifier: s("home"), url: s("https://home") },
    ]);
    assert_eq!(blocks, vec![paragraph(vec![linked("h", "https://home")])]);
}

#[test]
fn link_text_joins_only_text_children() {
    let blocks = render(vec![MdNode::Paragraph {
        children: vec![MdNode::Link {
            url: s("u"),
            children: vec![text("a"), MdNode::Strong { children: vec![text("zz")] }, text("b")],
        }],
    }]);
    assert_eq!(blocks, vec![paragraph(vec![linked("ab", "u")])]);
}

fn row(n: usize) -> MdNode {
    MdNode::TableRow {
        children: (0..n).map(|i| MdNode::TableCell { children: vec![text(&i.to_string())] }).collect(),
    }
}

#[test]
fn table_width_and_row_header() {
    let blocks = render(vec![MdNode::Table { align: vec![], children: vec![row(1), row(3), row(2)] }]);
    assert_eq!(blocks.len(), 1);
    match &blocks[0] {
        Block::Table { table_width, has_column_header, has_row_header, children } => {
            assert_eq!(*table_width, 3);
            assert!(!*has_column_header);
            assert!(!*has_row_header);
            assert_eq!(children.len(), 3);
        }
        other => panic!("not a table: {:?}", other),
    }
    let blocks = render(vec![MdNode::Table { align: vec![Align::Left], children: vec![] }]);
    assert_eq!(
        blocks,
        vec![Block::Table { table_width: 1, has_column_header: false, has_row_header: true, children: vec![] }]
    );
}

#[test]
fn table_row_skips_non_cells() {
    let blocks = render(vec![MdNode::TableRow {
        children: vec![MdNode::TableCell { children: vec![text("c")] }, text("stray")],
    }]);
    assert_eq!(blocks, vec![Block::TableRow { cells: vec![vec![styled("c", plain())]] }]);
}

#[test]
fn table_keeps_definitions_for_later_siblings() {
    // A table's rows are rendered inside the document's scope, and the scope
    // is the same again for the siblings after the table.
    let reference = || MdNode::Paragraph {
        children: vec![MdNode::LinkReference { identifier: s("r"), children: vec![text("t")] }],
    };
    let blocks = render(vec![
        reference(),
        MdNode::Table { align: vec![], children: vec![] },
        reference(),
        MdNode::Definition { identifier: s("r"), url: s("https://r") },
    ]);
    assert_eq!(blocks.len(), 3);
    assert_eq!(blocks[0], paragraph(vec![linked("t", "https://r")]));
    assert_eq!(blocks[2], paragraph(vec![linked("t", "https://r")]));
}

#[test]
fn list_items_and_their_text() {
    let item = |t: &str| MdNode::ListItem { children: vec![text(t)] };
    let bulleted = render(vec![MdNode::List { ordered: false, start: None, children: vec![item("a")] }]);
    assert_eq!(
        bulleted,
        vec![Block::BulletedListItem {
            rich_text: vec![styled("a", plain())],
            color: TextColor::Default,
            children: vec![],
        }]
    );
    let ordered = render(vec![MdNode::List { ordered: true, start: Some(7), children: vec![item("a"), item("b")] }]);
    assert_eq!(
        ordered,
        vec![
            Block::NumberedListItem {
                rich_text: vec![styled("a", plain())],
                color: TextColor::Default,
                children: vec![],
            },
            Block::NumberedListItem {
                rich_text: vec![styled("b", plain())],
                color: TextColor::Default,
                children: vec![],
            },
        ]
    );
}

#[test]
fn list_item_outside_a_list_is_bulleted() {
    let blocks = render(vec![MdNode::ListItem { children: vec![] }]);
    assert_eq!(
        blocks,
        vec![Block::BulletedListItem { rich_text: vec![], color: TextColor::Default, children: vec![] }]
    );
}

#[test]
fn numbered_item_text_sees_its_own_definitions() {
    // An ordered item renders its children first, so its own text is taken
    // with the definitions among its children in scope; a bulleted item takes
    // its text before, in the scope it stands in.
    let children = || {
        vec![
            MdNode::LinkReference { identifier: s("d"), children: vec![text("x")] },
            MdNode::Definition { identifier: s("d"), url: s("https://d") },
        ]
    };
    let ordered = render(vec![MdNode::List {
        ordered: true,
        start: None,
        children: vec![MdNode::ListItem { children: children() }],
    }]);
    assert_eq!(
        ordered,
        vec![Block::NumberedListItem {
            rich_text: vec![linked("x", "https://d"), RichText::Empty],
            color: TextColor::Default,
            children: vec![],
        }]
    );
    let bulleted = render(vec![MdNode::List {
        ordered: false,
        start: None,
        children: vec![MdNode::ListItem { children: children() }],
    }]);
    assert_eq!(
        bulleted,
        vec![Block::BulletedListItem {
            rich_text: vec![linked("x", "d"), RichText::Empty],
            color: TextColor::Default,
            children: vec![],
        }]
    );
}

#[test]
fn lists_see_outer_definitions() {
    let blocks = render(vec![
        MdNode::List {
            ordered: false,
            start: None,
            children: vec![MdNode::ListItem {
                children: vec![MdNode::Paragraph {
                    children: vec![MdNode::LinkReference { identifier: s("o"), children: vec![text("t")] }],
                }],
            }],
        },
        MdNode::Definition { identifier: s("o"), url: s("https://outer") },
    ]);
    assert_eq!(
        blocks,
        vec![Block::BulletedListItem {
            rich_text: vec![RichText::Empty],
            color: TextColor::Default,
            children: vec![paragraph(vec![linked("t", "https://outer")])],
        }]
    );
}

#[test]
fn unhandled_nodes_render_nothing() {
    let blocks = render(vec![
        text("loose"),
        MdNode::Break,
        MdNode::Definition { identifier: s("a"), url: s("b") },
        MdNode::Other { children: Some(vec![MdNode::ThematicBreak]) },
        MdNode::Other { children: None },
    ]);
    assert_eq!(blocks, vec![]);
}

#[test]
fn inline_kinds_that_are_not_text_become_empty_rich_text() {
    let blocks = render(vec![MdNode::Heading {
        depth: 3,
        children: vec![MdNode::Break, MdNode::Html { value: s("<br>") }, text("t")],
    }]);
    assert_eq!(
        blocks,
        vec![Block::Heading3 {
            rich_text: vec![RichText::Empty, RichText::Empty, styled("t", plain())],
            color: None,
            is_toggleable: None,
        }]
    );
}

#[test]
fn footnote_reference_is_gray_identifier() {
    let blocks = render(vec![MdNode::Paragraph {
        children: vec![MdNode::FootnoteReference { identifier: s("1") }],
    }]);
    assert_eq!(
        blocks,
        vec![paragraph(vec![styled("1", Annotations { color: TextColor::Gray, ..plain() })])]
    );
}

#[test]
fn heading_depth_zero_is_level_three() {
    let blocks = render(vec![MdNode::Heading { depth: 0, children: vec![] }]);
    assert_eq!(blocks, vec![Block::Heading3 { rich_text: vec![], color: None, is_toggleable: None }]);
}

#[test]
fn earlier_definitions_do_not_leak_into_a_later_render() {
    let mut state = State::new();
    let _ = state.render(MdNode::Root {
        children: vec![MdNode::Definition { identifier: s("r"), url: s("https://old") }],
    });
    let reference = MdNode::Paragraph {
        children: vec![MdNode::LinkReference { identifier: s("r"), children: vec![text("t")] }],
    };
    let again = state.render(MdNode::Root { children: vec![reference] });
    assert_eq!(again, vec![paragraph(vec![linked("t", "r")])]);
}

#[test]
fn nested_definition_shadows_enclosing_one_below_it_only() {
    let reference = || MdNode::Paragraph {
        children: vec![MdNode::LinkReference { identifier: s("k"), children: vec![text("t")] }],
    };
    let blocks = render(vec![
        MdNode::Definition { identifier: s("k"), url: s("https://outer") },
        MdNode::ListItem {
            children: vec![reference(), MdNode::Definition { identifier: s("k"), url: s("https://inner") }],
        },
        reference(),
    ]);
    assert_eq!(
        blocks,
        vec![
            Block::BulletedListItem {
                rich_text: vec![RichText::Empty, RichText::Empty],
                color: TextColor::Default,
                children: vec![paragraph(vec![linked("t", "https://inner")])],
            },
            paragraph(vec![linked("t", "https://outer")]),
        ]
    );
}

#[test]
fn list_start_number_has_no_effect() {
    let item = MdNode::ListItem { children: vec![text("a")] };
    let a = render(vec![MdNode::List { ordered: true, start: Some(1), children: vec![item] }]);
    let item = MdNode::ListItem { children: vec![text("a")] };
    let b = render(vec![MdNode::List { ordered: true, start: Some(42), children: vec![item] }]);
    assert_eq!(a, b);
}

#[test]
fn html_renders_like_code_without_language() {
    let a = render(vec![MdNode::Html { value: s("<b>") }]);
    let b = render(vec![MdNode::Code { lang: None, value: s("<b>") }]);
    assert_eq!(a, b);
}
