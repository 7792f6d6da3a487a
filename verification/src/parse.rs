//! The calls into the markdown parser and into Notion's list of code
//! languages, and the conversion of the parser's syntax tree into `MdNode`.
use vstd::prelude::*;

use markdown::mdast::AlignKind;
use markdown::mdast::Node;
use notion_client::objects::block::Language;

use crate::tree::{Align, MdNode};

verus! {

#[verifier::external_type_specification]
#[verifier::external_body]
pub struct ExMarkdownNode(Node);

#[verifier::external_type_specification]
#[verifier::external_body]
pub struct ExMarkdownAlignKind(AlignKind);

/// The syntax tree that the markdown parser, with GitHub-flavored options,
/// makes of a document (`None` would stand for a parse error).
pub uninterp spec fn gfm_tree(input: Seq<char>) -> Option<MdNode>;

/// Whether a string is the JSON form of one of Notion's code languages.
pub uninterp spec fn is_notion_language(info: Seq<char>) -> bool;

/// Calls `markdown::to_mdast` with `markdown::ParseOptions::gfm()` and turns
/// the tree it returns into an `MdNode`. The contract ties the result to the
/// input through the name `gfm_tree`, and says that parsing succeeds: the
/// parser's documentation states that it never errors on markdown without
/// MDX, which these options leave off. The parser's grammar is not stated.
#[verifier::external_body]
pub(crate) fn parse_gfm(input: &str) -> (r: Option<MdNode>)
    ensures
        r == gfm_tree(input@),
        r is Some,
{
    match markdown::to_mdast(input, &markdown::ParseOptions::gfm()) {
        Ok(tree) => Some(node_from_mdast(&tree)),
        Err(_) => None,
    }
}

/// Calls `serde_json::from_str` for a `notion_client` `Language` and reports
/// whether it succeeded; the contract names that outcome `is_notion_language`
/// of the string.
#[verifier::external_body]
pub(crate) fn parses_as_notion_language(info: &str) -> (r: bool)
    ensures
        r == is_notion_language(info@),
{
    serde_json::from_str::<Language>(info).is_ok()
}

/// Changes a parser node into an `MdNode`, one variant for one.
#[verifier::external_body]
fn node_from_mdast(node: &Node) -> MdNode {
    let kids = |c: &Vec<Node>| nodes_from_mdast(c);
    match node {
        Node::Root(x) => MdNode::Root { children: kids(&x.children) },
        Node::Blockquote(x) => MdNode::Blockquote { children: kids(&x.children) },
        Node::ListItem(x) => MdNode::ListItem { children: kids(&x.children) },
        Node::Paragraph(x) => MdNode::Paragraph { children: kids(&x.children) },
        Node::TableRow(x) => MdNode::TableRow { children: kids(&x.children) },
        _ => phrasing_from_mdast(node),
    }
}

/// Changes a parser node that holds inline content into an `MdNode`.
#[verifier::external_body]
fn phrasing_from_mdast(node: &Node) -> MdNode {
    let kids = |c: &Vec<Node>| nodes_from_mdast(c);
    match node {
        Node::TableCell(x) => MdNode::TableCell { children: kids(&x.children) },
        Node::Emphasis(x) => MdNode::Emphasis { children: kids(&x.children) },
        Node::Strong(x) => MdNode::Strong { children: kids(&x.children) },
        Node::Delete(x) => MdNode::Delete { children: kids(&x.children) },
        _ => parent_from_mdast(node),
    }
}

/// Changes a sequence of parser nodes into `MdNode`s, one for one.
#[verifier::external_body]
fn nodes_from_mdast(nodes: &Vec<Node>) -> Vec<MdNode> {
    nodes.iter().map(node_from_mdast).collect()
}

/// Changes a parser node that has children and fields into an `MdNode`.
#[verifier::external_body]
fn parent_from_mdast(node: &Node) -> MdNode {
    let kids = |c: &Vec<Node>| nodes_from_mdast(c);
    match node {
        Node::List(x) => MdNode::List { ordered: x.ordered, start: x.start, children: kids(&x.children) },
        Node::Heading(x) => MdNode::Heading { depth: x.depth, children: kids(&x.children) },
        Node::Table(x) => MdNode::Table { align: align_from_mdast(&x.align), children: kids(&x.children) },
        _ => named_from_mdast(node),
    }
}

/// Changes a parser node that has children and a name or URL into an `MdNode`.
#[verifier::external_body]
fn named_from_mdast(node: &Node) -> MdNode {
    let kids = |c: &Vec<Node>| nodes_from_mdast(c);
    match node {
        Node::FootnoteDefinition(x) => MdNode::FootnoteDefinition { identifier: x.identifier.clone(), children: kids(&x.children) },
        Node::Link(x) => MdNode::Link { url: x.url.clone(), children: kids(&x.children) },
        Node::LinkReference(x) => MdNode::LinkReference { identifier: x.identifier.clone(), children: kids(&x.children) },
        _ => literal_from_mdast(node),
    }
}

/// Changes a parser node that holds a literal value into an `MdNode`.
#[verifier::external_body]
fn literal_from_mdast(node: &Node) -> MdNode {
    match node {
        Node::Text(x) => MdNode::Text { value: x.value.clone() },
        Node::InlineCode(x) => MdNode::InlineCode { value: x.value.clone() },
        Node::InlineMath(x) => MdNode::InlineMath { value: x.value.clone() },
        Node::Html(x) => MdNode::Html { value: x.value.clone() },
        Node::Math(x) => MdNode::Math { value: x.value.clone() },
        Node::Code(x) => MdNode::Code { lang: x.lang.clone(), value: x.value.clone() },
        _ => reference_from_mdast(node),
    }
}

/// Changes a parser node that refers to something, or has no content, into
/// an `MdNode`; a node of a kind that the renderer does not treat keeps only
/// its children.
#[verifier::external_body]
fn reference_from_mdast(node: &Node) -> MdNode {
    match node {
        Node::FootnoteReference(x) => MdNode::FootnoteReference { identifier: x.identifier.clone() },
        Node::Image(x) => MdNode::Image { alt: x.alt.clone(), url: x.url.clone() },
        Node::ImageReference(x) => MdNode::ImageReference { identifier: x.identifier.clone() },
        Node::Definition(x) => MdNode::Definition { identifier: x.identifier.clone(), url: x.url.clone() },
        Node::ThematicBreak(_) => MdNode::ThematicBreak,
        Node::Break(_) => MdNode::Break,
        _ => MdNode::Other { children: node.children().map(nodes_from_mdast) },
    }
}

/// Changes the parser's column alignments into `Align`s, one for one.
#[verifier::external_body]
fn align_from_mdast(align: &Vec<AlignKind>) -> Vec<Align> {
    align.iter().map(|a| match a {
        AlignKind::Left => Align::Left,
        AlignKind::Right => Align::Right,
        AlignKind::Center => Align::Center,
        AlignKind::None => Align::Unaligned,
    }).collect()
}

} // verus!
