//! The markdown syntax tree that rendering reads.
//!
//! `MdNode` holds, as plain values, the parts of a parsed markdown (GFM)
//! document that the renderer looks at: node kinds, their children, and the
//! strings and numbers of the few fields that end up in Notion blocks.
use vstd::prelude::*;

verus! {

/// Alignment of one table column.
#[derive(Clone, Copy, PartialEq, Eq, Debug)]
pub enum Align {
    Left,
    Right,
    Center,
    Unaligned,
}

/// One node of a markdown syntax tree.
///
/// Node kinds that the renderer does not treat on their own are `Other`,
/// which keeps the children of those that have some.
#[derive(PartialEq, Eq, Debug)]
pub enum MdNode {
    Root { children: Vec<MdNode> },
    Blockquote { children: Vec<MdNode> },
    FootnoteDefinition { identifier: String, children: Vec<MdNode> },
    List { ordered: bool, start: Option<u32>, children: Vec<MdNode> },
    ListItem { children: Vec<MdNode> },
    Paragraph { children: Vec<MdNode> },
    Heading { depth: u8, children: Vec<MdNode> },
    Table { align: Vec<Align>, children: Vec<MdNode> },
    TableRow { children: Vec<MdNode> },
    TableCell { children: Vec<MdNode> },
    Emphasis { children: Vec<MdNode> },
    Strong { children: Vec<MdNode> },
    Delete { children: Vec<MdNode> },
    Link { url: String, children: Vec<MdNode> },
    LinkReference { identifier: String, children: Vec<MdNode> },
    Text { value: String },
    InlineCode { value: String },
    InlineMath { value: String },
    Html { value: String },
    Math { value: String },
    Code { lang: Option<String>, value: String },
    FootnoteReference { identifier: String },
    Image { alt: String, url: String },
    ImageReference { identifier: String },
    Definition { identifier: String, url: String },
    ThematicBreak,
    Break,
    Other { children: Option<Vec<MdNode>> },
}

impl MdNode {
    /// The children of a parent node; `None` for a node that cannot have any.
    pub open spec fn spec_children(self) -> Option<Seq<MdNode>> {
        match self {
            MdNode::Root { children } => Some(children@),
            MdNode::Blockquote { children } => Some(children@),
            MdNode::FootnoteDefinition { children, .. } => Some(children@),
            MdNode::List { children, .. } => Some(children@),
            MdNode::ListItem { children } => Some(children@),
            MdNode::Paragraph { children } => Some(children@),
            MdNode::Heading { children, .. } => Some(children@),
            MdNode::Table { children, .. } => Some(children@),
            MdNode::TableRow { children } => Some(children@),
            MdNode::TableCell { children } => Some(children@),
            MdNode::Emphasis { children } => Some(children@),
            MdNode::Strong { children } => Some(children@),
            MdNode::Delete { children } => Some(children@),
            MdNode::Link { children, .. } => Some(children@),
            MdNode::LinkReference { children, .. } => Some(children@),
            MdNode::Other { children } => match children {
                Some(c) => Some(c@),
                None => None,
            },
            _ => None,
        }
    }

    /// The children of a parent node; `None` for a node that cannot have any.
    pub fn children(&self) -> (r: Option<&Vec<MdNode>>)
        ensures
            r is None <==> self.spec_children() is None,
            r matches Some(c) ==> self.spec_children() == Some(c@),
    {
        match self {
            MdNode::Root { children } => Some(children),
            MdNode::Blockquote { children } => Some(children),
            MdNode::FootnoteDefinition { children, .. } => Some(children),
            MdNode::List { children, .. } => Some(children),
            MdNode::ListItem { children } => Some(children),
            MdNode::Paragraph { children } => Some(children),
            MdNode::Heading { children, .. } => Some(children),
            MdNode::Table { children, .. } => Some(children),
            MdNode::TableRow { children } => Some(children),
            MdNode::TableCell { children } => Some(children),
            MdNode::Emphasis { children } => Some(children),
            MdNode::Strong { children } => Some(children),
            MdNode::Delete { children } => Some(children),
            MdNode::Link { children, .. } => Some(children),
            MdNode::LinkReference { children, .. } => Some(children),
            MdNode::Other { children } => match children {
                Some(c) => Some(c),
                None => None,
            },
            _ => None,
        }
    }
}

} // verus!
