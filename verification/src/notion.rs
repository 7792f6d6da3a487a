//! Notion document blocks and rich text, as the renderer produces them.
//!
//! `Block` and `RichText` follow the shape of the Notion API objects: each
//! variant carries the fields of the corresponding Notion value. Their views,
//! `SpecBlock` and `SpecRichText`, replace strings by `Seq<char>` and vectors
//! by `Seq`, so that contracts can compare them as mathematical values.
use vstd::prelude::*;

verus! {

/// Text color of rich text or of a block.
#[derive(Clone, Copy, PartialEq, Eq, Debug)]
pub enum TextColor {
    Default,
    Gray,
}

/// Styling of a run of rich text.
#[derive(Clone, Copy, PartialEq, Eq, Debug)]
pub struct Annotations {
    pub bold: bool,
    pub italic: bool,
    pub strikethrough: bool,
    pub underline: bool,
    pub code: bool,
    pub color: TextColor,
}

/// A run of Notion rich text.
#[derive(Clone, PartialEq, Eq, Debug)]
pub enum RichText {
    /// Rich text with no content.
    Empty,
    /// An inline equation.
    Equation { expression: String, annotations: Annotations, plain_text: String, href: Option<String> },
    /// Text, with `link` the URL that the text links to.
    Text {
        content: String,
        link: Option<String>,
        annotations: Option<Annotations>,
        plain_text: Option<String>,
        href: Option<String>,
    },
}

/// A Notion document block.
///
/// `Image` holds the URL of an external file, `Callout::icon` the emoji of
/// the icon, and `Code::language` the fence info string when Notion knows it
/// as a language (`None` stands for plain text).
#[derive(PartialEq, Eq, Debug)]
pub enum Block {
    /// A block of no type.
    Empty,
    Quote { rich_text: Vec<RichText>, color: TextColor },
    Callout { rich_text: Vec<RichText>, icon: Option<String>, color: TextColor },
    Table { table_width: u32, has_column_header: bool, has_row_header: bool, children: Vec<Block> },
    TableRow { cells: Vec<Vec<RichText>> },
    Paragraph { rich_text: Vec<RichText>, color: Option<TextColor> },
    Code { caption: Vec<RichText>, rich_text: Vec<RichText>, language: Option<String> },
    Equation { expression: String },
    Image { url: String },
    NumberedListItem { rich_text: Vec<RichText>, color: TextColor, children: Vec<Block> },
    BulletedListItem { rich_text: Vec<RichText>, color: TextColor, children: Vec<Block> },
    Divider,
    Heading1 { rich_text: Vec<RichText>, color: Option<TextColor>, is_toggleable: Option<bool> },
    Heading2 { rich_text: Vec<RichText>, color: Option<TextColor>, is_toggleable: Option<bool> },
    Heading3 { rich_text: Vec<RichText>, color: Option<TextColor>, is_toggleable: Option<bool> },
}

/// The mathematical value of a `RichText`.
pub enum SpecRichText {
    Empty,
    Equation {
        expression: Seq<char>,
        annotations: Annotations,
        plain_text: Seq<char>,
        href: Option<Seq<char>>,
    },
    Text {
        content: Seq<char>,
        link: Option<Seq<char>>,
        annotations: Option<Annotations>,
        plain_text: Option<Seq<char>>,
        href: Option<Seq<char>>,
    },
}

/// The mathematical value of a `Block`.
pub enum SpecBlock {
    Empty,
    Quote { rich_text: Seq<SpecRichText>, color: TextColor },
    Callout { rich_text: Seq<SpecRichText>, icon: Option<Seq<char>>, color: TextColor },
    Table {
        table_width: u32,
        has_column_header: bool,
        has_row_header: bool,
        children: Seq<SpecBlock>,
    },
    TableRow { cells: Seq<Seq<SpecRichText>> },
    Paragraph { rich_text: Seq<SpecRichText>, color: Option<TextColor> },
    Code { caption: Seq<SpecRichText>, rich_text: Seq<SpecRichText>, language: Option<Seq<char>> },
    Equation { expression: Seq<char> },
    Image { url: Seq<char> },
    NumberedListItem { rich_text: Seq<SpecRichText>, color: TextColor, children: Seq<SpecBlock> },
    BulletedListItem { rich_text: Seq<SpecRichText>, color: TextColor, children: Seq<SpecBlock> },
    Divider,
    Heading1 { rich_text: Seq<SpecRichText>, color: Option<TextColor>, is_toggleable: Option<bool> },
    Heading2 { rich_text: Seq<SpecRichText>, color: Option<TextColor>, is_toggleable: Option<bool> },
    Heading3 { rich_text: Seq<SpecRichText>, color: Option<TextColor>, is_toggleable: Option<bool> },
}

/// The view of an optional string.
pub open spec fn opt_str(o: Option<String>) -> Option<Seq<char>> {
    match o {
        Some(s) => Some(s@),
        None => None,
    }
}

impl View for RichText {
    type V = SpecRichText;

    open spec fn view(&self) -> SpecRichText {
        match self {
            RichText::Empty => SpecRichText::Empty,
            RichText::Equation { expression, annotations, plain_text, href } => SpecRichText::Equation {
                expression: expression@,
                annotations: *annotations,
                plain_text: plain_text@,
                href: opt_str(*href),
            },
            RichText::Text { content, link, annotations, plain_text, href } => SpecRichText::Text {
                content: content@,
                link: opt_str(*link),
                annotations: *annotations,
                plain_text: opt_str(*plain_text),
                href: opt_str(*href),
            },
        }
    }
}

/// The views of a sequence of rich text runs.
pub open spec fn rich_texts_view(s: Seq<RichText>) -> Seq<SpecRichText> {
    s.map_values(|r: RichText| r@)
}

/// The views of the cells of a table row.
pub open spec fn cells_view(s: Seq<Vec<RichText>>) -> Seq<Seq<SpecRichText>> {
    s.map_values(|c: Vec<RichText>| rich_texts_view(c@))
}

/// The views of a sequence of blocks.
pub open spec fn blocks_view(s: Seq<Block>) -> Seq<SpecBlock>
    decreases s, 0nat,
{
    if s.len() == 0 {
        Seq::empty()
    } else {
        blocks_view(s.drop_last()).push(block_view(s.last()))
    }
}

/// The view of a block.
pub open spec fn block_view(b: Block) -> SpecBlock
    decreases b, 1nat,
{
    match b {
        Block::Empty => SpecBlock::Empty,
        Block::Quote { rich_text, color } => SpecBlock::Quote {
            rich_text: rich_texts_view(rich_text@),
            color,
        },
        Block::Callout { rich_text, icon, color } => SpecBlock::Callout {
            rich_text: rich_texts_view(rich_text@),
            icon: opt_str(icon),
            color,
        },
        Block::Table { table_width, has_column_header, has_row_header, children } => SpecBlock::Table {
            table_width,
            has_column_header,
            has_row_header,
            children: blocks_view(children@),
        },
        Block::TableRow { cells } => SpecBlock::TableRow { cells: cells_view(cells@) },
        Block::Paragraph { rich_text, color } => SpecBlock::Paragraph {
            rich_text: rich_texts_view(rich_text@),
            color,
        },
        Block::Code { caption, rich_text, language } => SpecBlock::Code {
            caption: rich_texts_view(caption@),
            rich_text: rich_texts_view(rich_text@),
            language: opt_str(language),
        },
        Block::Equation { expression } => SpecBlock::Equation { expression: expression@ },
        Block::Image { url } => SpecBlock::Image { url: url@ },
        Block::NumberedListItem { rich_text, color, children } => SpecBlock::NumberedListItem {
            rich_text: rich_texts_view(rich_text@),
            color,
            children: blocks_view(children@),
        },
        Block::BulletedListItem { rich_text, color, children } => SpecBlock::BulletedListItem {
            rich_text: rich_texts_view(rich_text@),
            color,
            children: blocks_view(children@),
        },
        Block::Divider => SpecBlock::Divider,
        Block::Heading1 { rich_text, color, is_toggleable } => SpecBlock::Heading1 {
            rich_text: rich_texts_view(rich_text@),
            color,
            is_toggleable,
        },
        Block::Heading2 { rich_text, color, is_toggleable } => SpecBlock::Heading2 {
            rich_text: rich_texts_view(rich_text@),
            color,
            is_toggleable,
        },
        Block::Heading3 { rich_text, color, is_toggleable } => SpecBlock::Heading3 {
            rich_text: rich_texts_view(rich_text@),
            color,
            is_toggleable,
        },
    }
}

impl View for Block {
    type V = SpecBlock;

    open spec fn view(&self) -> SpecBlock {
        block_view(*self)
    }
}

/// Viewing a concatenation of blocks concatenates the views.
pub proof fn lemma_blocks_view_concat(a: Seq<Block>, b: Seq<Block>)
    ensures
        blocks_view(a + b) == blocks_view(a) + blocks_view(b),
    decreases b.len(),
{
    if b.len() == 0 {
        assert(a + b =~= a);
        assert(blocks_view(a) + blocks_view(b) =~= blocks_view(a));
    } else {
        lemma_blocks_view_concat(a, b.drop_last());
        assert((a + b).drop_last() =~= a + b.drop_last());
        assert((a + b).last() == b.last());
        assert(blocks_view(a) + blocks_view(b) =~= (blocks_view(a) + blocks_view(b.drop_last())).push(
            block_view(b.last()),
        ));
    }
}

/// The view of a sequence of blocks has one element per block, each the
/// view of that block.
pub proof fn lemma_blocks_view_index(s: Seq<Block>)
    ensures
        blocks_view(s).len() == s.len(),
        forall|i: int| 0 <= i < s.len() ==> #[trigger] blocks_view(s)[i] == block_view(s[i]),
    decreases s.len(),
{
    if s.len() > 0 {
        lemma_blocks_view_index(s.drop_last());
    }
}

} // verus!
