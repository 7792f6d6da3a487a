//! Rendering a markdown syntax tree into Notion blocks.
//!
//! The spec functions below say what each node becomes; `State`'s methods
//! compute it. Rendering a sequence of sibling nodes first adds the link and
//! image definitions among them to those in scope (a definition among the
//! siblings replaces an enclosing one of the same name), then renders each
//! node in that scope. Tables, lists and list items render their children
//! the same way, inside the scope of the enclosing level, so a definition is
//! in scope for every reference at its own level and below, before it and
//! after it. Rendering leaves the state as it found it.
use vstd::prelude::*;

use crate::defs::DefTable;
use crate::notion::{
    Annotations, Block, RichText, SpecBlock, SpecRichText, TextColor, blocks_view, cells_view,
    lemma_blocks_view_concat, opt_str, rich_texts_view,
};
use crate::parse::{is_notion_language, parses_as_notion_language};
use crate::tree::{Align, MdNode};

verus! {

broadcast use vstd::std_specs::vec::group_vec_axioms;

/// Which kind of list the items being rendered belong to.
#[derive(Clone, Copy, PartialEq, Eq, Debug)]
pub enum ListVariation {
    NoList,
    Bulleted,
    Ordered,
}

/// The renderer's state: the list kind, the number an ordered list starts
/// at, and the link and image definitions in scope.
pub struct State {
    list: ListVariation,
    ordered_start: u32,
    links: DefTable,
    images: DefTable,
}

/// The mathematical value of a `State`: definitions map link identifiers,
/// and image alt texts, to URLs.
pub struct SpecState {
    pub list: ListVariation,
    pub ordered_start: u32,
    pub links: Map<Seq<char>, Seq<char>>,
    pub images: Map<Seq<char>, Seq<char>>,
}

impl View for State {
    type V = SpecState;

    closed spec fn view(&self) -> SpecState {
        SpecState {
            list: self.list,
            ordered_start: self.ordered_start,
            links: self.links@,
            images: self.images@,
        }
    }
}

/// The state rendering starts from: no list, lists start at 1, nothing defined.
pub open spec fn initial_state() -> SpecState {
    SpecState {
        list: ListVariation::NoList,
        ordered_start: 1,
        links: Map::empty(),
        images: Map::empty(),
    }
}

/// The state a list's items are rendered in: the list's kind and start, and
/// the definitions of the enclosing state `st`.
pub open spec fn list_state(ordered: bool, start: Option<u32>, st: SpecState) -> SpecState {
    SpecState {
        list: if ordered {
            ListVariation::Ordered
        } else {
            ListVariation::Bulleted
        },
        ordered_start: match start {
            Some(s) => s,
            None => 1,
        },
        links: st.links,
        images: st.images,
    }
}

/// Annotations with no styling.
pub open spec fn plain_style() -> Annotations {
    Annotations {
        bold: false,
        italic: false,
        strikethrough: false,
        underline: false,
        code: false,
        color: TextColor::Default,
    }
}

/// Bold text.
pub open spec fn bold_style() -> Annotations {
    Annotations { bold: true, ..plain_style() }
}

/// Italic text.
pub open spec fn italic_style() -> Annotations {
    Annotations { italic: true, ..plain_style() }
}

/// Struck-through text.
pub open spec fn strikethrough_style() -> Annotations {
    Annotations { strikethrough: true, ..plain_style() }
}

/// Code text.
pub open spec fn code_style() -> Annotations {
    Annotations { code: true, ..plain_style() }
}

/// Gray text, for footnote references.
pub open spec fn note_style() -> Annotations {
    Annotations { color: TextColor::Gray, ..plain_style() }
}

/// The emoji of a footnote's callout: U+1F5D2 (spiral note pad) followed by
/// the emoji presentation selector U+FE0F.
pub open spec fn note_emoji() -> Seq<char> {
    seq!['\u{1F5D2}', '\u{FE0F}']
}

/// The text of the `Text` nodes among `children`, joined in order; other
/// children add nothing.
pub open spec fn text_content(children: Seq<MdNode>) -> Seq<char>
    decreases children.len(),
{
    if children.len() == 0 {
        Seq::empty()
    } else {
        text_content(children.drop_last()) + match children.last() {
            MdNode::Text { value } => value@,
            _ => Seq::empty(),
        }
    }
}

/// Unlinked rich text with the given content and style.
pub open spec fn styled_text(content: Seq<char>, style: Annotations) -> SpecRichText {
    SpecRichText::Text {
        content,
        link: None,
        annotations: Some(style),
        plain_text: Some(content),
        href: None,
    }
}

/// Unstyled, unlinked rich text, as code blocks hold it.
pub open spec fn bare_text(content: Seq<char>) -> SpecRichText {
    SpecRichText::Text { content, link: None, annotations: None, plain_text: Some(content), href: None }
}

/// Rich text linking to `url`.
pub open spec fn linked_text(content: Seq<char>, url: Seq<char>) -> SpecRichText {
    SpecRichText::Text {
        content,
        link: Some(url),
        annotations: None,
        plain_text: Some(content),
        href: Some(url),
    }
}

/// The URL `key` stands for: its definition if it has one, else itself.
pub open spec fn resolve_url(defs: Map<Seq<char>, Seq<char>>, key: Seq<char>) -> Seq<char> {
    if defs.contains_key(key) {
        defs[key]
    } else {
        key
    }
}

/// The rich text an inline node becomes; nodes that are not inline text
/// become empty rich text.
pub open spec fn spec_text_node(st: SpecState, node: MdNode) -> SpecRichText {
    match node {
        MdNode::Delete { children } => styled_text(text_content(children@), strikethrough_style()),
        MdNode::Emphasis { children } => styled_text(text_content(children@), italic_style()),
        MdNode::Strong { children } => styled_text(text_content(children@), bold_style()),
        MdNode::FootnoteReference { identifier } => styled_text(identifier@, note_style()),
        MdNode::InlineCode { value } => styled_text(value@, code_style()),
        MdNode::InlineMath { value } => SpecRichText::Equation {
            expression: value@,
            annotations: code_style(),
            plain_text: value@,
            href: None,
        },
        MdNode::Link { url, children } => linked_text(
            text_content(children@),
            resolve_url(st.links, url@),
        ),
        MdNode::LinkReference { identifier, children } => linked_text(
            text_content(children@),
            resolve_url(st.links, identifier@),
        ),
        MdNode::Text { value } => styled_text(value@, plain_style()),
        _ => SpecRichText::Empty,
    }
}

/// The rich text of each of `nodes`, in order.
pub open spec fn spec_text_nodes(st: SpecState, nodes: Seq<MdNode>) -> Seq<SpecRichText> {
    Seq::new(nodes.len(), |i: int| spec_text_node(st, nodes[i]))
}

/// The cells of a table row: the rich text of each `TableCell` among
/// `nodes`, in order; other nodes make no cell.
pub open spec fn spec_cells(st: SpecState, nodes: Seq<MdNode>) -> Seq<Seq<SpecRichText>>
    decreases nodes.len(),
{
    if nodes.len() == 0 {
        Seq::empty()
    } else {
        let cells = spec_cells(st, nodes.drop_last());
        match nodes.last() {
            MdNode::TableCell { children } => cells.push(spec_text_nodes(st, children@)),
            _ => cells,
        }
    }
}

/// The link definitions among `nodes` (not those nested in them); a later
/// definition of an identifier replaces an earlier one.
pub open spec fn link_definitions(nodes: Seq<MdNode>) -> Map<Seq<char>, Seq<char>>
    decreases nodes.len(),
{
    if nodes.len() == 0 {
        Map::empty()
    } else {
        let defs = link_definitions(nodes.drop_last());
        match nodes.last() {
            MdNode::Definition { identifier, url } => defs.insert(identifier@, url@),
            _ => defs,
        }
    }
}

/// The images among `nodes` (not those nested in them), by alt text; a later
/// image with the same alt text replaces an earlier one.
pub open spec fn image_definitions(nodes: Seq<MdNode>) -> Map<Seq<char>, Seq<char>>
    decreases nodes.len(),
{
    if nodes.len() == 0 {
        Map::empty()
    } else {
        let defs = image_definitions(nodes.drop_last());
        match nodes.last() {
            MdNode::Image { alt, url } => defs.insert(alt@, url@),
            _ => defs,
        }
    }
}

/// `st` with the definitions among `nodes` added to its own; a definition
/// among `nodes` replaces one of `st` with the same name.
pub open spec fn with_definitions(st: SpecState, nodes: Seq<MdNode>) -> SpecState {
    SpecState {
        links: st.links.union_prefer_right(link_definitions(nodes)),
        images: st.images.union_prefer_right(image_definitions(nodes)),
        ..st
    }
}

/// The language of a code block: the fence info string when Notion knows it
/// as a language, else none (plain text).
pub open spec fn code_language(lang: Option<String>) -> Option<Seq<char>> {
    match lang {
        Some(l) => if is_notion_language(l@) {
            Some(l@)
        } else {
            None
        },
        None => None,
    }
}

/// A code block holding `value` as unstyled text.
pub open spec fn code_block(value: Seq<char>, language: Option<Seq<char>>) -> SpecBlock {
    SpecBlock::Code { caption: Seq::empty(), rich_text: seq![bare_text(value)], language }
}

/// The width of a table: the most cells in any of its rows, and at least 1.
/// A row's cell count is taken as a `u32`.
pub open spec fn table_width(rows: Seq<SpecBlock>) -> u32
    decreases rows.len(),
{
    if rows.len() == 0 {
        1
    } else {
        let w = table_width(rows.drop_last());
        match rows.last() {
            SpecBlock::TableRow { cells } => if w < (cells.len() as u32) {
                cells.len() as u32
            } else {
                w
            },
            _ => w,
        }
    }
}

/// The heading block of a heading of the given depth: levels beyond 2 all
/// become level-3 headings.
pub open spec fn heading_block(depth: u8, rich_text: Seq<SpecRichText>) -> SpecBlock {
    if depth == 1 {
        SpecBlock::Heading1 { rich_text, color: None, is_toggleable: None }
    } else if depth == 2 {
        SpecBlock::Heading2 { rich_text, color: None, is_toggleable: None }
    } else {
        SpecBlock::Heading3 { rich_text, color: None, is_toggleable: None }
    }
}

/// Rendering a sequence of sibling nodes: add their definitions to the
/// scope, then render each of them in that scope, in order.
pub open spec fn spec_render_nodes(st: SpecState, nodes: Seq<MdNode>) -> Seq<SpecBlock>
    decreases nodes, nodes.len() + 1,
{
    spec_render_prefix(with_definitions(st, nodes), nodes, nodes.len())
}

/// The blocks of the first `n` of `nodes`, each rendered in state `st`.
pub open spec fn spec_render_prefix(st: SpecState, nodes: Seq<MdNode>, n: nat) -> Seq<SpecBlock>
    decreases nodes, n,
{
    if n == 0 || n > nodes.len() {
        Seq::empty()
    } else {
        spec_render_prefix(st, nodes, (n - 1) as nat) + spec_render_node(st, nodes[n - 1])
    }
}

/// What one node renders to: most nodes become one block, a list becomes
/// one block per item, and node kinds without a Notion counterpart become
/// none.
pub open spec fn spec_render_node(st: SpecState, node: MdNode) -> Seq<SpecBlock>
    decreases node, 0nat,
{
    match node {
        MdNode::Blockquote { children } => seq![
            SpecBlock::Quote { rich_text: spec_text_nodes(st, children@), color: TextColor::Default },
        ],
        MdNode::FootnoteDefinition { children, .. } => seq![
            SpecBlock::Callout {
                rich_text: spec_text_nodes(st, children@),
                icon: Some(note_emoji()),
                color: TextColor::Default,
            },
        ],
        MdNode::List { ordered, start, children } => spec_list(ordered, start, st, children@),
        MdNode::Html { value } => seq![code_block(value@, None)],
        MdNode::Image { url, .. } => seq![SpecBlock::Image { url: url@ }],
        MdNode::ImageReference { identifier } => seq![
            if st.images.contains_key(identifier@) {
                SpecBlock::Image { url: st.images[identifier@] }
            } else {
                SpecBlock::Empty
            },
        ],
        MdNode::Code { lang, value } => seq![code_block(value@, code_language(lang))],
        MdNode::Math { value } => seq![SpecBlock::Equation { expression: value@ }],
        MdNode::Heading { depth, children } => seq![heading_block(depth, spec_text_nodes(st, children@))],
        MdNode::Table { align, children } => seq![spec_table(st, align@, children@)],
        MdNode::TableRow { children } => seq![SpecBlock::TableRow { cells: spec_cells(st, children@) }],
        MdNode::ThematicBreak => seq![SpecBlock::Divider],
        MdNode::ListItem { children } => seq![spec_list_item(st, children@)],
        MdNode::Paragraph { children } => seq![
            SpecBlock::Paragraph {
                rich_text: spec_text_nodes(st, children@),
                color: Some(TextColor::Default),
            },
        ],
        _ => Seq::empty(),
    }
}

/// A table: its rows rendered as siblings, a width of the most cells in a
/// row, and a row header exactly when the table has column alignments.
pub open spec fn spec_table(st: SpecState, align: Seq<Align>, rows: Seq<MdNode>) -> SpecBlock
    decreases rows, rows.len() + 2,
{
    let children = spec_render_nodes(st, rows);
    SpecBlock::Table {
        table_width: table_width(children),
        has_column_header: false,
        has_row_header: align.len() > 0,
        children,
    }
}

/// A list: its items rendered as siblings in a state of the list's kind that
/// keeps the enclosing definitions.
pub open spec fn spec_list(ordered: bool, start: Option<u32>, st: SpecState, items: Seq<MdNode>) -> Seq<SpecBlock>
    decreases items, items.len() + 2,
{
    spec_render_nodes(list_state(ordered, start, st), items)
}

/// A list item in an ordered list is numbered; any other is bulleted.
pub open spec fn spec_list_item(st: SpecState, children: Seq<MdNode>) -> SpecBlock
    decreases children, children.len() + 3,
{
    match st.list {
        ListVariation::Ordered => numbered_item(st, children),
        _ => bulleted_item(st, children),
    }
}

/// A numbered list item: its children rendered as blocks nested in it, and
/// the rich text of its children as its own text. The item's text is taken
/// after its children are rendered, with their definitions in scope.
pub open spec fn numbered_item(st: SpecState, children: Seq<MdNode>) -> SpecBlock
    decreases children, children.len() + 2,
{
    SpecBlock::NumberedListItem {
        rich_text: spec_text_nodes(with_definitions(st, children), children),
        color: TextColor::Default,
        children: spec_render_nodes(st, children),
    }
}

/// A bulleted list item: the rich text of its children as its own text,
/// taken in the enclosing scope before its children are rendered, and its
/// children rendered as blocks nested in it.
pub open spec fn bulleted_item(st: SpecState, children: Seq<MdNode>) -> SpecBlock
    decreases children, children.len() + 2,
{
    SpecBlock::BulletedListItem {
        rich_text: spec_text_nodes(st, children),
        color: TextColor::Default,
        children: spec_render_nodes(st, children),
    }
}

/// Rendering a tree: its children rendered as siblings; a node with no
/// children renders to nothing.
pub open spec fn spec_render(st: SpecState, tree: MdNode) -> Seq<SpecBlock> {
    match tree.spec_children() {
        Some(children) => spec_render_nodes(st, children),
        None => Seq::empty(),
    }
}

/// A vector of one block.
fn single(b: Block) -> (r: Vec<Block>)
    ensures
        r@ == seq![b],
        blocks_view(r@) == seq![b@],
{
    let mut v = Vec::new();
    v.push(b);
    proof {
        assert(v@.drop_last() =~= Seq::<Block>::empty());
        assert(blocks_view(v@.drop_last()) =~= Seq::<SpecBlock>::empty());
        assert(v@.last() == b);
        assert(blocks_view(v@) =~= seq![b@]);
    }
    v
}

impl State {
    /// A state outside any list, with nothing defined.
    pub fn new() -> (r: State)
        ensures
            r@ == initial_state(),
    {
        State {
            list: ListVariation::NoList,
            ordered_start: 1,
            links: DefTable::new(),
            images: DefTable::new(),
        }
    }

    /// Renders the children of `tree` as Notion blocks, leaving the state as
    /// it was.
    pub fn render(&mut self, tree: MdNode) -> (r: Vec<Block>)
        ensures
            final(self)@ == old(self)@,
            blocks_view(r@) == spec_render(old(self)@, tree),
    {
        if let Some(children) = tree.children() {
            self.render_nodes(children.as_slice())
        } else {
            Vec::new()
        }
    }

    /// Renders sibling nodes: adds their definitions to the scope, renders
    /// each, then puts the scope back as it was.
    fn render_nodes(&mut self, nodes: &[MdNode]) -> (r: Vec<Block>)
        ensures
            final(self)@ == old(self)@,
            blocks_view(r@) == spec_render_nodes(old(self)@, nodes@),
        decreases nodes@, nodes@.len() + 1,
    {
        let saved_links = self.links.clone_table();
        let saved_images = self.images.clone_table();
        self.collect_definitions(nodes);
        let ghost scope = self@;
        let mut out: Vec<Block> = Vec::new();
        let mut i: usize = 0;
        while i < nodes.len()
            invariant
                i <= nodes@.len(),
                scope == with_definitions(old(self)@, nodes@),
                self@ == scope,
                blocks_view(out@) == spec_render_prefix(scope, nodes@, i as nat),
            decreases nodes@.len() - i,
        {
            proof {
                assert(decreases_to!(nodes@ => nodes@[i as int]));
            }
            let mut more = self.render_node(&nodes[i]);
            proof {
                lemma_blocks_view_concat(out@, more@);
            }
            out.append(&mut more);
            i += 1;
        }
        self.links = saved_links;
        self.images = saved_images;
        out
    }

    /// Adds the link definitions and the images among `nodes` to the
    /// definitions in scope.
    fn collect_definitions(&mut self, nodes: &[MdNode])
        ensures
            final(self)@ == with_definitions(old(self)@, nodes@),
    {
        let ghost before = self@;
        let mut i: usize = 0;
        proof {
            assert(nodes@.take(0) =~= Seq::<MdNode>::empty());
            assert(before.links.union_prefer_right(link_definitions(nodes@.take(0))) =~= before.links);
            assert(before.images.union_prefer_right(image_definitions(nodes@.take(0))) =~= before.images);
        }
        while i < nodes.len()
            invariant
                i <= nodes@.len(),
                self@ == with_definitions(before, nodes@.take(i as int)),
            decreases nodes@.len() - i,
        {
            proof {
                assert(nodes@.take(i + 1).drop_last() =~= nodes@.take(i as int));
            }
            let ghost links0 = link_definitions(nodes@.take(i as int));
            let ghost images0 = image_definitions(nodes@.take(i as int));
            match &nodes[i] {
                MdNode::Image { alt, url } => {
                    self.images.insert(alt.clone(), url.clone());
                    assert(self@.images =~= before.images.union_prefer_right(
                        images0.insert(alt@, url@),
                    ));
                },
                MdNode::Definition { identifier, url } => {
                    self.links.insert(identifier.clone(), url.clone());
                    assert(self@.links =~= before.links.union_prefer_right(
                        links0.insert(identifier@, url@),
                    ));
                },
                _ => {},
            }
            i += 1;
        }
        proof {
            assert(nodes@.take(nodes@.len() as int) =~= nodes@);
        }
    }

    /// Renders one node as the blocks it becomes.
    fn render_node(&mut self, node: &MdNode) -> (r: Vec<Block>)
        ensures
            final(self)@ == old(self)@,
            blocks_view(r@) == spec_render_node(old(self)@, *node),
        decreases *node, 0nat,
    {
        match node {
            MdNode::Blockquote { children } => single(self.render_quote(children)),
            MdNode::FootnoteDefinition { children, .. } => single(self.render_footnote(children)),
            MdNode::List { ordered, start, children } => {
                proof {
                    assert(decreases_to!(*node => node->List_children));
                }
                self.begin_list(*ordered, *start, children)
            },
            MdNode::Html { value } => single(self.render_html(value)),
            MdNode::Image { url, .. } => single(self.render_image(url)),
            MdNode::ImageReference { identifier } => single(self.render_image_ref(identifier)),
            MdNode::Code { lang, value } => single(self.render_code(lang, value)),
            MdNode::Math { value } => single(self.render_math(value)),
            MdNode::Heading { depth, children } => single(self.render_heading(*depth, children)),
            MdNode::Table { align, children } => {
                proof {
                    assert(decreases_to!(*node => node->Table_children));
                }
                let table = self.begin_table(align, children);
                single(table)
            },
            MdNode::TableRow { children } => single(self.table_row(children)),
            MdNode::ThematicBreak => single(self.render_divider()),
            MdNode::ListItem { children } => {
                proof {
                    assert(decreases_to!(*node => node->ListItem_children));
                }
                let item = self.render_list_item(children);
                single(item)
            },
            MdNode::Paragraph { children } => single(self.render_paragraph(children)),
            _ => Vec::new(),
        }
    }

    /// Renders an inline node as rich text.
    fn render_text_node(&self, node: &MdNode) -> (r: RichText)
        ensures
            r@ == spec_text_node(self@, *node),
    {
        match node {
            MdNode::Delete { children } => self.render_deletion(children),
            MdNode::Emphasis { children } => self.render_emphasized(children),
            MdNode::FootnoteReference { identifier } => self.render_noteref(identifier),
            MdNode::InlineCode { value } => self.render_inline_code(value),
            MdNode::InlineMath { value } => self.render_inline_math(value),
            MdNode::Link { url, children } => self.render_link(url, children),
            MdNode::LinkReference { identifier, children } => self.render_linkref(identifier, children),
            MdNode::Strong { children } => self.render_strong(children),
            MdNode::Text { value } => self.render_text(value),
            _ => RichText::Empty,
        }
    }

    /// Renders each of `nodes` as rich text, in order.
    fn render_text_nodes(&self, nodes: &[MdNode]) -> (r: Vec<RichText>)
        ensures
            rich_texts_view(r@) == spec_text_nodes(self@, nodes@),
    {
        let mut out: Vec<RichText> = Vec::new();
        let mut i: usize = 0;
        while i < nodes.len()
            invariant
                i <= nodes@.len(),
                out@.len() == i,
                forall|j: int| 0 <= j < i ==> (#[trigger] out@[j])@ == spec_text_node(self@, nodes@[j]),
            decreases nodes@.len() - i,
        {
            let rt = self.render_text_node(&nodes[i]);
            out.push(rt);
            i += 1;
        }
        assert(rich_texts_view(out@) =~= spec_text_nodes(self@, nodes@));
        out
    }

    /// Renders plain text.
    fn render_text(&self, value: &String) -> (r: RichText)
        ensures
            r@ == styled_text(value@, plain_style()),
    {
        RichText::Text {
            content: value.clone(),
            link: None,
            annotations: Some(plain_annotations()),
            plain_text: Some(value.clone()),
            href: None,
        }
    }

    /// The text of the `Text` nodes among `children`, joined.
    fn text_of(children: &[MdNode]) -> (r: String)
        ensures
            r@ == text_content(children@),
    {
        let mut s = String::new();
        let mut i: usize = 0;
        while i < children.len()
            invariant
                i <= children@.len(),
                s@ == text_content(children@.take(i as int)),
            decreases children@.len() - i,
        {
            proof {
                assert(children@.take(i + 1).drop_last() =~= children@.take(i as int));
            }
            match &children[i] {
                MdNode::Text { value } => {
                    s.append(value.as_str());
                },
                _ => {
                    assert(s@ =~= s@ + Seq::<char>::empty());
                },
            }
            i += 1;
        }
        proof {
            assert(children@.take(children@.len() as int) =~= children@);
        }
        s
    }

    /// Turns the text among `children` into rich text of the given style.
    fn make_into_rich_text(children: &[MdNode], style: Annotations) -> (r: RichText)
        ensures
            r@ == styled_text(text_content(children@), style),
    {
        let content = State::text_of(children);
        RichText::Text {
            content: content.clone(),
            link: None,
            annotations: Some(style),
            plain_text: Some(content),
            href: None,
        }
    }

    fn render_strong(&self, children: &Vec<MdNode>) -> (r: RichText)
        ensures
            r@ == styled_text(text_content(children@), bold_style()),
    {
        let style = Annotations { bold: true, ..plain_annotations() };
        State::make_into_rich_text(children.as_slice(), style)
    }

    fn render_emphasized(&self, children: &Vec<MdNode>) -> (r: RichText)
        ensures
            r@ == styled_text(text_content(children@), italic_style()),
    {
        let style = Annotations { italic: true, ..plain_annotations() };
        State::make_into_rich_text(children.as_slice(), style)
    }

    fn render_deletion(&self, children: &Vec<MdNode>) -> (r: RichText)
        ensures
            r@ == styled_text(text_content(children@), strikethrough_style()),
    {
        let style = Annotations { strikethrough: true, ..plain_annotations() };
        State::make_into_rich_text(children.as_slice(), style)
    }

    /// A link to `key`'s definition, or to `key` itself when it has none.
    fn linked(&self, key: &String, children: &Vec<MdNode>) -> (r: RichText)
        ensures
            r@ == linked_text(text_content(children@), resolve_url(self@.links, key@)),
    {
        let content = State::text_of(children.as_slice());
        let url = match self.links.get(key) {
            Some(u) => u.clone(),
            None => key.clone(),
        };
        RichText::Text {
            content: content.clone(),
            link: Some(url.clone()),
            annotations: None,
            plain_text: Some(content),
            href: Some(url),
        }
    }

    fn render_link(&self, url: &String, children: &Vec<MdNode>) -> (r: RichText)
        ensures
            r@ == linked_text(text_content(children@), resolve_url(self@.links, url@)),
    {
        self.linked(url, children)
    }

    fn render_linkref(&self, identifier: &String, children: &Vec<MdNode>) -> (r: RichText)
        ensures
            r@ == linked_text(text_content(children@), resolve_url(self@.links, identifier@)),
    {
        self.linked(identifier, children)
    }

    fn render_inline_code(&self, value: &String) -> (r: RichText)
        ensures
            r@ == styled_text(value@, code_style()),
    {
        RichText::Text {
            content: value.clone(),
            link: None,
            annotations: Some(Annotations { code: true, ..plain_annotations() }),
            plain_text: Some(value.clone()),
            href: None,
        }
    }

    fn render_inline_math(&self, value: &String) -> (r: RichText)
        ensures
            r@ == (SpecRichText::Equation {
                expression: value@,
                annotations: code_style(),
                plain_text: value@,
                href: None,
            }),
    {
        RichText::Equation {
            expression: value.clone(),
            annotations: Annotations { code: true, ..plain_annotations() },
            plain_text: value.clone(),
            href: None,
        }
    }

    fn render_quote(&self, children: &Vec<MdNode>) -> (r: Block)
        ensures
            r@ == (SpecBlock::Quote { rich_text: spec_text_nodes(self@, children@), color: TextColor::Default }),
    {
        let rich_text = self.render_text_nodes(children.as_slice());
        Block::Quote { rich_text, color: TextColor::Default }
    }

    fn render_footnote(&self, children: &Vec<MdNode>) -> (r: Block)
        ensures
            r@ == (SpecBlock::Callout {
                rich_text: spec_text_nodes(self@, children@),
                icon: Some(note_emoji()),
                color: TextColor::Default,
            }),
    {
        let rich_text = self.render_text_nodes(children.as_slice());
        let emoji = String::from_str("\u{1F5D2}\u{FE0F}");
        proof {
            reveal_strlit("\u{1F5D2}\u{FE0F}");
            assert(emoji@ =~= note_emoji());
        }
        Block::Callout { rich_text, icon: Some(emoji), color: TextColor::Default }
    }

    /// A footnote reference, shown as its identifier in gray.
    fn render_noteref(&self, identifier: &String) -> (r: RichText)
        ensures
            r@ == styled_text(identifier@, note_style()),
    {
        RichText::Text {
            content: identifier.clone(),
            link: None,
            annotations: Some(Annotations { color: TextColor::Gray, ..plain_annotations() }),
            plain_text: Some(identifier.clone()),
            href: None,
        }
    }

    fn begin_table(&mut self, align: &Vec<Align>, rows: &Vec<MdNode>) -> (r: Block)
        ensures
            final(self)@ == old(self)@,
            r@ == spec_table(old(self)@, align@, rows@),
        decreases rows@, rows@.len() + 2,
    {
        let has_row_header = align.len() > 0;
        let children = self.render_nodes(rows.as_slice());
        let mut longest: u32 = 1;
        let mut i: usize = 0;
        proof {
            crate::notion::lemma_blocks_view_index(children@);
        }
        while i < children.len()
            invariant
                i <= children@.len(),
                blocks_view(children@).len() == children@.len(),
                forall|j: int| 0 <= j < children@.len() ==> #[trigger] blocks_view(children@)[j] == crate::notion::block_view(children@[j]),
                longest == table_width(blocks_view(children@).take(i as int)),
            decreases children@.len() - i,
        {
            proof {
                assert(blocks_view(children@).take(i + 1).drop_last() =~= blocks_view(children@).take(i as int));
                assert(blocks_view(children@).take(i + 1).last() == crate::notion::block_view(children@[i as int]));
            }
            match &children[i] {
                Block::TableRow { cells } => {
                    let n = cells.len() as u32;
                    assert(cells_view(cells@).len() == cells@.len());
                    if longest < n {
                        longest = n;
                    }
                },
                _ => {},
            }
            i += 1;
        }
        proof {
            assert(blocks_view(children@).take(children@.len() as int) =~= blocks_view(children@));
        }
        Block::Table { table_width: longest, has_column_header: false, has_row_header, children }
    }

    fn table_row(&self, children: &Vec<MdNode>) -> (r: Block)
        ensures
            r@ == (SpecBlock::TableRow { cells: spec_cells(self@, children@) }),
    {
        let mut cells: Vec<Vec<RichText>> = Vec::new();
        let mut i: usize = 0;
        while i < children.len()
            invariant
                i <= children@.len(),
                cells_view(cells@) == spec_cells(self@, children@.take(i as int)),
            decreases children@.len() - i,
        {
            proof {
                assert(children@.take(i + 1).drop_last() =~= children@.take(i as int));
            }
            match &children[i] {
                MdNode::TableCell { children: content } => {
                    let cell = self.table_cell(content);
                    let ghost before = cells@;
                    cells.push(cell);
                    assert(cells_view(cells@) =~= cells_view(before).push(rich_texts_view(cell@)));
                },
                _ => {},
            }
            i += 1;
        }
        proof {
            assert(children@.take(children@.len() as int) =~= children@);
        }
        Block::TableRow { cells }
    }

    fn table_cell(&self, children: &Vec<MdNode>) -> (r: Vec<RichText>)
        ensures
            rich_texts_view(r@) == spec_text_nodes(self@, children@),
    {
        self.render_text_nodes(children.as_slice())
    }

    /// Renders a list's items in a state of the list's kind that keeps the
    /// definitions in scope.
    fn begin_list(&self, ordered: bool, start: Option<u32>, items: &Vec<MdNode>) -> (r: Vec<Block>)
        ensures
            blocks_view(r@) == spec_list(ordered, start, self@, items@),
        decreases items@, items@.len() + 2,
    {
        let mut state = State {
            list: if ordered {
                ListVariation::Ordered
            } else {
                ListVariation::Bulleted
            },
            ordered_start: 1,
            links: self.links.clone_table(),
            images: self.images.clone_table(),
        };
        if let Some(s) = start {
            state.ordered_start = s;
        }
        assert(state@ == list_state(ordered, start, self@));
        state.render_nodes(items.as_slice())
    }

    fn render_paragraph(&self, children: &Vec<MdNode>) -> (r: Block)
        ensures
            r@ == (SpecBlock::Paragraph {
                rich_text: spec_text_nodes(self@, children@),
                color: Some(TextColor::Default),
            }),
    {
        let rich_text = self.render_text_nodes(children.as_slice());
        Block::Paragraph { rich_text, color: Some(TextColor::Default) }
    }

    /// A code block; its language is the fence info string when Notion knows
    /// it, else plain text.
    fn render_code(&self, lang: &Option<String>, value: &String) -> (r: Block)
        ensures
            r@ == code_block(value@, code_language(*lang)),
    {
        let language = match lang {
            Some(l) => if parses_as_notion_language(l.as_str()) {
                Some(l.clone())
            } else {
                None
            },
            None => None,
        };
        State::code_of(value, language)
    }

    /// A code block holding `value` as unstyled text.
    fn code_of(value: &String, language: Option<String>) -> (r: Block)
        ensures
            r@ == code_block(value@, opt_str(language)),
    {
        let text = RichText::Text {
            content: value.clone(),
            link: None,
            annotations: None,
            plain_text: Some(value.clone()),
            href: None,
        };
        let rich_text = single_text(text);
        let caption: Vec<RichText> = Vec::new();
        proof {
            assert(rich_texts_view(caption@) =~= Seq::<SpecRichText>::empty());
            assert(rich_texts_view(rich_text@) =~= seq![bare_text(value@)]);
        }
        Block::Code { caption, rich_text, language }
    }

    fn render_math(&self, value: &String) -> (r: Block)
        ensures
            r@ == (SpecBlock::Equation { expression: value@ }),
    {
        Block::Equation { expression: value.clone() }
    }

    /// Raw HTML, kept as a plain-text code block.
    fn render_html(&self, value: &String) -> (r: Block)
        ensures
            r@ == code_block(value@, None),
    {
        State::code_of(value, None)
    }

    /// The image defined with alt text `identifier`, or an empty block.
    fn render_image_ref(&self, identifier: &String) -> (r: Block)
        ensures
            r@ == (if self@.images.contains_key(identifier@) {
                SpecBlock::Image { url: self@.images[identifier@] }
            } else {
                SpecBlock::Empty
            }),
    {
        match self.images.get(identifier) {
            Some(url) => self.render_image(url),
            None => Block::Empty,
        }
    }

    /// An image block showing the external file at `url`.
    fn render_image(&self, url: &String) -> (r: Block)
        ensures
            r@ == (SpecBlock::Image { url: url@ }),
    {
        Block::Image { url: url.clone() }
    }

    /// A list item: numbered in an ordered list, bulleted otherwise.
    fn render_list_item(&mut self, children: &Vec<MdNode>) -> (r: Block)
        ensures
            final(self)@ == old(self)@,
            r@ == spec_list_item(old(self)@, children@),
        decreases children@, children@.len() + 3,
    {
        match self.list {
            ListVariation::NoList => self.rendered_bullet_li(children),
            ListVariation::Bulleted => self.rendered_bullet_li(children),
            ListVariation::Ordered => self.render_numbered_li(children),
        }
    }

    /// A numbered list item holding its children's blocks; its own text is
    /// rendered with its children's definitions in scope.
    fn render_numbered_li(&mut self, children: &Vec<MdNode>) -> (r: Block)
        ensures
            final(self)@ == old(self)@,
            r@ == numbered_item(old(self)@, children@),
        decreases children@, children@.len() + 2,
    {
        let child_blocks = self.render_nodes(children.as_slice());
        let saved_links = self.links.clone_table();
        let saved_images = self.images.clone_table();
        self.collect_definitions(children.as_slice());
        let rich_text = self.render_text_nodes(children.as_slice());
        self.links = saved_links;
        self.images = saved_images;
        Block::NumberedListItem { rich_text, color: TextColor::Default, children: child_blocks }
    }

    /// A bulleted list item holding its children's blocks.
    fn rendered_bullet_li(&mut self, children: &Vec<MdNode>) -> (r: Block)
        ensures
            final(self)@ == old(self)@,
            r@ == bulleted_item(old(self)@, children@),
        decreases children@, children@.len() + 2,
    {
        let rich_text = self.render_text_nodes(children.as_slice());
        let children = self.render_nodes(children.as_slice());
        Block::BulletedListItem { rich_text, color: TextColor::Default, children }
    }

    fn render_divider(&self) -> (r: Block)
        ensures
            r@ == SpecBlock::Divider,
    {
        Block::Divider
    }

    fn render_heading(&self, depth: u8, children: &Vec<MdNode>) -> (r: Block)
        ensures
            r@ == heading_block(depth, spec_text_nodes(self@, children@)),
    {
        let rich_text = self.render_text_nodes(children.as_slice());
        if depth == 1 {
            Block::Heading1 { rich_text, color: None, is_toggleable: None }
        } else if depth == 2 {
            Block::Heading2 { rich_text, color: None, is_toggleable: None }
        } else {
            Block::Heading3 { rich_text, color: None, is_toggleable: None }
        }
    }
}

/// Annotations with no styling.
fn plain_annotations() -> (r: Annotations)
    ensures
        r == plain_style(),
{
    Annotations {
        bold: false,
        italic: false,
        strikethrough: false,
        underline: false,
        code: false,
        color: TextColor::Default,
    }
}

/// A vector of one run of rich text.
fn single_text(t: RichText) -> (r: Vec<RichText>)
    ensures
        r@ == seq![t],
{
    let mut v = Vec::new();
    v.push(t);
    v
}

} // verus!
