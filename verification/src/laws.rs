//! Properties of rendering that hold for every input.
use vstd::prelude::*;

use crate::notion::{SpecBlock, SpecRichText, TextColor};
use crate::render::{
    SpecState, bulleted_item, image_definitions, link_definitions, list_state, numbered_item,
    spec_cells, spec_list, spec_render_node, spec_render_nodes, spec_render_prefix, spec_table,
    spec_text_node, spec_text_nodes, table_width, text_content, with_definitions,
};
use crate::tree::{Align, MdNode};

verus! {

broadcast use vstd::std_specs::vec::group_vec_axioms;

// ---------------------------------------------------------------------------
// How many blocks a node renders to.

/// The node kinds that render to exactly one block.
pub open spec fn renders_one_block(node: MdNode) -> bool {
    ||| node is Blockquote
    ||| node is FootnoteDefinition
    ||| node is Html
    ||| node is Image
    ||| node is ImageReference
    ||| node is Code
    ||| node is Math
    ||| node is Heading
    ||| node is Table
    ||| node is TableRow
    ||| node is ThematicBreak
    ||| node is ListItem
    ||| node is Paragraph
}

/// Every node but a list renders to one block if it is of a kind Notion has
/// a block for, and to none otherwise.
pub proof fn law_one_block_per_node(st: SpecState, node: MdNode)
    requires
        !(node is List),
    ensures
        spec_render_node(st, node).len() == if renders_one_block(node) {
            1nat
        } else {
            0nat
        },
{
}

proof fn lemma_prefix_items_len(st: SpecState, nodes: Seq<MdNode>, n: nat)
    requires
        n <= nodes.len(),
        forall|i: int| 0 <= i < nodes.len() ==> #[trigger] nodes[i] is ListItem,
    ensures
        spec_render_prefix(st, nodes, n).len() == n,
    decreases n,
{
    if n > 0 {
        lemma_prefix_items_len(st, nodes, (n - 1) as nat);
        assert(nodes[n - 1] is ListItem);
        law_one_block_per_node(st, nodes[n - 1]);
    }
}

/// A list whose children are all list items renders to one block per item.
pub proof fn law_list_one_block_per_item(
    ordered: bool,
    start: Option<u32>,
    st: SpecState,
    items: Seq<MdNode>,
)
    requires
        forall|i: int| 0 <= i < items.len() ==> #[trigger] items[i] is ListItem,
    ensures
        spec_list(ordered, start, st, items).len() == items.len(),
{
    let inner = list_state(ordered, start, st);
    lemma_prefix_items_len(with_definitions(inner, items), items, items.len());
}

// ---------------------------------------------------------------------------
// The scope of definitions.

/// The scope in which sibling nodes are rendered holds every definition of
/// the enclosing scope and every definition among the siblings; where both
/// define a name, the siblings' definition is the one in scope.
pub proof fn law_sibling_scope(st: SpecState, nodes: Seq<MdNode>, name: Seq<char>)
    ensures
        with_definitions(st, nodes).links.contains_key(name) <==> (st.links.contains_key(name)
            || link_definitions(nodes).contains_key(name)),
        with_definitions(st, nodes).links.contains_key(name) ==> with_definitions(st, nodes).links[name]
            == if link_definitions(nodes).contains_key(name) {
            link_definitions(nodes)[name]
        } else {
            st.links[name]
        },
        with_definitions(st, nodes).images.contains_key(name) <==> (st.images.contains_key(name)
            || image_definitions(nodes).contains_key(name)),
        with_definitions(st, nodes).images.contains_key(name) ==> with_definitions(st, nodes).images[name]
            == if image_definitions(nodes).contains_key(name) {
            image_definitions(nodes)[name]
        } else {
            st.images[name]
        },
{
}

/// A list's items are rendered with the definitions of the scope the list
/// stands in.
pub proof fn law_list_keeps_scope(ordered: bool, start: Option<u32>, st: SpecState, items: Seq<MdNode>)
    ensures
        list_state(ordered, start, st).links == st.links,
        list_state(ordered, start, st).images == st.images,
        spec_list(ordered, start, st, items) == spec_render_nodes(list_state(ordered, start, st), items),
{
}

/// Adding the definitions among the same nodes a second time changes nothing.
pub proof fn law_collect_twice(st: SpecState, nodes: Seq<MdNode>)
    ensures
        with_definitions(with_definitions(st, nodes), nodes) == with_definitions(st, nodes),
{
    let once = with_definitions(st, nodes);
    let twice = with_definitions(once, nodes);
    assert(twice.links =~= once.links);
    assert(twice.images =~= once.images);
}

/// A paragraph that comes first among its siblings is rendered with the link
/// and image definitions of all its siblings in scope, so that a link
/// reference resolves through a definition that comes after it.
pub proof fn law_definitions_precede_use(st: SpecState, nodes: Seq<MdNode>, children: Seq<MdNode>)
    requires
        nodes.len() > 0,
        nodes[0] matches MdNode::Paragraph { children: c } && c@ == children,
    ensures
        spec_render_nodes(st, nodes).len() > 0,
        spec_render_nodes(st, nodes)[0] == (SpecBlock::Paragraph {
            rich_text: spec_text_nodes(with_definitions(st, nodes), children),
            color: Some(TextColor::Default),
        }),
{
    let s1 = with_definitions(st, nodes);
    lemma_prefix_extends(s1, nodes, 1, nodes.len());
    let first = spec_render_prefix(s1, nodes, 1);
    assert(spec_render_prefix(s1, nodes, 0) == Seq::<SpecBlock>::empty());
    assert(first =~= spec_render_node(s1, nodes[0]));
    let all = spec_render_nodes(st, nodes);
    assert(all[0] == all.take(1)[0]);
}

/// Rendering more siblings only adds blocks after those already rendered.
proof fn lemma_prefix_extends(st: SpecState, nodes: Seq<MdNode>, m: nat, n: nat)
    requires
        m <= n <= nodes.len(),
    ensures
        spec_render_prefix(st, nodes, m).len() <= spec_render_prefix(st, nodes, n).len(),
        spec_render_prefix(st, nodes, n).take(spec_render_prefix(st, nodes, m).len() as int)
            == spec_render_prefix(st, nodes, m),
    decreases n,
{
    if m < n {
        lemma_prefix_extends(st, nodes, m, (n - 1) as nat);
        let a = spec_render_prefix(st, nodes, m);
        let b = spec_render_prefix(st, nodes, (n - 1) as nat);
        let c = spec_render_prefix(st, nodes, n);
        assert(c.take(a.len() as int) =~= b.take(a.len() as int));
    } else {
        let a = spec_render_prefix(st, nodes, m);
        assert(a.take(a.len() as int) =~= a);
    }
}

// ---------------------------------------------------------------------------
// What rendering does not depend on.

/// Two states with the same list kind and the same definitions.
pub open spec fn same_scope(a: SpecState, b: SpecState) -> bool {
    a.list == b.list && a.links == b.links && a.images == b.images
}

proof fn lemma_text_nodes_same(a: SpecState, b: SpecState, nodes: Seq<MdNode>)
    requires
        a.links == b.links,
    ensures
        spec_text_nodes(a, nodes) == spec_text_nodes(b, nodes),
{
    assert forall|i: int| 0 <= i < nodes.len() implies spec_text_node(a, nodes[i]) == spec_text_node(b, nodes[i]) by {}
    assert(spec_text_nodes(a, nodes) =~= spec_text_nodes(b, nodes));
}

proof fn lemma_cells_same(a: SpecState, b: SpecState, nodes: Seq<MdNode>)
    requires
        a.links == b.links,
    ensures
        spec_cells(a, nodes) == spec_cells(b, nodes),
    decreases nodes.len(),
{
    if nodes.len() > 0 {
        lemma_cells_same(a, b, nodes.drop_last());
        if let MdNode::TableCell { children } = nodes.last() {
            lemma_text_nodes_same(a, b, children@);
        }
    }
}

proof fn lemma_nodes_same(a: SpecState, b: SpecState, nodes: Seq<MdNode>)
    requires
        same_scope(a, b),
    ensures
        spec_render_nodes(a, nodes) == spec_render_nodes(b, nodes),
    decreases nodes, nodes.len() + 1,
{
    lemma_prefix_same(with_definitions(a, nodes), with_definitions(b, nodes), nodes, nodes.len());
}

proof fn lemma_prefix_same(a: SpecState, b: SpecState, nodes: Seq<MdNode>, n: nat)
    requires
        same_scope(a, b),
    ensures
        spec_render_prefix(a, nodes, n) == spec_render_prefix(b, nodes, n),
    decreases nodes, n,
{
    if n > 0 && n <= nodes.len() {
        lemma_prefix_same(a, b, nodes, (n - 1) as nat);
        lemma_node_same(a, b, nodes[n - 1]);
    }
}

proof fn lemma_node_same(a: SpecState, b: SpecState, node: MdNode)
    requires
        same_scope(a, b),
    ensures
        spec_render_node(a, node) == spec_render_node(b, node),
    decreases node, 0nat,
{
    match node {
        MdNode::Blockquote { children } => lemma_text_nodes_same(a, b, children@),
        MdNode::FootnoteDefinition { children, .. } => lemma_text_nodes_same(a, b, children@),
        MdNode::Heading { children, .. } => lemma_text_nodes_same(a, b, children@),
        MdNode::Paragraph { children } => lemma_text_nodes_same(a, b, children@),
        MdNode::TableRow { children } => lemma_cells_same(a, b, children@),
        MdNode::Table { children, .. } => lemma_nodes_same(a, b, children@),
        MdNode::ListItem { children } => {
            lemma_text_nodes_same(a, b, children@);
            lemma_text_nodes_same(with_definitions(a, children@), with_definitions(b, children@), children@);
            lemma_nodes_same(a, b, children@);
        },
        _ => {},
    }
}

/// The number an ordered list starts at, and the kind of the list it stands
/// in, have no effect on how a list renders: only its own kind, its items
/// and the definitions in scope do.
pub proof fn law_list_start_has_no_effect(
    ordered: bool,
    start1: Option<u32>,
    start2: Option<u32>,
    st1: SpecState,
    st2: SpecState,
    items: Seq<MdNode>,
)
    requires
        st1.links == st2.links,
        st1.images == st2.images,
    ensures
        spec_list(ordered, start1, st1, items) == spec_list(ordered, start2, st2, items),
{
    lemma_nodes_same(list_state(ordered, start1, st1), list_state(ordered, start2, st2), items);
}

/// Raw HTML renders as the same plain-text code block as a fenced block
/// without a language holding the same text.
pub proof fn law_html_renders_like_plain_code(st: SpecState, value: String)
    ensures
        spec_render_node(st, MdNode::Html { value }) == spec_render_node(
            st,
            MdNode::Code { lang: None, value },
        ),
{
}

/// A numbered and a bulleted list item with the same children in the same
/// state hold the same nested blocks, and the same rich text when no child is
/// a link or a link reference (the only inline nodes whose text depends on
/// the definitions in scope).
pub proof fn law_items_agree(st: SpecState, children: Seq<MdNode>)
    requires
        forall|i: int|
            0 <= i < children.len() ==> !(#[trigger] children[i] is Link) && !(children[i] is LinkReference),
    ensures
        numbered_item(st, children) matches SpecBlock::NumberedListItem { rich_text: r1, color: c1, children: k1 }
            && bulleted_item(st, children) matches SpecBlock::BulletedListItem { rich_text: r2, color: c2, children: k2 }
            && r1 == r2 && c1 == c2 && k1 == k2,
{
    let inner = with_definitions(st, children);
    assert forall|i: int| 0 <= i < children.len() implies spec_text_node(inner, children[i])
        == spec_text_node(st, children[i]) by {
        assert(!(children[i] is Link) && !(children[i] is LinkReference));
    }
    assert(spec_text_nodes(inner, children) =~= spec_text_nodes(st, children));
}

// ---------------------------------------------------------------------------
// Joining the text of inline nodes.

/// The text of a concatenation of nodes is the concatenation of their texts,
/// and no nodes have no text.
pub proof fn law_text_content_concat(a: Seq<MdNode>, b: Seq<MdNode>)
    ensures
        text_content(a + b) == text_content(a) + text_content(b),
        text_content(Seq::<MdNode>::empty()) == Seq::<char>::empty(),
    decreases b.len(),
{
    if b.len() == 0 {
        assert(a + b =~= a);
        assert(text_content(a) + text_content(b) =~= text_content(a));
    } else {
        law_text_content_concat(a, b.drop_last());
        assert((a + b).drop_last() =~= a + b.drop_last());
        assert((a + b).last() == b.last());
        let t = match b.last() {
            MdNode::Text { value } => value@,
            _ => Seq::empty(),
        };
        assert(text_content(a) + text_content(b) =~= (text_content(a) + text_content(b.drop_last())) + t);
    }
}

// ---------------------------------------------------------------------------
// Tables are as wide as their widest row.

/// The width of a table is at least 1, no row has more cells than the width,
/// and the width is 1 or the cell count of one of the rows.
pub proof fn law_table_width(rows: Seq<SpecBlock>)
    ensures
        table_width(rows) >= 1,
        forall|i: int|
            0 <= i < rows.len() ==> (#[trigger] rows[i] matches SpecBlock::TableRow { cells }
                ==> cells.len() as u32 <= table_width(rows)),
        table_width(rows) == 1 || exists|i: int|
            0 <= i < rows.len() && (#[trigger] rows[i] matches SpecBlock::TableRow { cells }
                && cells.len() as u32 == table_width(rows)),
    decreases rows.len(),
{
    if rows.len() > 0 {
        let prev = rows.drop_last();
        law_table_width(prev);
        assert forall|i: int|
            0 <= i < rows.len() implies (#[trigger] rows[i] matches SpecBlock::TableRow { cells }
                ==> cells.len() as u32 <= table_width(rows)) by {
            if i < rows.len() - 1 {
                assert(rows[i] == prev[i]);
            }
        }
        if table_width(rows) != 1 {
            if table_width(rows) == table_width(prev) {
                let i = choose|i: int|
                    0 <= i < prev.len() && (#[trigger] prev[i] matches SpecBlock::TableRow { cells }
                        && cells.len() as u32 == table_width(prev));
                assert(rows[i] == prev[i]);
            } else {
                assert(rows[rows.len() - 1] == rows.last());
            }
        }
    }
}

/// A rendered table is at least as wide as each of its rendered rows, and
/// has a row header exactly when it has column alignments.
pub proof fn law_table_fits_rows(st: SpecState, align: Seq<Align>, rows: Seq<MdNode>)
    ensures
        spec_table(st, align, rows) matches SpecBlock::Table {
            table_width,
            has_row_header,
            children,
            ..
        } && table_width >= 1 && has_row_header == (align.len() > 0) && forall|i: int|
            0 <= i < children.len() ==> (#[trigger] children[i] matches SpecBlock::TableRow { cells }
                ==> cells.len() as u32 <= table_width),
{
    let children = spec_render_nodes(st, rows);
    law_table_width(children);
}

// ---------------------------------------------------------------------------
// Rendered rich text is consistent: the plain text of a text run is its
// content, and its `href` is the URL it links to.

/// A run of rich text whose plain text is its content (or expression), and
/// whose `href` is its link.
pub open spec fn run_consistent(r: SpecRichText) -> bool {
    match r {
        SpecRichText::Empty => true,
        SpecRichText::Equation { expression, plain_text, href, .. } => plain_text == expression && href is None,
        SpecRichText::Text { content, link, plain_text, href, .. } => plain_text == Some(content) && link == href,
    }
}

/// Every run of `runs` is consistent.
pub open spec fn runs_consistent(runs: Seq<SpecRichText>) -> bool {
    forall|i: int| 0 <= i < runs.len() ==> run_consistent(#[trigger] runs[i])
}

/// Every run of every cell is consistent.
pub open spec fn cells_consistent(cells: Seq<Seq<SpecRichText>>) -> bool {
    forall|i: int| 0 <= i < cells.len() ==> runs_consistent(#[trigger] cells[i])
}

/// Every block of `blocks`, and every block nested in them, holds only
/// consistent rich text.
pub open spec fn blocks_consistent(blocks: Seq<SpecBlock>) -> bool
    decreases blocks, 0nat,
{
    if blocks.len() == 0 {
        true
    } else {
        blocks_consistent(blocks.drop_last()) && block_consistent(blocks.last())
    }
}

/// A block, and every block nested in it, holds only consistent rich text.
pub open spec fn block_consistent(b: SpecBlock) -> bool
    decreases b, 1nat,
{
    match b {
        SpecBlock::Quote { rich_text, .. } => runs_consistent(rich_text),
        SpecBlock::Callout { rich_text, .. } => runs_consistent(rich_text),
        SpecBlock::Table { children, .. } => blocks_consistent(children),
        SpecBlock::TableRow { cells } => cells_consistent(cells),
        SpecBlock::Paragraph { rich_text, .. } => runs_consistent(rich_text),
        SpecBlock::Code { caption, rich_text, .. } => runs_consistent(caption) && runs_consistent(
            rich_text,
        ),
        SpecBlock::NumberedListItem { rich_text, children, .. } => runs_consistent(rich_text)
            && blocks_consistent(children),
        SpecBlock::BulletedListItem { rich_text, children, .. } => runs_consistent(rich_text)
            && blocks_consistent(children),
        SpecBlock::Heading1 { rich_text, .. } => runs_consistent(rich_text),
        SpecBlock::Heading2 { rich_text, .. } => runs_consistent(rich_text),
        SpecBlock::Heading3 { rich_text, .. } => runs_consistent(rich_text),
        _ => true,
    }
}

proof fn lemma_blocks_consistent_concat(a: Seq<SpecBlock>, b: Seq<SpecBlock>)
    requires
        blocks_consistent(a),
        blocks_consistent(b),
    ensures
        blocks_consistent(a + b),
    decreases b.len(),
{
    if b.len() == 0 {
        assert(a + b =~= a);
    } else {
        lemma_blocks_consistent_concat(a, b.drop_last());
        assert((a + b).drop_last() =~= a + b.drop_last());
        assert((a + b).last() == b.last());
    }
}

proof fn lemma_single_consistent(b: SpecBlock)
    requires
        block_consistent(b),
    ensures
        blocks_consistent(seq![b]),
{
    assert(seq![b].drop_last() =~= Seq::<SpecBlock>::empty());
    assert(blocks_consistent(Seq::<SpecBlock>::empty()));
    assert(seq![b].last() == b);
}

proof fn lemma_text_nodes_consistent(st: SpecState, nodes: Seq<MdNode>)
    ensures
        runs_consistent(spec_text_nodes(st, nodes)),
{
    assert forall|i: int| 0 <= i < nodes.len() implies run_consistent(
        #[trigger] spec_text_nodes(st, nodes)[i],
    ) by {
        assert(spec_text_nodes(st, nodes)[i] == spec_text_node(st, nodes[i]));
    }
}

proof fn lemma_cells_consistent(st: SpecState, nodes: Seq<MdNode>)
    ensures
        cells_consistent(spec_cells(st, nodes)),
    decreases nodes.len(),
{
    if nodes.len() > 0 {
        lemma_cells_consistent(st, nodes.drop_last());
        if let MdNode::TableCell { children } = nodes.last() {
            lemma_text_nodes_consistent(st, children@);
            let prev = spec_cells(st, nodes.drop_last());
            assert forall|i: int| 0 <= i < prev.len() + 1 implies runs_consistent(
                #[trigger] prev.push(spec_text_nodes(st, children@))[i],
            ) by {
                if i < prev.len() {
                    assert(prev.push(spec_text_nodes(st, children@))[i] == prev[i]);
                }
            }
        }
    }
}

/// All rich text that rendering sibling nodes produces, in every block and
/// every nested block, is consistent.
pub proof fn law_rendered_text_consistent(st: SpecState, nodes: Seq<MdNode>)
    ensures
        blocks_consistent(spec_render_nodes(st, nodes)),
    decreases nodes, nodes.len() + 1,
{
    lemma_prefix_consistent(with_definitions(st, nodes), nodes, nodes.len());
}

proof fn lemma_prefix_consistent(st: SpecState, nodes: Seq<MdNode>, n: nat)
    ensures
        blocks_consistent(spec_render_prefix(st, nodes, n)),
    decreases nodes, n,
{
    if n > 0 && n <= nodes.len() {
        lemma_prefix_consistent(st, nodes, (n - 1) as nat);
        law_node_text_consistent(st, nodes[n - 1]);
        lemma_blocks_consistent_concat(
            spec_render_prefix(st, nodes, (n - 1) as nat),
            spec_render_node(st, nodes[n - 1]),
        );
    }
}

/// All rich text that rendering one node produces is consistent.
pub proof fn law_node_text_consistent(st: SpecState, node: MdNode)
    ensures
        blocks_consistent(spec_render_node(st, node)),
    decreases node, 0nat,
{
    let out = spec_render_node(st, node);
    match node {
        MdNode::Blockquote { children } => {
            lemma_text_nodes_consistent(st, children@);
            lemma_single_consistent(out[0]);
        },
        MdNode::FootnoteDefinition { children, .. } => {
            lemma_text_nodes_consistent(st, children@);
            lemma_single_consistent(out[0]);
        },
        MdNode::List { ordered, start, children } => {
            law_rendered_text_consistent(list_state(ordered, start, st), children@);
        },
        MdNode::Heading { depth, children } => {
            lemma_text_nodes_consistent(st, children@);
            lemma_single_consistent(out[0]);
        },
        MdNode::Paragraph { children } => {
            lemma_text_nodes_consistent(st, children@);
            lemma_single_consistent(out[0]);
        },
        MdNode::TableRow { children } => {
            lemma_cells_consistent(st, children@);
            lemma_single_consistent(out[0]);
        },
        MdNode::Table { align, children } => {
            law_rendered_text_consistent(st, children@);
            lemma_single_consistent(out[0]);
        },
        MdNode::ListItem { children } => {
            law_rendered_text_consistent(st, children@);
            lemma_text_nodes_consistent(st, children@);
            lemma_text_nodes_consistent(with_definitions(st, children@), children@);
            lemma_single_consistent(out[0]);
        },
        MdNode::Html { .. } => {
            lemma_single_consistent(out[0]);
        },
        MdNode::Code { .. } => {
            lemma_single_consistent(out[0]);
        },
        MdNode::ImageReference { .. } => {
            lemma_single_consistent(out[0]);
        },
        MdNode::Image { .. } => {
            lemma_single_consistent(out[0]);
        },
        MdNode::Math { .. } => {
            lemma_single_consistent(out[0]);
        },
        MdNode::ThematicBreak => {
            lemma_single_consistent(out[0]);
        },
        _ => {},
    }
}


// ---------------------------------------------------------------------------
// Table rows keep every cell.

/// The number of `TableCell` nodes among `nodes`.
pub open spec fn count_cells(nodes: Seq<MdNode>) -> nat
    decreases nodes.len(),
{
    if nodes.len() == 0 {
        0
    } else {
        count_cells(nodes.drop_last()) + if nodes.last() is TableCell {
            1nat
        } else {
            0nat
        }
    }
}

proof fn lemma_count_cells_prefix(nodes: Seq<MdNode>, j: int)
    requires
        0 <= j <= nodes.len(),
    ensures
        count_cells(nodes.take(j)) <= count_cells(nodes),
        j < nodes.len() && nodes[j] is TableCell ==> count_cells(nodes.take(j)) < count_cells(nodes),
    decreases nodes.len(),
{
    if j < nodes.len() {
        lemma_count_cells_prefix(nodes.drop_last(), if j < nodes.len() - 1 { j } else { j });
        if j == nodes.len() - 1 {
            assert(nodes.take(j) =~= nodes.drop_last());
        } else {
            assert(nodes.drop_last().take(j) =~= nodes.take(j));
            assert(nodes.drop_last()[j] == nodes[j]);
        }
    } else {
        assert(nodes.take(j) =~= nodes);
    }
}

proof fn lemma_cells_positions(st: SpecState, nodes: Seq<MdNode>)
    ensures
        spec_cells(st, nodes).len() == count_cells(nodes),
        forall|i: int| 0 <= i < nodes.len() ==> (#[trigger] nodes[i] matches MdNode::TableCell { children }
            ==> spec_cells(st, nodes)[count_cells(nodes.take(i)) as int] == spec_text_nodes(st, children@)),
    decreases nodes.len(),
{
    if nodes.len() > 0 {
        let prev = nodes.drop_last();
        lemma_cells_positions(st, prev);
        assert forall|i: int| 0 <= i < nodes.len() implies (#[trigger] nodes[i] matches MdNode::TableCell { children }
            ==> spec_cells(st, nodes)[count_cells(nodes.take(i)) as int] == spec_text_nodes(st, children@)) by {
            if nodes[i] is TableCell {
                if i < nodes.len() - 1 {
                    assert(prev[i] == nodes[i]);
                    assert(prev.take(i) =~= nodes.take(i));
                    lemma_count_cells_prefix(prev, i);
                } else {
                    assert(nodes.take(i) =~= prev);
                }
            }
        }
    }
}

/// A table row renders to one row block with exactly one cell per
/// `TableCell` child, in order: the cell of the k-th `TableCell` child is the
/// rich text of that child's children, even when it has none.
pub proof fn law_table_row_keeps_every_cell(st: SpecState, node: MdNode)
    requires
        node is TableRow,
    ensures
        spec_render_node(st, node).len() == 1,
        spec_render_node(st, node)[0] matches SpecBlock::TableRow { cells } && cells.len() == count_cells(
            node->TableRow_children@,
        ) && forall|i: int|
            0 <= i < node->TableRow_children@.len() ==> (#[trigger] node->TableRow_children@[i] matches MdNode::TableCell {
                children,
            } ==> cells[count_cells(node->TableRow_children@.take(i)) as int] == spec_text_nodes(st, children@)),
{
    lemma_cells_positions(st, node->TableRow_children@);
}

/// A cell's rich text has one run per child, the run of that child.
pub proof fn law_cell_text_runs(st: SpecState, nodes: Seq<MdNode>)
    ensures
        spec_text_nodes(st, nodes).len() == nodes.len(),
        forall|i: int| 0 <= i < nodes.len() ==> #[trigger] spec_text_nodes(st, nodes)[i] == spec_text_node(st, nodes[i]),
{
}

// ---------------------------------------------------------------------------
// Every definition among siblings is collected.

/// `nodes[i]` defines the link identifier `k`.
pub open spec fn defines_link(nodes: Seq<MdNode>, i: int, k: Seq<char>) -> bool {
    nodes[i] matches MdNode::Definition { identifier, .. } && identifier@ == k
}

/// `nodes[i]` is an image with alt text `k`.
pub open spec fn defines_image(nodes: Seq<MdNode>, i: int, k: Seq<char>) -> bool {
    nodes[i] matches MdNode::Image { alt, .. } && alt@ == k
}

proof fn lemma_links_domain(nodes: Seq<MdNode>, k: Seq<char>)
    ensures
        link_definitions(nodes).contains_key(k) <==> exists|i: int| 0 <= i < nodes.len() && #[trigger] defines_link(nodes, i, k),
    decreases nodes.len(),
{
    if nodes.len() > 0 {
        let prev = nodes.drop_last();
        lemma_links_domain(prev, k);
        let n = nodes.len() - 1;
        if link_definitions(nodes).contains_key(k) && !defines_link(nodes, n, k) {
            let i = choose|i: int| 0 <= i < prev.len() && #[trigger] defines_link(prev, i, k);
            assert(prev[i] == nodes[i]);
            assert(defines_link(nodes, i, k));
        }
        if exists|i: int| 0 <= i < nodes.len() && #[trigger] defines_link(nodes, i, k) {
            let i = choose|i: int| 0 <= i < nodes.len() && #[trigger] defines_link(nodes, i, k);
            if i < n {
                assert(prev[i] == nodes[i]);
                assert(defines_link(prev, i, k));
            }
        }
    }
}

proof fn lemma_links_value(nodes: Seq<MdNode>, k: Seq<char>, i: int)
    requires
        0 <= i < nodes.len(),
        defines_link(nodes, i, k),
        forall|j: int| i < j < nodes.len() ==> !#[trigger] defines_link(nodes, j, k),
    ensures
        link_definitions(nodes).contains_key(k),
        link_definitions(nodes)[k] == nodes[i]->Definition_url@,
    decreases nodes.len(),
{
    let prev = nodes.drop_last();
    let n = nodes.len() - 1;
    if i < n {
        assert(!defines_link(nodes, n, k));
        assert(prev[i] == nodes[i]);
        assert forall|j: int| i < j < prev.len() implies !#[trigger] defines_link(prev, j, k) by {
            assert(prev[j] == nodes[j]);
            assert(!defines_link(nodes, j, k));
        }
        lemma_links_value(prev, k, i);
    }
}

/// The link definitions collected from siblings bind exactly the names defined among
/// them, each to the URL of its last definition.
pub proof fn law_link_definitions(nodes: Seq<MdNode>, k: Seq<char>)
    ensures
        link_definitions(nodes).contains_key(k) <==> exists|i: int| 0 <= i < nodes.len() && #[trigger] defines_link(nodes, i, k),
        forall|i: int|
            0 <= i < nodes.len() && #[trigger] defines_link(nodes, i, k) && (forall|j: int|
                i < j < nodes.len() ==> !#[trigger] defines_link(nodes, j, k)) ==> link_definitions(nodes)[k]
                == nodes[i]->Definition_url@,
{
    lemma_links_domain(nodes, k);
    assert forall|i: int|
        0 <= i < nodes.len() && #[trigger] defines_link(nodes, i, k) && (forall|j: int|
            i < j < nodes.len() ==> !#[trigger] defines_link(nodes, j, k)) implies link_definitions(nodes)[k]
            == nodes[i]->Definition_url@ by {
        lemma_links_value(nodes, k, i);
    }
}

proof fn lemma_images_domain(nodes: Seq<MdNode>, k: Seq<char>)
    ensures
        image_definitions(nodes).contains_key(k) <==> exists|i: int| 0 <= i < nodes.len() && #[trigger] defines_image(nodes, i, k),
    decreases nodes.len(),
{
    if nodes.len() > 0 {
        let prev = nodes.drop_last();
        lemma_images_domain(prev, k);
        let n = nodes.len() - 1;
        if image_definitions(nodes).contains_key(k) && !defines_image(nodes, n, k) {
            let i = choose|i: int| 0 <= i < prev.len() && #[trigger] defines_image(prev, i, k);
            assert(prev[i] == nodes[i]);
            assert(defines_image(nodes, i, k));
        }
        if exists|i: int| 0 <= i < nodes.len() && #[trigger] defines_image(nodes, i, k) {
            let i = choose|i: int| 0 <= i < nodes.len() && #[trigger] defines_image(nodes, i, k);
            if i < n {
                assert(prev[i] == nodes[i]);
                assert(defines_image(prev, i, k));
            }
        }
    }
}

proof fn lemma_images_value(nodes: Seq<MdNode>, k: Seq<char>, i: int)
    requires
        0 <= i < nodes.len(),
        defines_image(nodes, i, k),
        forall|j: int| i < j < nodes.len() ==> !#[trigger] defines_image(nodes, j, k),
    ensures
        image_definitions(nodes).contains_key(k),
        image_definitions(nodes)[k] == nodes[i]->Image_url@,
    decreases nodes.len(),
{
    let prev = nodes.drop_last();
    let n = nodes.len() - 1;
    if i < n {
        assert(!defines_image(nodes, n, k));
        assert(prev[i] == nodes[i]);
        assert forall|j: int| i < j < prev.len() implies !#[trigger] defines_image(prev, j, k) by {
            assert(prev[j] == nodes[j]);
            assert(!defines_image(nodes, j, k));
        }
        lemma_images_value(prev, k, i);
    }
}

/// The images (by alt text) collected from siblings bind exactly the names defined among
/// them, each to the URL of its last definition.
pub proof fn law_image_definitions(nodes: Seq<MdNode>, k: Seq<char>)
    ensures
        image_definitions(nodes).contains_key(k) <==> exists|i: int| 0 <= i < nodes.len() && #[trigger] defines_image(nodes, i, k),
        forall|i: int|
            0 <= i < nodes.len() && #[trigger] defines_image(nodes, i, k) && (forall|j: int|
                i < j < nodes.len() ==> !#[trigger] defines_image(nodes, j, k)) ==> image_definitions(nodes)[k]
                == nodes[i]->Image_url@,
{
    lemma_images_domain(nodes, k);
    assert forall|i: int|
        0 <= i < nodes.len() && #[trigger] defines_image(nodes, i, k) && (forall|j: int|
            i < j < nodes.len() ==> !#[trigger] defines_image(nodes, j, k)) implies image_definitions(nodes)[k]
            == nodes[i]->Image_url@ by {
        lemma_images_value(nodes, k, i);
    }
}

// ---------------------------------------------------------------------------
// Lists render wherever they stand.

/// A list of list items renders to one block per item in every state,
/// nested in another list or not.
pub proof fn law_list_node_one_block_per_item(st: SpecState, node: MdNode)
    requires
        node is List,
        forall|i: int| 0 <= i < node->List_children@.len() ==> #[trigger] node->List_children@[i] is ListItem,
    ensures
        spec_render_node(st, node).len() == node->List_children@.len(),
{
    law_list_one_block_per_item(node->List_ordered, node->List_start, st, node->List_children@);
}

/// How a list renders does not depend on the kind of list, if any, it stands
/// in, nor on that list's start number: only on the definitions in scope.
pub proof fn law_list_ignores_enclosing_list(a: SpecState, b: SpecState, node: MdNode)
    requires
        node is List,
        a.links == b.links,
        a.images == b.images,
    ensures
        spec_render_node(a, node) == spec_render_node(b, node),
{
    law_list_start_has_no_effect(node->List_ordered, node->List_start, node->List_start, a, b, node->List_children@);
}

// ---------------------------------------------------------------------------
// Inline text keeps all its characters.

/// A single `Text` node's text is its whole value.
pub proof fn law_text_content_of_text(nodes: Seq<MdNode>, value: Seq<char>)
    requires
        nodes.len() == 1,
        nodes[0] matches MdNode::Text { value: v } && v@ == value,
    ensures
        text_content(nodes) == value,
{
    assert(nodes.drop_last() =~= Seq::<MdNode>::empty());
    assert(text_content(nodes.drop_last()) == Seq::<char>::empty());
    assert(nodes.last() == nodes[0]);
    assert(Seq::<char>::empty() + value =~= value);
}

/// A single node that is not `Text` adds no text.
pub proof fn law_text_content_of_other(nodes: Seq<MdNode>)
    requires
        nodes.len() == 1,
        !(nodes[0] is Text),
    ensures
        text_content(nodes) == Seq::<char>::empty(),
{
    assert(nodes.drop_last() =~= Seq::<MdNode>::empty());
    assert(text_content(nodes.drop_last()) == Seq::<char>::empty());
    assert(nodes.last() == nodes[0]);
    assert(Seq::<char>::empty() + Seq::<char>::empty() =~= Seq::<char>::empty());
}

/// Strong, emphasized and struck-through text renders as one run holding the
/// text of its children, with its plain text the same, no link, and the
/// matching style.
pub proof fn law_styled_run_content(st: SpecState, node: MdNode)
    requires
        node is Strong || node is Emphasis || node is Delete,
    ensures
        spec_text_node(st, node) matches SpecRichText::Text { content, link, annotations, plain_text, href }
            && content == text_content(node.spec_children().unwrap()) && plain_text == Some(content)
            && link is None && href is None && annotations is Some
            && annotations.unwrap().bold == (node is Strong)
            && annotations.unwrap().italic == (node is Emphasis)
            && annotations.unwrap().strikethrough == (node is Delete)
            && !annotations.unwrap().code && !annotations.unwrap().underline,
{
}

/// A link renders as one run holding the text of its children and linking,
/// through `href` and `link` alike, to the definition of its URL or identifier
/// when there is one, else to the URL or identifier itself.
pub proof fn law_link_run_content(st: SpecState, node: MdNode)
    requires
        node is Link || node is LinkReference,
    ensures
        ({
            let key = if node is Link {
                node->Link_url@
            } else {
                node->LinkReference_identifier@
            };
            let target = if st.links.contains_key(key) {
                st.links[key]
            } else {
                key
            };
            spec_text_node(st, node) matches SpecRichText::Text { content, link, annotations, plain_text, href }
                && content == text_content(node.spec_children().unwrap()) && plain_text == Some(content)
                && link == Some(target) && href == Some(target) && annotations is None
        }),
{
}

// ---------------------------------------------------------------------------
// Code blocks hold their whole text.

/// A fenced code block, or raw HTML, renders as one code block with no
/// caption and one unstyled, unlinked run holding the whole source text,
/// whatever characters (line breaks included) it holds.
pub proof fn law_code_block_holds_text(st: SpecState, node: MdNode, text: Seq<char>)
    requires
        (node matches MdNode::Code { value, .. } && value@ == text) || (node matches MdNode::Html { value }
            && value@ == text),
    ensures
        spec_render_node(st, node).len() == 1,
        spec_render_node(st, node)[0] matches SpecBlock::Code { caption, rich_text, language } && (
        caption.len() == 0 && rich_text.len() == 1 && (rich_text[0] matches SpecRichText::Text {
            content,
            link,
            annotations,
            plain_text,
            href,
        } && content == text && plain_text == Some(text) && link is None && annotations is None
            && href is None)),
        node is Html ==> spec_render_node(st, node)[0]->Code_language is None,
{
}

} // verus!
