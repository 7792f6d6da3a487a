//! Converts markdown documents into Notion document blocks.
//!
//! `convert` parses markdown (GitHub-flavored) and renders the syntax tree
//! into `Block`s, the values that become a Notion page's children.
pub mod defs;
pub mod laws;
pub mod notion;
mod parse;
pub mod render;
pub mod tree;

pub use notion::{Annotations, Block, RichText, TextColor};
pub use parse::{gfm_tree, is_notion_language};
pub use render::{ListVariation, State};
pub use tree::{Align, MdNode};

use vstd::prelude::*;

verus! {

/// Converts markdown text into Notion document blocks: the blocks that the
/// document's syntax tree renders to from the initial state. Parsing
/// markdown does not fail.
pub fn convert(input: &str) -> (r: Vec<Block>)
    ensures
        gfm_tree(input@) is Some,
        notion::blocks_view(r@) == render::spec_render(render::initial_state(), gfm_tree(input@).unwrap()),
{
    match parse::parse_gfm(input) {
        Some(tree) => {
            let mut state = State::new();
            state.render(tree)
        },
        None => Vec::new(),
    }
}

} // verus!
