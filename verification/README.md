# md2notion

Converts markdown into Notion document blocks.

- `src/` is the verified library. `tree.rs` holds the markdown syntax tree
  (`MdNode`), `notion.rs` the Notion blocks and rich text (`Block`,
  `RichText`) with their mathematical views, `defs.rs` the table of link and
  image definitions, `render.rs` the renderer (`State`) and the spec functions
  that say what every node becomes, `laws.rs` the properties proved of
  rendering, and `parse.rs` the calls into the markdown parser and into
  Notion's list of code languages.
- `app/` turns the library's blocks into `notion_client` objects.
- `tests/` runs the library on markdown documents and on hand-built trees.
