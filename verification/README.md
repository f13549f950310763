# mdall

The editing, search and protocol logic of the MD -> ALL Markdown editor and
of its `mdall-mcp` server, written in Verus with its behaviour stated in
`requires` / `ensures` contracts and proved.

## Layout

- `src/text.rs`: character / byte index conversions of UTF-8 text.
- `src/search.rs`, `src/replace.rs`: leftmost non-overlapping search, and
  replacing several byte ranges at once.
- `src/editor.rs`: the editor state (`MdApp`): inserting and wrapping text,
  find next / previous, replace current / all.
- `src/commands.rs`, `src/events.rs`, `src/spell.rs`, `src/dictionary.rs`:
  what the file, export, print, import, toolbar, keyboard, review, spelling
  and dictionary commands do to the editor state once their I/O has run.
- `src/mcp.rs`: the JSON-RPC decisions of the MCP server: which request gets
  which reply, which tool a call runs, and the texts of tool results.
- `src/state.rs`, `src/settings.rs`, `src/review.rs`, `src/resources.rs`,
  `src/format.rs`: state types, preferences, review items, dictionary
  offers, the Typst equation document, decimal formatting.
- `src/laws.rs`: properties that relate several functions.
- `app/`: the `mdall-mcp` binary (stdio transport, JSON framing, the
  conversion engine), preference persistence, the dictionaries folder, and
  notifications.
- `tests/`: tests of the library on concrete values.
