# gridix

The decision-making core of Gridix, a keyboard-first database client in the
style of Helix: the data grid's keys and edits, the SQL it writes to save
them, row filtering, the sidebar's and the dialogs' keys, the SQL editor's
shortcuts, query tabs, and the statements of the create-table,
create-database, create-user and export dialogs. Every function in `src/`
carries a contract that Verus proves.

## Layout

- `src/text.rs` — text models (UTF-8 length, trimming, words, decimal
  numbers, joining) and the few `std` string functions the library trusts.
- `src/database.rs`, `src/core_types.rs` — query results, connection
  settings, export formats and themes.
- `src/ui/input.rs` — the keys of one frame, as the handlers read them.
- `src/ui/components/grid/` — the grid: its state and view (`state.rs`),
  modes, keyboard (`keyboard.rs`, one spec function per frame of keys),
  cell display and mouse edits (`render.rs`), save SQL (`actions.rs`) and
  filtering with its cache (`filter/`).
- `src/ui/components/` — query tabs, SQL editor shortcuts, toolbar menus.
- `src/ui/dialogs/` — the shared dialog keys and each dialog's logic.
- `src/ui/panels/` — the history panel and the sidebar (`sidebar/navigation.rs`
  holds its keys).
- `app/` — the egui side: reading input into `KeyInput`, drawing what the
  library computes, the file-system check of the connection dialog, and the
  floating-point parsing of filter numbers.
- `tests/` — examples run against the compiled library.

Laws are public proof functions named `lemma_…` next to the functions they
speak of (for example `lemma_edit_read_after_write`, `lemma_repeat_is_cache_hit`,
`lemma_keys_move_only_focused_cursor`).
