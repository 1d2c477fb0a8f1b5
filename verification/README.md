# termrock

Terminal widget logic with machine-checked contracts. The library in `src/`
holds the layout arithmetic, state machines and text projections of a family
of terminal widgets (status bar and strip, table, split pane, tabs, stepper,
tags and chips, slider, spinner, surface, streaming markdown). Its functions
are verified by Verus against contracts stated over mathematical models
(`Seq`, `Map`, integers) and a view of each state type. Two small wrappers are
trusted rather than proved: `text::display_cols`, which asks `unicode-width`
for a string's display width (named `str_width` in contracts), and
`text::string_from_chars`, which collects chars into a `String`.

Layout:

- `src/` — the verified library, one module per widget plus shared pieces:
  `geometry` (rectangles and saturating arithmetic), `input` (key and mouse
  events), `interaction` (intents, key maps, the roving-cursor rule), `style`
  and `text` (tokens, glyphs and display widths).
- `tests/` — executable tests of the library.
- `app/` — ordinary Rust around the library: painting into a `ratatui` buffer,
  the floating-point slider, and the terminal cell grid widget.

Laws that relate several operations (for instance that keyboard navigation
only ever selects enabled rows, tabs or steps, or that a reconciled table keeps
an enabled selection in view) are public proof functions named `law_*` beside
the operations they speak of.
