# roster_manager

The verified core of a terminal game's roster screen: a carousel over the
player's creatures with selection and swapping, the prompt-editor popup's
focus and write-debounce, the diagnostics badge and decoration mapping, and
the screen's cell and braille-dot geometry. Every function in `src/` carries
a Verus contract, and the properties that span several calls are stated and
proved as public proof functions (`lemma_*`).

Layout:

- `src/scene.rs` – the roster state machine (`RosterManager`) and its
  mathematical model (`RosterView`).
- `src/popup.rs` – the prompt-editor popup's key/click routing and debounce.
- `src/diagnostics.rs` – badge placement, the warning card's header, and
  byte-span to `(line, col)` mapping for editor decorations.
- `src/layout.rs`, `src/dots.rs`, `src/stats.rs`, `src/dot_row.rs`,
  `src/details.rs` – geometry and text of the screen's panels.
- `src/hydration.rs` – how a saved roster is restored.
- `app/` – terminal glue (ratatui/crossterm conversions, the event and frame
  steps, floating-point presentation helpers).
- `tests/` – tests run against the compiled library.
