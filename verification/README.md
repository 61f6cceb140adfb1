# warp_tui (verified core)

The decisions behind three pieces of the terminal UI, written in Verus and
proved against their contracts:

- `src/geometry.rs`, `src/mouse.rs`: hit-testing a pointer against an
  element's area and encoding pointer events for a full-screen (alt-screen)
  application as SGR mouse reports, or as arrow keys for the wheel when the
  application does not take wheel reports; the reporting policy per category
  (buttons, hover motion, wheel).
- `src/alt_screen.rs`: the alt-screen element's retained size and origin,
  the cursor cell it shows, and the routing of each input event.
- `src/editor.rs`: the single-line editor view's focus, the suppression of
  `Changed` events during programmatic replacement, and the model operation
  of every editor action and keybound command.
- `src/keybindings.rs`: the editor keybinding table shared by the command
  input and the single-line editor, and the check that every keystroke
  binding reaching a TUI view is TUI-owned.

`app/` connects these to the UI framework, the terminal model and the editor
model, which do the painting, the key encoding and the text editing.
