# civterm

The terminal front end of a turn-based civilization game, with its logic
verified by Verus.

- `src/` is the library: the layout of every screen, window and dialog, the
  text they show, the keys and mouse gestures of the new-game screens and of
  play, the camera that follows the selected unit, the composition of the map
  pane, and the cursor and scroll arithmetic of every list. Each public
  function states what it returns in `ensures`, and the public proof
  functions (`lemma_*`) state the properties that hold across calls.
- `tests/` runs the library on concrete values.
- `app/` is the program around it: the terminal, the event loop and the
  painting of the menu and new-game screens with `ratatui`.

The game itself (the world, its units and cities, saving and loading) is a
separate engine that this crate does not include, so `app/` ends where a new
game would begin.
