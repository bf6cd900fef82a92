# rdsk

A terminal disk-space analyzer for Windows user profiles, with a directory
explorer (Tab switches between the two).

- `src/` is the verified library: byte-count formatting (`helpers`), the
  accounting of a profile scan and of directory totals (`scanner`), and the
  viewer (`ui`): list selection, the state machine driven by key presses,
  and the text drawn on screen. Laws of the library are public proof
  functions beside the functions they speak of.
- `app/` is the program: terminal set-up, the background scan thread, file
  system reads and ratatui widgets. It hands what it reads to the library
  and acts on what the library decides.
- `tests/` runs the library on concrete values.
