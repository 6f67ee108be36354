# chess5d_reader

Reads the memory of a running "5D Chess With Multiverse Time Travel" game
(Windows only) and prints the moves played so far in 5D chess notation.

The crate has two parts:

- `src/` is the library, verified with Verus. It holds the game's data
  types, the decoding of the game's board records from raw bytes, the
  field and board lookups, the reconstruction of moves and turns from the
  boards, the move notation and the game record, the printed form of a
  board, the saving and restoring of the game's top-level record, and the
  decisions made around the process (where the board records lie, how a
  block of bytes is copied into the process a buffer at a time, which part
  of the output is new). Every public function states its result in its
  contract; the properties that span functions are proof functions
  (`lemma_*`).
- `app/` is the program around it: command-line parsing and logging, the
  Windows process and memory calls, and the polling loop.

`tests/` runs the library on concrete games and byte records.
