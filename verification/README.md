# catan

Rules, board geometry and bookkeeping of a game of Catan, written in Verus:
every function of the library carries a contract that the verifier proves,
except two that are believed as stated because they only call outside code:
`utils::text::push_char` (std's `String::push`) and
`jsettler::discard::random_below` (a draw from the `rand` crate's thread
generator, known only to fall in `0..n`).

- `src/utils`: resources, development cards, tiles and harbors.
- `src/board`: the coordinate grid, its kinds of places and their neighbours.
- `src/state`: players and their hands.
- `src/game`: actions, phases, notifications, the resource coherence check.
- `src/player`: the fixed list of every action a player may take.
- `src/history`: records of played games and the history viewer's commands.
- `src/parser`: reading typed commands as actions.
- `src/jsettler`: the numbering of the JSettlers client (board, resources,
  phases, actions) and the bookkeeping of the hands it reports.
- `app`: process-wide tables, terminal input and serialisation around the
  library.
- `tests`: tests run against the compiled library.
