# tetris_game

The rules of a Tetris board, verified with Verus, and the amethyst game
system that drives two such boards.

- `src/` is the verified library: the tetriminoes, their shapes, colours and
  wall kicks (`tetrimino.rs`, `piece.rs`), the events a board receives and
  sends on (`events.rs`), and the board itself (`game_system.rs`): its fresh
  state, how it answers each event, and the pixels it shows.
- `tests/` runs the library on concrete boards.
- `app/` is the amethyst side: channels, the ECS system that feeds each board
  its events and paints its pixels, and the bundle that sets up both boards.
