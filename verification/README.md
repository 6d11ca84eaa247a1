# vizdoom

Safe bindings for the ViZDoom C ABI, with the bindings' own logic verified in
Verus.

- `src/` is the verified library. `enums.rs` holds the typed mirrors of the
  engine's enums with their C integers; `error.rs` and `status.rs` map C
  status codes and answers onto typed results; `text.rs` encodes string
  arguments as C strings and prints integers in decimal; `game.rs` and
  `state.rs` hold `DoomGame` and `GameState`, which own an engine handle and
  receive each raw C call as a closure over it, so that their contracts state
  the arguments sent and how every possible answer is read.
- `app/` supplies the raw `extern "C"` declarations of `libvizdoom`, the RAII
  handles that free engine objects, and the path-based surface with a
  `thiserror`-derived error type.
- `tests/` drive the library with stand-ins for the C ABI.
