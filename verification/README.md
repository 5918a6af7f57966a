# mafia

A Mafia game engine with explicit game flow, deterministic state transitions
and command-driven interaction, verified with Verus.

- `src/` is the library. Every function carries a contract over a
  mathematical model of the game (views made of `Seq`, `Map` and plain
  values), and Verus proves each body against it.
  - `domain/`: seats, roles, statuses, the parts of a game day.
  - `engine/`: the engine (`Engine::apply`, `Engine::advance`), the game
    record (`engine/game/`), the flow of a day (`engine/flow.rs`), turns
    around the table (`engine/turn.rs`) and the laws that span operations
    (`engine/laws.rs`); `engine/state/` holds the chair-based record.
  - `app.rs`, `app/`: the console: keys, popups and typed commands turned
    into engine commands and effects for the host.
  - `table.rs`, `commands.rs`: the first, chair-map table and its commands.
  - `snapshot.rs`: plain copies of the state for showing and saving.
- `app/` is the console program: it reads command lines, hands them to the
  library and carries out what it asks (printing, countdowns, saving).
- `tests/` runs the library on concrete games.
