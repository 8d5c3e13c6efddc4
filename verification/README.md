# shadowstrike

A real-time fighting game with rollback netcode, as a Verus library: the
deterministic fixed-point simulations, their collision and combo rules, the
rollback buffers, the client's input and network decisions and the relay
server's room logic are verified against their contracts.

## Layout

- `src/game_sim/` — the match simulation (`GameState::tick`, CRC32 checksum,
  snapshots), with `reachable.rs` proving that play from a new game stays
  within bounds and that every round ends.
- `src/` top level — the arena simulation with JSON-facing state types
  (`simulation::tick`, `GameState::hash_state`), its frame data and ring
  buffers; `reachable.rs` holds its invariant, `jump_arc.rs` proves that a
  jump lands, and `simulation::try_tick` tells in advance whether a tick can
  run without overflow.
- `src/client/` — rollback manager, key mapping, animation ids, colours,
  and the network state machine with its JSON field readers.
- `src/relay/` — rooms, room codes and the relay's answer to each client
  message.
- `tests/` — unit, scenario, fuzz and metric tests.
- `app/` — the relay server binary, the WebAssembly entry points, and the
  browser client's drawing, sound and networking glue.
