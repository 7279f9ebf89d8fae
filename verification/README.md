# pumpkin mob AI

The decision logic of a Minecraft server's mob AI, verified with Verus: targeting goals,
wandering and fleeing goals, the helpers that search for random positions, the line of sight
cache, and the piglin with its bartering, admiring, inventory and saved data.

- `src/` is the library. Every goal and the piglin are state machines over plain values: the
  world answers questions (is this block solid, is the target in sight) through booleans or
  closures, entities are known by id, and each public function states in its contract what it
  returns and how it changes its state. Laws that span calls (how long an unseen target is
  remembered, that a line of sight answer is cached for the tick, that the inventory neither
  loses nor makes items, that saved data loads back) are public proof functions beside the code
  they speak of.
- `app/` holds what works in floating point (positions, speeds, angles, weights, chances drawn
  as floats) and feeds world facts to the library.
- `tests/` runs the library on concrete values.

Random draws go through `rand`; the line of sight cache uses `rustc-hash` sets; owner ids come
from `uuid` in `app/`.
