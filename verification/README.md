# bow_rogue

The rules of a top-down roguelike archery game, written in Verus and proved
against their contracts, with the Bevy program around them.

- `src/` — the verified library:
  - `player` — experience, levelling up, movement input and the input map;
  - `projectile` — a projectile's hit budget (pierce) and its collisions;
  - `faction` — which units are hostile to each other;
  - `level` — the wave and batch schedule of a level and when it is won;
  - `run` — gold and kills of a run, and what a death leads to;
  - `skill`, `ability` — level-up choices and the ability counters they raise;
  - `weapon` — when a weapon fires and which timers restart;
  - `text` — clock, experience, gold and kill counters as printed;
  - `spawn`, `enemy`, `state` — spawn edges, enemy kinds, game states.
- `tests/` — tests of the library.
- `app/` — the Bevy program: ECS systems, physics, health and damage
  (floating point), configuration loading and the user interface.
