# justin_rpg

JustinRPG is an isekai-flavored top-down multiplayer RPG: you are the
overpowered protagonist, reincarnated into a world of slimes and farmland.
One-punch the monsters, farm Divine Turnips, gather wood, stone and ore, and
craft gear at the workbench.

## Layout

- `src/` is the verified library with the game's rules:
  - `config` — gameplay tables (enemies, plots, resource nodes, gear,
    recipes, regions) and their helpers;
  - `player` — a hero's stats and the server's rules for crafting, drinking,
    gathering, farming, kills, regeneration, hits and revival;
  - `combat` — resolving a one-punch against the enemies in reach, and the
    monster spawner;
  - `messages`, `hud`, `text` — every log line and HUD text, with decimal
    numbers, padding and joining;
  - `protocol` — the plain-data protocol pieces;
  - `rng` — the random draws (through `rand`);
  - `laws` — properties the game promises across its rules.
- `app/` runs the game: `justin_rpg server` is the headless authoritative
  server (bevy + renet over UDP, 30 Hz), `justin_rpg` a client. It moves
  things through continuous (floating-point) space, runs the timers and the
  network, and renders.
- `tests/` exercise the library on concrete values.
