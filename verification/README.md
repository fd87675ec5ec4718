# dmz

The rules of a small extraction shooter in the style of DMZ, as a Verus
library with proved contracts, and a bevy game around it.

- `src/` is the library, verified by Verus. Each module holds one part of the
  game's rules with exact contracts over spec functions, and public proof
  functions (`lemma_*`) for the laws that relate several calls:
  - `countdown`, `timers`, `bounds`: one-shot countdowns in nanoseconds, the
    raid and gas timers, and the out-of-bounds check and countdown;
  - `exfil`: the fourteen-phase exfil procedure and exfil-area detection;
  - `inventory`, `loot`, `wallet`, `backpack_summary`: stowing and dropping
    loot, loot caches, money and the cash value of a backpack;
  - `combat`, `projectile`: the split of damage between armor and health,
    and projectile lifetimes;
  - `contracts`, `squad`, `spawn`, `raid_summary`, `lock`: contracts and the
    squads that take them, spawn positions, raid summaries, locks and keys;
  - `states`, `matchmake`, `ui`, `compass`, `coordinates`, `text`: screen
    states, the matchmaking script, what the inventory screens show, the
    compass, map columns and number formatting.
- `tests/` runs the library on concrete values.
- `app/` is the bevy game: engine systems, screens, the test level and float
  geometry. It hands the library plain values and checks the library's
  preconditions with the library's own `can_*`/`*_fits` functions before each
  call.
