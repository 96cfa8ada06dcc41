# tarrowyn_repository

The settlement rules of the Tarrowyn world server, written in Verus: every
function in `src/` carries a contract over a mathematical model of its data,
and Verus proves the code against it.

## Layout

- `src/` — the verified library, one module per system of the world:
  - land and shelter: `claims`, `homestead`, `placement`, `property`;
  - settlement life: `governance`, `upkeep`, `taxes`, `households`,
    `professions`, `knowledge`, `lessons`, `storehouse`, `cooperation`,
    `journey`, `chronicle`, `chat`;
  - the frontier and the region: `frontier`, `watch`, `adventurer`,
    `combat`, `gathering`, `forge`, `farming`, `travel`, `market`, `region`;
  - shared pieces: `text`, `errors`, `retention`, `events`, `ledger`,
    `replay` (the replay cache), `migration`, `restore`, which brings a
    saved world back within bounds, and `commands`, the request path around
    a decision (checks, replay, chronicle, counters).
  Each module states its rules as open spec functions, proves its
  executable functions against them, and ends with the laws that hold
  across calls (`lemma_*` proof functions).
- `tests/` — scenarios run against the compiled library.
- `app/` — what the library leaves to its host: the wall clock, snapshot
  files on disk, and serde copies of the stored property records.
