# yak_mania

The rules of the Yak Mania game and of its player simulator, written in Verus
and proved against their contracts.

Yak Mania is a multiplayer pipeline game: Breeders breed yaks, Drivers take
them from the Warehouse, Shearers take them from the shearing shed. Fees
guide players toward the jobs that need them, from the gap between an ideal
distribution of players and the real one.

## Layout

- `src/` — the verified library.
  - `enums`, `ids`, `yak_counts`, `players`, `game_update`: the game's values.
  - `counts`, `ideal`: the game counters, the ideal distribution of players
    and yaks, the job differences that fees are made from, yak moves.
  - `subscription`: which updates a subscriber receives.
  - `json`: reading values of JSON texts and writing JSON objects.
  - `bot`, `api`, `websocket`, `cost`: the simulator's decisions — what a bot
    does next, how it reads GraphQL replies and retries, the real-time
    protocol's messages and steps, the DynamoDB capacity its calls cost.
  - `config`, `roster`, `text`: the roster file, one player per line.
  - `laws`: properties that span several functions.
- `tests/` — tests of the library on concrete values.
- `app/` — the simulator program around the library: HTTP and WebSocket I/O,
  files, timers, randomness, floating-point fees and costs, and the AppSync
  resolver glue.
