# simeis

The verified core of Simeis, a multiplayer space-trading game played through
an HTTP interface.

- `src/` is the library, written in Verus: every function has a contract,
  and all but a few thin wrappers around std, rand, urlencoding, base64 and
  serde_json calls are proved against it.
  - `syslog`: the bounded per-player event queues.
  - `ship::resources`, `ship::module`, `ship::upgrade`, `industry`, `crew`:
    the catalogues of resources, modules, upgrades, industry units and crew
    roles, with their case-insensitive parsers; crew management on stations
    (hiring, assigning the trader, boarding pilots and operators).
  - `galaxy`: the index of space objects by coordinates, planets and what
    they hold, and scan results (nearest planet); `ship::module` also says
    which resources a module extracts from a planet, and `ship::rules` what a
    tick does to a ship, which ships a shipyard keeps and in which order a
    purchase is checked.
  - `client`: what the HTTP client reads from the server's answers.
  - `game`: the decisions of the game loop (run a tick or stop, how long to
    pause between ticks).
  - `bot`: the decisions of the example player (how it equips itself, the
    order of a mining round, what it sells).
  - `auth`: reading a player's key out of a request's query string.
  - `json`: looking up a dotted path in a JSON document.
  - `errors`: the refusals the game answers with, and their messages.
- `app/` is ordinary Rust around it: the HTTP server, the game loop, the
  market, prices, wages and cargo (floating point numbers), the shipyard and
  the ships' modules, crew, upgrades, refuelling and repair, the HTTP client
  and an example player. The project's sources lack the module that flies
  ships and runs their extraction, so the server answers neither travel nor
  extraction requests, and its ships stay docked where they were bought.
- `tests/` exercises the library.

The game's sources hold two generations of the game logic; the library
follows the newer one (case-insensitive names, two module types, boarding
through the station's crew), not the older prototype.

