# anno1800_agent

A data export agent for Anno 1800: hooked into the game, it reads production
buildings, residence consumption, trade routes and trade contracts from the
game's memory and sends them as JSON over UDP (port 1800).

- `src/` is the verified library. `memory` models a snapshot of process memory
  and its little-endian reads; `api` decodes the game's objects (hash maps with
  FNV-1a keys, array lists, UTF-16 string buffers, buildings, islands, trade
  routes and contracts) from such a snapshot; `hooks` builds the reports and
  chooses the host they go to; `ffi` computes the code patches of a hook;
  `loader` finds an exported function in a loaded module's export table.
- `app/` is the agent and the loader around it: it copies live memory into the
  snapshot as the library asks for it, patches the game's code, calls the
  game's own functions, and sends the reports.

What the agent sends differs from the game's own view in a few places, each
because a value it needs is not part of this project:

- wares are named by their number (`WareType(1010217)`), not by the game's
  ware names;
- the identifiers of blueprint buildings and of deposit and cultivation-area
  inputs are unknown, so `production_report` is called with no building type
  to skip and no inputs to leave out;
- an island without a custom name is sent under its text key: the game's
  text lookup (`Struct118::get_text` reads its result) has no known address;
- `island_id` is sent as `0`;
- the trade-contract hook is not installed: its address is unknown;
- no consumption-building or energy-building reports are sent: the building
  types they read are not part of this project.
