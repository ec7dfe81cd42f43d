# portal2_sdk

A Source Engine (Portal 2) server-plugin SDK whose decisions and computations are
written in Verus and proved against their contracts.

- `src/` is the verified library: signature scanning of module memory images
  (`memory`), integer parsing and C-string decoding (`text`), console-variable,
  contents, mask and surface flags (`cvar`, `masks`), trace results,
  among them whether a trace hit an entity other than the world (`trace`), entity
  handles and entity key-value decisions (`entity`), the walk over the server's
  entity list (`entities`), the game-event listener registry
  (`game_events`), and the engine-owned types that engine calls pass around.
- `tests/` exercises the library on concrete values.
- `app/` holds the engine side: the interface lookup through the Windows loader,
  the `thiscall` function tables of the engine interfaces, and the calls that
  read and write engine memory. It only builds for 32-bit Windows, the engine's
  platform. It calls the library for its decisions, except those on floating-point
  values (hit fractions, distances, parsed coordinates), which stay there.
