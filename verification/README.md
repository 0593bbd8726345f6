# liquidators

The game logic of Liquidators, a multiplayer 2D sandbox shooter, as a library
whose behaviour is stated in `requires` / `ensures` contracts and proved with
Verus.

- `src/` – the verified library: chat and debug console, the framing of
  network messages (LZ4 through `lz4_flex`), points in time, the pistol's
  magazine, the muzzle flash and its diffs, grenade fuses, match modes
  (deathmatch, wave survival), the client's main-loop decisions, entity
  ownership, players and enemies, the level editors' selection, copy,
  delete and placing, context menus, physics squares, bricks, radios, trees
  and wood.
- `tests/` – tests of the library on concrete values.
- `app/` – a client shell around the library: the window, input, drawing
  and sound, sockets, serde and diff copies of the library's types, and the
  `f32` vector, rectangle and colour types of the game.

The game's physics world (bodies, colliders, joints) is not part of this
crate: the library holds the handles of bodies that a caller makes, takes
what it decides on as integers, booleans and strings, and hands back
decisions; the shell runs no level.
