# shooter_client

The game-client rules of a wave-based first-person shooter, verified with Verus.

- `src/` — the library: weapons and ammunition (`weapons`), firing, reloading, weapon
  switching and aiming (`shooting`), the weapon shop (`shop`), application and menu state
  transitions (`flow`), cursor, crosshair and HUD texts (`hud`), graphics and server
  settings (`settings`), sound selection (`audio`), enemy animations (`enemy`), movement
  and camera decisions (`movement`), developer switches (`debug`) and decimal rendering
  of counters (`text`).
- `tests/` — executable tests of the library.
- `app/` — the program around it: the JSON settings file and the start-up configuration.
