# Rungling Bay

A terminal helicopter combat game: fly an Osprey off a carrier, sink patrol boats,
destroy factories, tanks and anti-aircraft guns, and defend the carrier wave after wave.

## Layout

- `src/` — the rules engine, verified with Verus: world and camera geometry (`game`,
  `camera`), helicopter systems and lives (`heli`), keyboard and joystick decisions
  (`controls`), hit points and damage (`hull`), lock-on choice (`targeting`), what a
  round strikes (`strike`), carrier defence, drone reserves and wave progression
  (`battle`), explosions (`explosions`), entity slots (`pool`), deployment (`layout`),
  terrain looks (`terrain`), HUD readouts (`hud`), sprite layouts (`sprites`) and the
  sound catalogue, noise generator and playback throttle (`sound`). `dice` holds the two
  calls into `rand`; the functions that draw from it hand the drawn values to verified
  functions (`reload_from_roll`, `schedule_from_rolls`, `deck_fire`, `respawn_spark`,
  `scatter_age`) that say what follows from them.
  Public proof functions named `law_*` state properties that hold across calls.
- `app/` — the program around it: terminal setup and the event loop (crossterm,
  ratatui), audio synthesis and playback (rodio), logging (tracing), and the
  floating-point flight, projectile motion and hit boxes, which hand the library rounded
  cells, flags and distance keys.
- `tests/` — tests of the library on concrete values.
