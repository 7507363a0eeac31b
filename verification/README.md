# omegabot

A replay and practice bot for Geometry Dash, loaded into the game as a DLL.

- `src/` is the verified library, checked with Verus: replays of clicks
  (recording, playback, restarting, sorting, merging, cleaning), full
  frame-by-frame replays, the replay handler that decides what recording and
  playback do on each game event, the spam and straight-fly bot, practice
  checkpoints, the messages between the bot and its controller (their
  layout in `u16` words) and what the bot does with each, hacks as planned memory writes, the update lock, no-clip, and
  the layout of the game objects it reads. Frame rates and play times are
  held as the bit patterns of their `f32` and `f64` values.
- `app/` is the DLL around it: hooks into the game, reads and writes of the
  game's memory, the pipe to the controller, replay files, the C interface
  for the macro editor, and the floating-point frame timing.
- `tests/` runs the library on concrete values.
