# nowplaying

Get and control the media that is currently playing, on Linux (MPRIS), Windows (media sessions)
and macOS (media remote framework).

- `src/` is the library, verified with Verus. It holds the state of a player and how each reading
  changes it, what a command means on each platform, which player a command is routed to, when
  workers start and end, and how log messages are put together. It makes no system call.
- `app/` performs the calls: the program that logs what is playing, the platform back ends, and
  the Node.js module.
- `tests/` runs the library on concrete values.

Numbers in floating point pass through the library as their bit patterns (`state::Rate`); `app/`
computes with them.
