# neothesia

The logic of a piano-learning application, verified with Verus.

- `src/piano_layout`, `src/piano_math`: keyboard ranges, which keys a keyboard
  shows and in which order, split by octaves.
- `src/neothesia`: the playing scene's decisions: play-along scoring, rewinding,
  looping, the top bar's widgets, keyboard key states, staff notation steps,
  settings shortcuts, toasts, song configuration and the release check's parse.
- `src/nuon`: the UI toolkit's pointer bookkeeping, element ids, layer stack
  and retained state tree.
- `app/`: what stays outside the verifier: float geometry and layout,
  animations, MIDI and clock conversions, worker threads and the network call.
- `tests/`: tests of the library.
