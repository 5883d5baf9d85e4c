# pomodoro_timer

A Pomodoro timer whose core is verified with Verus.

- `src/` is the verified library:
  - `timer` — a pausable countdown timer over a monotonic clock;
  - `session` — the work/break state machine and the effects each step asks for;
  - `playlist` — playlist order, cursor moves, shuffle and resume points;
  - `thumbnails` — which track pictures to decode and show;
  - `form`, `settings`, `color`, `config` — the settings form, its parsers and formatters;
  - `display` — the texts shown on screen;
  - `media`, `text` — file-type and character helpers;
  - `window` — the compact window's timer logic.
- `app/` is the iced application around it: configuration file, audio output,
  file dialogs, image decoding and drawing.
- `tests/` exercises the library on concrete values.

Not carried over: the optional playback of video files as the background
(it needs the GStreamer crates, which cannot be built here) and the egui
drawing of the compact window (eframe is not available); the compact
window's timer logic is kept in `window`. Video files in a playlist are
still recognised and skipped as music.
