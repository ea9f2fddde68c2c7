# sine_music_player

The decision logic of a desktop music player, verified with Verus.

- `src/audio_engine/` — the playlist engine. `steps.rs` states what every
  command does to the status (`StatusModel`); `engine_commands.rs` holds the
  commands, each proved to follow its step; `laws.rs` proves what holds across
  commands: every command but clearing keeps the status well formed (the play
  order is a permutation of the playlist, and the identity while shuffle is
  off); clearing keeps it only for an already empty playlist, since it leaves
  the old play order behind. Shuffle never changes
  the current track, skipping forward and back returns to the same track, and
  so on. `music.rs` builds a track from what was read of its file.
- `src/helpers.rs` — the texts and metadata that the window shows of a status.
- `app/` — the program around the library: the audio thread that plays what
  the engine decides (rodio), reads tags (lofty) and walks folders (walkdir),
  and a terminal front end.
