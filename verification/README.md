# yomiage

Converts text files to speech with the VOICEVOX Engine and serves the
generated WAV files with a small HTML player.

- `src/` is the verified library: configuration checks, line splitting and
  trimming, the progress of each target, the storage layout, the state
  machine of a conversion (what is regenerated and in which order files are
  written), and the decisions of the web pages. Each public function states
  its behaviour in `requires`/`ensures`; the `lemma_*` proof functions state
  properties that span several calls.
- `app/` is the program around it: environment and file I/O, TOML parsing,
  HTTP requests to VOICEVOX, WAV writing, the actix-web server and the
  polling loop.
- `tests/` runs the library on concrete inputs.
