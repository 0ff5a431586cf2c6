# musicplayer

The core of a HiFi desktop music player, written in Verus: the functions in
`src/` carry contracts that Verus proves, except a few small wrappers around
std, `rand` and `base64` (marked `#[verifier::external_body]`), whose
contracts are trusted and say in their doc comments what they claim.

- `src/` — the verified library: the play queue and its four playback modes
  for both audio backends (`playback`, `wasapi_backend`), the control block
  read by the exclusive-mode audio callback (`wasapi_control`), track-name
  parsing, the import rules and the per-file import decision (`import`),
  LRC line structure and the choice of lyrics source (`lyrics_parser`), the
  dropped-file list (`dropped_files`), sample-buffer skipping (`pipeline`),
  error messages (`error`), time formatting, and the theme system (`theme`,
  `styles`, `ui`). Public proof functions named `law_*`
  state the properties that hold across calls.
- `tests/` — tests of the library on concrete values.
- `app/` — the program around it: audio output (rodio, cpal), decoding
  (symphonia), DSP and FFT, tag reading (audiotags, lofty), the SQLite
  library (rusqlite), folder walking (walkdir, tokio) and a console front end.
