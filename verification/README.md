# mediax

The verified core of MediaX, a desktop media player with transcoding and
image compression. The library is written in Verus: every function carries
a contract that Verus proves. The proofs rest on a small set of trusted
items in `src/codecs.rs`, `src/text.rs` and `src/system.rs`: wrappers around
`base64`, `image`, `oxipng`, `lofty` and a few `std` string functions whose
contracts Verus takes on trust, and the names given to their results. Each
says in its doc comment what it claims of the outside code.

## Layout

- `src/playback/` – the playback session (open, play, pause, stop, seek,
  rate, decoder and quality settings), audio and timing controls, the
  bookkeeping of the decode stream, cache recording, and the steps of the
  playback commands.
- `src/transcode/` – the transcode queue (at most three jobs at a time,
  cancellation, progress), the rules that turn requests into jobs (paths,
  formats, codecs, sizes, outcomes) and output file names.
- `src/tags.rs` – reading cover art from an audio file's bytes, cover art
  checks, base64 transport of covers, and the edits a tag write makes.
- `src/render.rs`, `src/perf.rs` – the frame queue, picture plane copies and
  decode-loop counters.
- `src/shell.rs`, `src/system.rs`, `src/updates.rs` – launch arguments and
  `mediax://` links, menu and media keys, what the system media controls
  show, and the updater's messages.
- `src/floatbits.rs` – the comparisons, `max` and `clamp` of times, rates and
  volumes, done on IEEE 754 bit patterns.
- `src/text.rs`, `src/paths.rs`, `src/codecs.rs` – string and path helpers
  and the calls into `base64`, `image`, `lofty` and `oxipng`.
- `app/` – plain Rust around the library: serializable copies of its types,
  tag writing with `lofty`, image file I/O and the `image`, `mozjpeg` and
  `webp` encoders, the floating-point media clocks, and the command layer (locks,
  clocks, file system).
- `tests/` – tests of the library on concrete values.
