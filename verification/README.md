# ffx

An opinionated wrapper around FFmpeg for everyday media tasks (`compress`,
`to-mp4`, `gif`, `audio`, `thumb`, `cut`), with its planning logic verified
by Verus.

- `src/` is the verified library: the command-line values (`cli`), the
  errors (`error`), the FFmpeg runs each command plans (`commands`), the
  choice of an H.264 encoder (`utils::hwaccel`), output paths
  (`utils::file`), command rendering and the reading of `ffprobe` streams
  (`utils::ffmpeg`), text helpers with their specifications (`utils::text`),
  and properties that span these functions (`laws`).
- `app/` is the program around it: argument parsing, running processes,
  probing files, the worker pool, the file system, and the timestamp
  arithmetic of `cut`, which is floating point.
- `tests/` exercises the library.
