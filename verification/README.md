# blackbox_log

A parser for Betaflight and INAV blackbox flight logs, written in Verus: each
function states what it does in `requires` / `ensures`, and Verus proves it.

## Layout

- `src/reader.rs`: a bit and byte reader over the bytes of a log.
- `src/decode/`: the field encodings (variable-length integers, Elias delta,
  tagged groups, negative 14-bit values).
- `src/header_lines.rs`, `src/headers/`: the header section, from its lines to
  the checked `Headers`, firmware version and date among them.
- `src/frame_defs.rs`, `src/frame/`: the frame definitions declared in the
  headers, and the fields of main, slow and GPS frames read by unit.
- `src/predictor.rs`, `src/data/`: the data section: decoding frames, applying
  the predictors, passing over corrupted frames, stopping at the end of the
  log, and the field filters.
- `src/units/`, `src/betaflight.rs`, `src/inav.rs`, `src/common.rs`: flight
  modes, states, features and the other values with a meaning.
- `src/file.rs`: a file of several logs.
- `tests/`: the tests.
- `app/`: a program that reads a log file and prints what it holds; it also
  holds what needs floating point or text formatting.

Calls into `bitter`, `bitvec`, `hashbrown`, `memchr` and `time` stand behind a
few trusted wrappers, each with a doc comment that says what it claims.
