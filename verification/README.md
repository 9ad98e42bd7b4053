# riffra

The verified core of the Riffra audio workstation, written in Verus. The
rules of the workstation (asset identity and provenance, recording captures
and their takes, the rack and its plugin slot, projection of the arrangement
to the native runtime, transport intent, startup safety, background jobs,
plugin validation) and its byte formats (WAV, Standard MIDI, the native line
protocol) are executable Rust functions whose contracts Verus proves.

## Layout

- `src/` — the library. Each module states its model with spec functions
  and views, and its laws as public proof functions (`law_…`). Calls into
  `uuid`, `serde_json` and `std::path` go through a few small trusted
  wrappers, each documented where it is declared.
- `tests/` — tests of the library on concrete values.
- `app/` — ordinary Rust around the library: the SQLite asset store, the
  native process line handling, plugin scanning with child processes and
  threads, floating-point mixing for offline render, rack changes against the
  runtime, and moving takes in the recording Inbox. It reads, writes and
  calls; the decisions it acts on are the library's.
