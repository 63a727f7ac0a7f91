# midi_core

The monitoring core of a desktop MIDI monitor, written in Verus: every rule
about what the user sees is an executable function with a contract, proved.

- `src/` — the library. Decoding received bytes into messages (`decoder`) and
  encoding composed messages back into bytes (`encoder`, with the round trip
  proved in `codec_laws`); the source catalogue and its selection (`source`,
  `monitor`); the filter and its prefix rules (`filter`); the bounded event
  log (`event_log`); how events are written (`rendering`, `display`); the send
  screen (`sendable`, `composition`, `request`, `sender`); the values handed to
  the interface (`dto`, `ipc_error`, `command_args`); and what the platform
  adapters share that knows no platform: listing ports, minting session ids,
  unpacking short messages and numbering events (`adapter`, `port_catalogue`,
  `session_ids`, `packed`, `worker`).
- `tests/` — tests run against the compiled library.
- `app/` — a headless shell: the settings document on disk, the system clock,
  the wire forms of the interface's values, and a session that prints what the
  interface would show as JSON lines.
