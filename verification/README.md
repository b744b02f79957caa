# qmp

A client library for the QEMU Machine Protocol, verified with Verus.

- `src/` is the library: every decision a QMP client makes, with its
  contract and proof — connection settings, the wire format of requests
  and received lines, correlation of responses with waiting calls, how a
  wait ends, the event stream's items, and the "safe ops" layer
  (allow-list policies, execution plans, retry/backoff, in-flight
  de-duplication with result caching). Laws that relate several functions
  are public proof functions next to the code they speak of (`law_*`).
- `app/` is the runtime around it: sockets, the reader task, channels,
  locks, sleeping, cancellation tokens, and the serde forms of the data
  types.
- `tests/` runs the library on concrete values.
