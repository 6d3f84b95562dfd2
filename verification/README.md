# atlas_remote

The core of a self-hosted remote-desktop system, written in Verus: the ATLS
wire protocol, pairing and device authentication, session encryption, input
rules, adaptive bitrate, capture bookkeeping, STUN parsing, file-transfer
bookkeeping and the decisions of the relay services. Verus proves the
functions of `src/` against their contracts. Calls into the cryptography and
JSON crates, the random generators and the clock go through small trusted
functions whose contracts say what those crates and std document; those that
return a random draw or a clock reading promise nothing of the value, and
every function that depends on the time also exists in a form that takes
the time as an argument.

- `src/` — the verified library (`protocol`, `session`, `crypto`, `auth`,
  `input`, `abr`, `capture`, `network`, `file_transfer`, `relay`, `codec`,
  `device`, `config`, `telemetry`, `error`, and the helpers `wire`, `text`,
  `keyed`, `clock`).
- `tests/` — tests of the library on concrete values.
- `app/` — the host services around it: the TCP relay, the browser relay,
  configuration files, sockets, clocks, floating-point metrics and, on
  Windows, screen capture, NVENC and input injection.
