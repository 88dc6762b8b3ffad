# neko_cli

The verified core of `neko`, the command-line research probe of the
nekomusume Session transport: every rule that decides what the probe accepts,
reads, writes and reports, specified by contracts and proved with Verus.

## Layout

- `src/` — the library, all of it verified:
  - `text`, `net`, `error` — characters, decimal and hexadecimal numbers,
    socket addresses as plain values, kinds of I/O failure;
  - `cli`, `runners`, `failover`, `multistream`, `periodic`, `matrix` — the
    bounded options of every command, each checked in the order the probe
    checks them, with the exact message of the first failure;
  - `keys`, `identity` — hexadecimal keys, payload digests (SHA-256 through
    the `sha2` crate), and the identity file format with its round trip;
  - `framed`, `preauth` — the length-prefixed frame reader and the bounded
    response writer as step machines (a driver owns the socket and the
    clock), the pre-authentication source key and accounting rules;
  - `lifecycle`, `health_window`, `demux`, `deadline` — the service
    lifecycle, the health observation window, the classification of
    delivery acknowledgements, and socket-wait deadlines;
  - `reachability`, `capabilities`, `report`, `limits` — the local
    reachability request and artifact, the capabilities report, progress
    lines, and session resource limits.
- `tests/` — tests of the library on concrete values.
- `app/` — the `neko` program: command-line dispatch, sockets, files and
  printing. Runs that need the Session, crypto and carrier runtime check their
  options and stop, since that runtime is not part of this build.
