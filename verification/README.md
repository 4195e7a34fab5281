# netdiag

A network diagnostics toolkit whose decision logic is verified with Verus.

## Layout

- `src/` — the verified library:
  - `capture/` — capture filters (BPF expressions), packet decoding on top of
    `etherparse`, capture sessions and per-protocol statistics with top-talker
    and top-port rankings.
  - `daemon/` — daemon configuration and its validation, the IPC request
    handling state machine, the diagnostic scheduler, and monitoring status
    aggregation.
  - `autofix/` — remediation actions, fix planning ordered by severity,
    rollback points and their lifecycle.
  - `integrations/` — record handling for IP information, BGP looking glass,
    registry (RDAP/WHOIS), Shodan and SSL Labs services.
  - `path_analyzer.rs` — traceroute hop classification into network
    segments, ISP identification, issue detection, path health scoring and
    recommendations.
  - `traceroute.rs` — reading the hop lines of a system traceroute.
  - `diagnostics.rs` — the diagnostics run of the graphical front end: which
    tests run, what each concludes, and the report formats.
  - `connectivity.rs`, `net.rs`, `text.rs` — host-name heuristics, address
    handling and verified string helpers.
  - `cli.rs`, `gui.rs`, `android.rs` — the pure parts of the front ends.
- `app/` — the command-line program: argument parsing, file and socket I/O,
  system commands and everything that works with floating point.
- `tests/` — tests of the library on concrete values.

Verification uses `verus`; the tests and the program build with the crates
listed in `Cargo.toml`.
