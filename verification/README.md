# SunRemoteDesktop

A host that shares the desktop of the physical console over RDP, together with the
proofs of what it does.

- `src/` is the library: every rule of the host, verified with Verus. Who may see the
  desktop and when (`access`, `auth`, `config`), which connection owns the display
  (`session`), what a client is sent (`display`, `updates`, `frame`, `bitmap`, `scene`,
  `layout`, `canvas`), what becomes of its input (`input`, `touch`, `windows`), how
  network-level authentication runs (`nla`, `credssp`, `negotiate`), what travels
  between the service and its console agent (`bridge`, `console`, `supervisor`), and
  what is remembered (`trust`, `trusted_clients`, `preferences`). Functions named
  `law_...` state what holds of the host as a whole.
- `app/` is the program around it: command line, files, sockets, the protocol server
  and the operating system. Capture, input injection, the service and the
  administration window are built on Windows only, where `eframe`, `windows`,
  `windows-service` and `xcap` are needed besides the crates in `Cargo.toml`.
- `tests/` runs the library.

The library holds no threads, sockets or files. Where a decision needs the outside
world, a function takes what the world answered and returns what to do next.
