# tkspeed

The verified core of TkSpeed, a Windows performance assistant. The rules it
lives by are written in Verus and proved: the health score and its bands, the
capability matrix, the optimization catalog and configuration registry, the
profiles and their activation plans, recommendations, keep/revert decisions
on benchmark evidence, reversible actions with snapshots, integrity hashes and
rollback, game-launcher parsing, process matching for the live monitor, and
the benchmark rules that do not need floating point.

Layout:

- `src/` — the library; every function carries a contract, and the laws of
  the library (what a rollback undoes, what verification reports, what a
  history of recordings counts, …) are public proof functions.
- `tests/` — tests of the library on concrete values.
- `app/` — a command-line front end: sampling with sysinfo/NVML, registry and
  power-plan I/O, file moves, and the floating-point statistics of the
  benchmark lab. It hands plain values to the library and performs the steps
  the library decides: optimization runs, profile activation (measured or
  not), rollback of stored snapshots, and the live monitor. Snapshots,
  evidence counters and the profile state are kept in a JSON file.
