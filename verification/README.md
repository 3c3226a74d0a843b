# thermagentd

The local enforcement agent of ThermAgent: it reads a policy, samples thermal,
CPU, GPU and power telemetry, reads a workload hint, chooses an `nvpmodel`
mode and a CPU governor, applies them, and serves Prometheus metrics.

- `src/` is the verified library (Verus): policy reading and checking with
  its allowlists, the command line, the decision with its hysteresis and its
  fallback when no temperature can be read, the hold on `nvpmodel` changes,
  workload hints, the governor table, the Prometheus text, the state file's
  text, and the small sysfs and actuation rules.
- `app/main.rs` is the daemon around it: files, sysfs, the clock, processes,
  sockets, threads, and the floating-point thresholds and readings, which the
  library takes as comparison results and as formatted text.
- `tests/` runs the library on concrete inputs.
