# pomky

The verified core of pomky, a conky-like Linux system monitor built with GTK.

- `src/` is the library, checked by Verus: decimal and uptime text
  (`text`, `uptime`), byte units and durations (`util`), the settings, the
  settings file's path, window placement and the load/save decisions
  (`config`), disk space sums (`disk`), the watched network interfaces
  (`network`), the ranking of processes by CPU usage (`processes`), per-core
  widget names (`cpu`) and the drawing order of graph samples (`graph`).
- `app/` is the GTK program around it: it reads the system with `sysinfo`,
  reads and writes the settings file with `serde_json`, and draws with cairo.
- `tests/` runs the library on concrete values.
