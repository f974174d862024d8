# oomhero

A Kubernetes sidecar that watches the memory usage and pressure (PSI) of the processes
of its pod and signals them (or posts an HTTP notification) before the OOM killer
strikes.

The crate is a Verus library (`src/`) and a thin program around it (`app/`).

## Library (`src/`, verified)

- `text`: whitespace, trimming, splitting, `i32` and `u64` reading, `i32` writing, and the grammar of
  `f32` literals, each proved against a specification of the `str` operation it follows.
- `system`, `cgroups`, `v2::cgroups`: the procfs and cgroup file paths of a process, and
  the cgroups version from the filesystem magic number.
- `processes`: the parser of kernel pressure files, the selection of process ids among
  procfs entries, the command of a command line, and the figures of a process from the
  outcome of reading its files, with the reader's order of errors.
- `thresholds`, `arguments`: expression validation and compilation (through fasteval),
  each compiled expression kept beside the text it came from,
  the variables an expression can read, intervals (through duration-str), and the
  severity of an assessment.
- `daemons`: the monitor's decisions: which processes are assessed, which signal is due,
  the cooldown kept in a bounded moka cache (every record kept below its capacity), what
  follows a send, and the scan rate report.
- `metrics`: the gauges exported for a process.
- `signals`, `unix_signals_sender`, `http_signals_sender`, `events`, `errors`.

## Program (`app/`)

Command line, logging, the scan loop, file and network I/O, signal delivery, metric
export, and everything in floating point: the figures of a process as `f32`, expression
evaluation, and the event logger's deviation test.
