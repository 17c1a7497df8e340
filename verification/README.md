# excel_deno_bridge

A bridge that lets Excel (through VBA and COM) run JavaScript in an embedded
runtime, with the logic of the bridge verified by Verus.

- `src/` is the verified library: decoding of script requests to Excel
  objects (`proxy`, `json`), the conversions between JSON, COM variants and
  replies (`variant`, `text`), the registry of objects handed to scripts, the
  bounded event queue and the active-cell monitor (`events`), the host state
  (`bridge`), the script that wraps user code (`script`), UTF-16 decoding (`utf16`), and the properties
  that span several operations (`laws`).
- `app/` is the host: the DLL entry points, the JavaScript runtime and its
  ops, the COM calls into Excel, file and network access, threads and timers.
- `tests/` runs the library on concrete values.

The host uses `deno_core` for the JavaScript runtime. It is not named in
`Cargo.toml`: with the V8 engine it brings, its sources are larger than this
build environment accepts, so `app/` does not type-check here.
