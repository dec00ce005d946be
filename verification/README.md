# lunatic_process (wasmtime runtime)

The part of lunatic's process runtime that drives wasmtime, written in Verus.

- `src/settings.rs` — the engine settings as plain values, the fuel budget of
  a process, and `EngineConfig`: a `wasmtime::Config` with the record of the
  options the library set on it.
- `src/store.rs` — `FueledStore`: a store with its engine, the record of the
  fuel, yield interval and limiter the library set up, and the data it owns
  while only the library has touched it.
- `src/runtime.rs` — the engine, the classic module path (compile, link
  against a `ProcessState`'s host functions, prepare a store, end a call).
- `src/component.rs` — the WASI Preview 2 component path, with or without
  outbound `wasi:http`; `SurfaceLinker` records the host surfaces that the
  linker-extending calls defined, and the compiled component keeps that list.
- `src/outcome.rs` — what a guest call ends with.
- `src/laws.rs` — properties that hold across these functions.
- `src/wasmtime_calls.rs` — the trusted calls into wasmtime and the WASI crates.
- `app/lib.rs` — the async steps (instantiation, calls) that await wasmtime.
