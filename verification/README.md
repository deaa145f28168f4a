# fabric-rust (verified core)

The Rust SDK of a Fabric language module that lets Minecraft mods write their
entrypoints in Rust, split in two:

- `src/` is verified with Verus: the log levels shared with the Java side
  (`level`), the entrypoint-table check (`entries`), the checks and the
  outcome of a registration (`registration`), the messages of the entrypoint
  shim (`entrypoint`), the stderr fallback of the log macros (`logging`), panic
  payload messages (`payload`) and the SDK error (`error`).
- `app/` is the JNI plumbing around it: the `fabric_rust_register` body, the
  panic-catching entrypoint shim, the log macros and the JNI reference cache.
  It performs the JNI calls, panic catches and stderr writes. The table check,
  the order of the registration steps, the reported code and thrown message,
  the panic texts and the stderr fallback line come from the library; app/
  itself decides what only the outside world shows: the null-`JNIEnv` guards,
  whether the log cache is already filled, whether the logging upcall could be
  made, and which kind of value a caught panic carried.

`tests/` exercises the library through its public functions.
