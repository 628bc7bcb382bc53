# uniproc

The decision logic of a desktop process manager's application framework,
written in Verus with its contracts proved.

- `src/` is the verified library: trace-setting merges, the lifecycle of
  windows and the app (cleanups and leak reports), the window registry,
  window actions, loop decisions of the reactor, settings paths, table
  layouts and process-table planning, tabs, services, icons, and the
  naming, planning and checking done by the project's code-generating
  macros. Laws that span several functions stand as public proof functions
  named `law_*`.
- `tests/` runs the library on concrete values.
- `app/` is the ordinary Rust around it: reading the environment, running
  timers and shutdown plans, applying trace policies, and writing Rust
  tokens for handlers, app and window features, binders and actor
  manifests from the library's plans. Turning macro input into the
  library's token trees and loading the bindings schema are not part of
  the library.
