# vmexeccapi

The C interface of a WebAssembly execution engine, with its logic verified by Verus.

- `src/` is the verified library.
  - `handle_registry`: the typed registry of executors and instances. Handles are numbers
    that are never issued twice.
  - `pointers`: the checks that entry points make on handles and pointers.
  - `reply`: what an entry point answers.
  - `capi_executor`, `capi_instance_cache`: the decisions of the entry points.
  - `decimal`: numbers in messages.
  - `laws`: what holds over any sequence of calls.
- `app/` is the foreign-function layer: the exported functions, the process-wide state, and
  the traits that an engine implements.
- `tests/` runs the library on concrete values.
