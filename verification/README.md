# ruchei-ffi

Futures, streams, sinks and `tracing` subscribers that cross an FFI boundary.

- `src/` is the library: poll results and their panics, conversions between layouts,
  counted wakers, write-once registries, the answers of streams, dealers and routers, and
  the values that a subscriber is handed. Every function states what it does in a Verus
  contract, and the laws that relate them stand beside them as public proof functions.
- `app/` holds what surrounds the library: the types with a stable layout, the function
  tables and raw pointers behind them, and the implementations of `Future`, `Stream`,
  `Sink`, `RouteSink`, `Subscriber` and `Visit`.
- `tests/` runs the library with the crates that it is linked to.

What the proofs take on trust is marked in `src/`: the declared types, names and contracts
of functions of `abi_stable`, `async-ffi`, `bumpalo`, `dashmap`, `tracing-core` and `std`,
each with a comment that says what is claimed of it.
