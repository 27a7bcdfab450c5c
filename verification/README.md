# signal_hook

Unix signal handling, with the logic proved in Verus.

- `src/` is the verified library:
  - `vec_map` — a small map over an unsorted vector, keeping keys unique and insertion order;
  - `registry` — the registry of actions per signal (registration, removal, chaining of the
    previous handler, the copy made for each update);
  - `internal`, `low_level::siginfo` — signal causes and origins, and the `u64` encoding of a
    process;
  - `low_level::signal_details` — signal names;
  - `iterator::backend`, `iterator::exfiltrator` — the flags of received signals, the batches
    taken from them, the record of registered signals and the decisions of the infinite
    iterator;
  - `pipe` — the rules of the self-pipe (wake method, torn writes, message framing);
  - `windows` — which console events stand for which signals, and the target rule of the
    emulated `kill`.
- `app/` installs the handler with `sigaction`, publishes the registry to it, drives the pipes
  and adapts the iterator to mio, tokio and async-io.
- `tests/` exercises the library.
