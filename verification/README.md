# asyncio_bridge

Conversions between Rust futures and Python's `asyncio`, for any Rust async runtime, with contracts
that Verus proves.

- `src/` is the library. Every call to Python goes through an `Interpreter`, which keeps a record of
  the calls in ghost state. The contract of a function says exactly which calls it adds to the record,
  in which order, and how its result follows from the answers. Code that a caller hands in takes a
  `Turn`, which only the `Interpreter` gives out, together with an entry. The channel that carries a
  cancellation is polled through a `Listener`, which keeps a record of the signals. `src/laws.rs`
  states what holds across functions: that a Python future is completed at most once, that cancelling
  it cancels the Rust future, that a run closes the loop it has opened.
- `src/python.rs` and `src/oneshot.rs` declare what is believed of `pyo3` and `futures`. Nothing is
  believed of what Python answers.
- `app/` holds the Python classes, the async tasks and the functions that take a future.
- `tests/` runs the library against a real interpreter.
