# pydriver

The core of a Python driver for a CQL database: futures that Python code can await, wait for and be
called back by, the requests of a session, and the values that are bound to a statement. The
decisions are written in Verus and proved against their contracts; what is left outside is asking
Python, tokio and the database, and turning the answers into the types of the library and back.

- `src/exception.rs`: exceptions, and the outcome of a future.
- `src/callbacks.rs`: callbacks, and which of them an outcome fires.
- `src/coroutine.rs`: the coroutine around a future while the asyncio event loop drives it.
- `src/future.rs`: the life of a future. `state.rs` has its states and what a transition asks for,
  `steps.rs` what each operation does, `laws.rs` what holds over the whole life of a future.
- `src/session.rs`: what can be run or prepared, and how.
- `src/value_list.rs`: how values are paired up with columns; `laws.rs` has what holds of a row as a
  whole.
- `src/shared.rs`: what is relied on of `Arc`.
- `app/`: the Python module around it. It takes the lock, polls, spawns, waits, calls into Python and
  talks to the database, as the library asks.
- `tests/`: the library on concrete values.

The library knows nothing of Python, tokio or the network. A Python object, a waker or an abort
handle is a type parameter to it, and what has to be done outside is returned as a step or a list of
effects, in order.
