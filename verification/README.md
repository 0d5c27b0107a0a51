# ecdysis

Graceful process upgrades: a process that listens on sockets launches its successor, hands it the
sockets, waits until it is ready, and only then stops.

* `src/` is the verified library: which descriptors are handed down and found again, how a socket is
  opened, how a child is launched and judged, what fires an upgrade or a stop, and what a process
  does from readiness to its end. It makes no system call: a function that needs one returns what
  has to be done, and the outcome goes to the next function.
* `tests/` runs the library on concrete values.
* `app/` carries the steps out, with blocking sockets and on tokio.

The laws of the library are the public proof functions whose names begin with `law_`: those on
sockets across upgrades in `src/handover.rs`, those on the whole life of a process in
`src/tokio_ecdysis/life.rs`, the others beside the functions that they speak of.
