# libfabric_rs

An asynchronous, ownership-based interface to libfabric, with a core that is proved in Verus.

`src/` is the core. It makes no call into libfabric and does no I/O. Every conversation with the
outside is a sequence of steps: a type of the core says what to do next, a driver does it and
reports what came of it.

- `builder`, `setup`: what is asked of an endpoint, and the calls that bring it up. Whichever
  call fails, what has been opened is closed, each object once and none before its children.
- `endpoint`, `operation`, `completion`, `signal`: transfers. The endpoint owns the buffer of a
  transfer until the fabric refuses or ends it. The buffer of a completed transfer goes back
  once, to its awaiter; the awaiter of one that failed is told so.
- `exchange`: swapping endpoint addresses over a TCP control channel.
- `buffer`, `address`, `error`, `text`, `constants`: the values that these share.
- `laws`: what holds across calls, as public proof functions.

`app/` is the driver: the libfabric calls, tokio's reactor and sockets, and the serializable form
of an address. It needs libfabric and its headers. `tests/` runs the core.
