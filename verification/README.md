# BlazeChat

A WebSocket chat server whose instances share rooms through Redis, and a load generator for it.

- `src/` is a Verus library that makes the decisions. It does no I/O: sessions, the wait for Redis,
  the Redis subscriber and the load generator's clients are state machines that take events and
  answer with actions. `session_laws` and `bench_laws` prove what holds of them over time.
- `app/` is the program around it: sockets, timers, HTTP, JSON and the command line.
  `blazechat` runs the server, `blazechat bench` the load generator.
- `tests/` runs the library.

The server reads `BIND_ADDR`, `REDIS_URL`, `INSTANCE_ID` and `FANOUT_CAPACITY`.
