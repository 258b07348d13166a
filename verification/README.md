# drift_ws

A websocket gateway to the Drift exchange, with its decisions verified by Verus.

`src/` is the library. It does no I/O.

- `decimal`: decimal numbers; arithmetic is that of the `rust_decimal` crate.
- `exchange`: the markets, orders, events and order books that the gateway reads.
- `account_event`: exchange events as one account is told of them.
- `names`: the words for order types, directions and market types.
- `subscription`: requests, and the record of the tasks that run for a client.
- `connection`: what each message from a client leads to.
- `feed`: the account and order book feeds, step by step.
- `reply`: refusals and their JSON text.

`app/` is the server around it: sockets, tasks, JSON of whole events, and the
exchange's SDK. `tests/` runs the library on given values.
