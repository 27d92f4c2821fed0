# citadel_internal_service

The agent that runs next to a user and holds their sessions with workspace servers, and the
clients that talk to it. The logic is a Verus library under `src/`; `app/` puts it on sockets,
timers and tasks.

- `src/types` — the requests, the responses, and what they are made of.
- `src/connector` — who may open the agent's socket, and what its frames mean.
- `src/messenger` — several local clients on one connection: the wire format, the routing, and the
  rules of the store behind message delivery.
- `src/kernel` — the agent: its clients, sessions, groups, calls and reconnects.
- `src/client` — the client in a page: its connection, its messengers and what it has not taken yet.
- `src/text.rs`, `src/bytes.rs`, `src/duration.rs`, `src/sequences.rs` — texts, bytes, spans of time
  and the facts about sequences that the rest uses.

Contracts stand on the functions. What holds of several functions together is stated by the public
proof functions whose names begin with `law_`. Calls into other crates go through functions marked
`external_body`, whose doc comments say what is taken for granted.

`tests/` runs the library, with the real crates behind it.
