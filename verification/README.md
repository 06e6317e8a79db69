# mania

The logic of a QQ NT protocol client, verified with Verus: how pushed messages and notices are
read, what the client tells its listeners, how message media are filled in, how the account and
member caches answer lookups, how logins, profiles, friend and member lists are read, and how
the client keeps its session.

## Layout

- `src/` — the verified library.
  - `event/` — the server's events: pushed messages and notices (`push_msg`, `notify`), logins
    (`login`), profiles (`user_info`), friend and member lists and small system requests
    (`system`), group requests (`group_requests`), media links (`media`), sent and forwarded
    messages (`chat`); `event.rs` holds the service commands.
  - `business/` — the client's logic: the messaging logic (`messaging_logic`), filling in a
    message's media (`chain_media`), the client's own state (`system_logic`) and the requests
    waiting for their answer (`pending`).
  - `cache.rs`, `store.rs` — the account and member caches, over `dashmap`.
  - `context.rs`, `connect.rs`, `highway.rs` — the client's identity and keys, the choice of
    server, and image uploads.
  - `proto.rs`, `message.rs`, `entity.rs`, `dispatch.rs`, `error.rs` — the records the logic
    reads and writes.
  - `text.rs`, `codec.rs`, `time.rs` — text, hex and digests, and calendar time.
- `tests/` — tests of the library on concrete values.
- `app/` — what talks to the world: files, HTTP, DNS and timing, and the async loops that run
  the library's decisions.

Outside work (network requests, decoding protobuf messages, the clock) is never done inside the
library: a function there says what it needs next, and another takes the answer.
