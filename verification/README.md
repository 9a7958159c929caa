# zeron_core

The decision core of a device engine, in verified Rust: sign-in and session rules,
chat-room synchronisation rules, command delivery rules, and the wire forms around them.
Everything in it is a function of plain values. Sockets, files, timers and locks belong
to the caller.

- `src/auth` — the account of a device: sign-in, the session on disk, refreshes,
  organizations, and the callback server's requests.
- `src/chat` — a room's client: the blobs it reads and writes, what it does to the
  document, and its HTTP exchange.
- `src/host` — open documents: snapshots and their cursors, local updates, rooms,
  checkpoints, commands, deliveries, eviction and connectivity.
- `src/proto`, `src/rows.rs`, `src/json.rs` — what travels.
- `src/cli.rs`, `src/mcp.rs`, `src/profile.rs`, `src/edge_errors.rs` — the terminal's
  reports, the agent bridge, profiles, and messages of failed requests.
- `src/text.rs`, `src/encoding.rs`, `src/ids.rs` — text, encodings and ids.
- `app` — the loops, requests and files around the core.
- `tests` — the core on concrete values.

Work that waits for something outside is cut into steps: a function says what to do
next, and the outcome comes back as an argument of the next one. Each step's contract
says exactly what follows from each outcome. What holds over several steps is a public
proof function beside them.

A document changes behind a shared reference, so contracts say nothing of what it holds
at a time. They say which bytes went into which document with which outcome, which
versions it has had, and what a new document makes of the bytes it begins with.

What the core believes of other crates stands in the contracts of a few small functions,
each marked `external_body` and documented where it is: JSON text, UTF-8 repair, base64,
random ids, dates, status phrases, and the document library's version vectors,
imports and exports.
