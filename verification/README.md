# uma

A library for the Universal Money Address protocol, verified with Verus: it builds and
signs the messages that two VASPs (virtual asset service providers) exchange to make a
payment, and checks the messages of the other side.

- `src/uma/` holds the steps of a payment: the request that opens it (`request`), its
  answer (`response`), the request for an invoice and its answer (`pay`), fetching the
  other side's public keys (`keys`) and addresses (`address`).
- `src/protocol/` holds the messages.
- `src/signature.rs`, `src/encryption.rs`, `src/hexadecimal.rs`, `src/json.rs`,
  `src/web.rs` and `src/ambient.rs` hold the calls into other crates, with what is
  relied on of them.
- `app/` reads and writes JSON, fetches keys over HTTP and converts amounts at a rate.

Each function's contract states its result exactly, over views of the messages. What
depends on a random nonce or on the clock comes in two forms: one that takes them as
arguments, and one that makes them and says that its result is the first one's for some
nonce and some time.
