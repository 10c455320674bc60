# kokage

Supervised actors with typed mailboxes: OTP-style scopes, restart-stable actor
references, latest-wins mailboxes, monitoring and timers.

- `src/` holds the decisions, written and proved in Verus. Shared state is taken
  by `&mut`, identities are integers, and time is nanoseconds of a clock's
  origin. Laws that span several functions are the proof functions named
  `law_*`.
- `app/` runs those decisions on Tokio: tasks, timers, locks, cancellation and
  the records that are stored or sent.
- `tests/` runs the library on concrete values.

What is believed without proof stands in `src/transport.rs`, `src/channel.rs`,
`src/clock.rs`, `src/error.rs` and `src/host.rs`, marked `external_body`, each
with the outside function that it calls. Channels, locks, flags and signals are
shared, so a call on one returns a receipt of what it found and left there; the
contracts of the mailbox handles speak of these receipts.
