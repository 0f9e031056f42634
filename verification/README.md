# pmc-ledger: verified Action persistence

The product ledger keeps Action Requests, the Actions accepted from them,
and the approval flow around them (previews that are prepared, approved,
rejected or refused).  Every command is recorded under an idempotency key
in a replay capsule, so a retried command returns what the first one
returned, and the whole namespace can be rebuilt from its stored rows.

This crate models the ledger in memory and holds the decisions of its
SQLite adapter, written in Verus and proved against their contracts: which
rows a command writes, what a set of stored rows decodes to, and what a
replay of them gives back.

- `ledger`, `approvals`: the in-memory ledger and its commands (create,
  submit, decline, withdraw, start, link completion evidence, prepare,
  approve and execute, reject), each stated over a model of the ledger;
  `laws`, `approval_laws` prove idempotent replay, key conflicts, refusals
  that change nothing, and what each command records.
- `requests`, `request_activity`, `decision_activity`, `prepared_rows`,
  `support`, `executions`, `terminal_executions`, `denials`, `rejections`,
  `lowerings`, `action_events`, `namespace_counts`: decoding the stored
  rows back into records and replay capsules, each with an exact model of
  what a set of rows decodes to and when it is an invalid snapshot;
  `activity` replays the recorded Action activity in ordinal order through
  those decoders, keeping the pending and discarded previews, and
  `namespace` puts the loaded parts together in operation order;
  `prepared_rows`,
  `action_events`, `executions`, `rejections` and `lowerings` also encode
  the rows that a preparation, a start, a link, an approved execution or
  a rejection writes, proved to decode to what was recorded; `replay_laws` proves that
  the rows persisting a command the ledger applied decode to the capsule
  it recorded and, replayed in order, to the state it left.
- `composition`: the portfolio relationship read, which keeps each
  relationship stored with exactly one pair of endpoints.
- `states`, `causes`, `errors`, `evidence`, `terminal_errors`, `versions`:
  the persisted vocabulary, with round-trip lemmas.
- `sqlite_errors`, `audit_id`: the two places the library calls outside
  crates (`rusqlite` errors, `sha2` digests), behind trusted items.

`app/` holds the SQLite reads around the library; it does not write.  `tests/` runs the
library on concrete values.
