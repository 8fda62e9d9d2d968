# Accounts background service

The decisions of the service that looks after the accounts of a validator in the
background, verified with Verus:

- which of the snapshot requests that are waiting is handled, and whether it
  becomes a full snapshot, an incremental one, an epoch accounts hash or an
  accounts hash verification (`src/request.rs`, `src/package.rs`,
  `src/handler.rs`);
- which work handling it takes, in which order (`src/handling.rs`), and which
  errors end the node (`src/error.rs`);
- what one round of the background loop does to the root bank, and what it keeps
  for the next (`src/service.rs`, `src/round.rs`, `src/history.rs`);
- how the service hears of dropped banks and what is purged for them
  (`src/pruned.rs`).

`src/channel.rs` and `src/jitter.rs` hold the calls into `crossbeam_channel` and
`rand`; their contracts are trusted.

`app/` runs the decisions on a runtime: the thread, the clock, the log, and the
calls into the banks, behind the traits of `app/runtime.rs`.
