# ticketing_core

A Solana ticketing program whose rules are verified with Verus.

- `src/` is the verified library. Each instruction is a function from the
  accounts it reads and writes (as plain values), the signers' keys and the
  current time to updated accounts and the lamport amounts to move, or to a
  `TicketingError` with every account left as it was. Its contracts say which
  error comes first on which inputs, that the instruction succeeds on every
  other input, and what the accounts become then; the laws (`law_*` proof functions) state what holds across
  calls: inventory stays balanced, refunds and purchases are recorded once,
  cancelled and closed events stay so, timelocked changes wait, the revenue
  waterfall moves exactly the gross, settlements replay as no-ops, vault flows
  account for the balance, and so on.
- `tests/` runs the library on concrete accounts.
- `app/` is the Anchor program around it: account layouts and checks, lamport
  transfers through the system program, and events.

Program-derived addresses and SHA-256 digests (for correlation identifiers)
are computed by `solana-program` (through `anchor-lang`); the library names
their results and relies on nothing else about them.
