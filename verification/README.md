# fund_commands

The operation commands of a restaking fund, as a verified library: each
command's steps (planning, account checks, bookkeeping, the hand-over to the
next step or command) are functions with exact contracts, proved by Verus.

- `src/` — the library. `operation_command` holds the command enum, its
  fixed-size stored form and the hand-over between commands; each `cmdN_*`
  module holds the steps of one command; `iteration`, `math` and `pricing`
  hold what several commands share; `programs` holds the few trusted calls
  into the Solana crates (program ids, associated token account addresses).
- `tests/` — tests on concrete values, run against the compiled library.
- `app/` — what stays outside the verified library: address conversion to
  the runtime's type, log text, and the withdrawal fee rate adjustment, which
  uses floating point.

The fund's own services (pricing, allocation strategy, stake pool and vault
programs) are not part of this library; what they report is taken as input.
