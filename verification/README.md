# k2_router_fuzz

The decision logic of the K2 lending-protocol fuzzers, verified with Verus:
how fuzz inputs are drawn from raw bytes (each generator's result is stated
as a function of the bytes, over named draws of `arbitrary`), which call a
fuzz step makes (for
the single-call steps of the multi-asset target, and for the admin, transfer
and configuration targets) and the amounts the multi-step sequences use, and
the invariant checks that judge what the protocol reports back.
The checks take the values read from the contracts as plain numbers, so every
one of them is a function with an exact contract.

Layout:

- `src/invariants.rs` – shared authorization, accounting, economic,
  flash-loan and two-step admin-transfer checks.
- `src/seeds.rs` – the byte encoding of hand-written seeds for the lending
  fuzzer.
- `src/common/` – the multi-asset fuzzer: operation model, pool simulation,
  input generation (through `arbitrary::Unstructured`), the executor's
  dispatch, snapshots of protocol
  state, the per-operation amount rules, the run ledger, statistics, the flash
  loan receivers' plans, and the invariant, conservation and economic checks.
- `src/targets/` – the input types and checks of the single-purpose fuzz
  targets (lending, liquidation, economics, flash loans, price scenarios,
  multi-asset isolation, reserve configuration, admin operations, admin
  transfer, authorization boundaries).
- `tests/` – scenario tests of the library.
- `app/` – the seed generator, the `Arbitrary` wrapper of the multi-asset
  input, the statistics reports, and the panics that turn a check that
  returned `false` into the crash the fuzzer reports.
