# swap_contract

The logic of an atomic-order token swap contract for Injective spot markets,
with machine-checked contracts and proofs.

A swap passes a coin through one or more spot markets; each step is an atomic
market order whose price and quantity are estimated from the order book. The
library decides everything that does not need the chain: route keys and route
checks, configuration updates, per-step estimates from order-book levels, fee
accounting, exact-output refunds and the bookkeeping between the orders of a
swap. Decimal arithmetic is done by `injective_math::FPDecimal`, whose
operations the library calls through small trusted wrappers with stated
contracts.

Layout:

- `src/` — the library with its contracts (`decimal`, `helpers`, `types`, `state`,
  `msg`, `admin`, `orderbook`, `queries`, `swap`, `contract`, `error`, `test_utils`).
  Public proof functions named `law_*` state properties that span functions.
- `tests/` — tests of the library on concrete values.
- `app/` — the contract around the library: entry points, storage, chain
  queries, order messages and reply decoding.
