# wise_liquidity

Verified core of the Wise liquidity transformer and of the synthetic CSPR
token (SCSPR) for the Casper platform, written in Verus.

- `src/` is the library. Every function in it is verified; the contracts
  speak of the mathematical values of amounts (`U256` viewed as a natural
  number below 2^256) and of the contracts' stored values.
  - `liquidity_transformer`: the reservation phase (reservations in CSPR
    or through a token swap, refunds, forwarding the liquidity, payouts),
    with the invariant that every operation keeps (`consistent`) and the
    laws that span operations (`laws.rs`).
  - `synthetic_token`, `synthetic_helper`: the pool formulas of the
    synthetic token (evaluation, trading fees, arbitrage amounts).
  - `scspr`: the synthetic CSPR contract's checks and phases, and
    `scspr::flow`, deposits and withdrawals as a sequence of verified
    steps that hand the calls to other contracts to the host.
  - `u256`: 256-bit amounts; arithmetic is done by `casper_types::U256`
    behind a few trusted wrappers whose contracts are stated there.
- `app/` is the contract glue (entry points, storage, calls to other
  contracts, purses). It is ordinary Rust and is not verified.
- `tests/` runs the library on concrete values.
