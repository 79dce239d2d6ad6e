# csm

The Collateralized Stablecoin Module (CSM) for Terra Classic: EUTC is minted
against EURC/USDC collateral and redeemed against it, with fees routed to a
secondary reserve that buys back LUNC, under daily caps, a dynamic spread, a
flash fee and a solvency floor.

## Layout

- `src/` — the verified library (Verus). Each contract is a state value with
  handlers that take what the chain supplies (sender, block, query answers)
  and return the next state and the messages to emit; contracts state those
  results exactly, and the protocol's laws are public proof functions.
  - `types.rs` collateral kinds, parameters and their validation, ledgers
  - `math.rs` ratio arithmetic and decimal text from cosmwasm-std
  - `consensus.rs` chain consensus rates and the legacy denom registry
  - `oracle.rs`, `adapter.rs` price observations, freshness, feeder adapter
  - `mint_redeem.rs` the core: mint, redeem, caps, spread, flash fee, admin,
    diagnostics
  - `vault.rs` collateral custody; `reserve.rs` fee reserve and buybacks
  - `bridge.rs` legacy-unit conversion claims with linear vesting
  - `router.rs` the deterministic DEX router used in tests
- `tests/` — scenario tests driving the library, including a small chain
  harness that executes the emitted messages.
- `app/` — the chain programs: entry points, storage, JSON message shapes,
  chain queries and error texts around the library.
