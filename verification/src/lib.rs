//! Collateralized Stablecoin Module (CSM): the verified decision logic of the
//! EUTC mint/redeem core, the collateral vault, the secondary reserve and its
//! buyback state machine, the feeder oracle adapter, the legacy-unit
//! conversion bridge and the test DEX router.
//!
//! Every contract is modelled as a state value plus handlers that take the
//! values the chain supplies (sender, block, query answers) and return the
//! next state together with the messages to emit.

pub mod types;
pub mod math;
pub mod consensus;
pub mod oracle;
pub mod adapter;
pub mod mint_redeem;
pub mod vault;
pub mod reserve;
pub mod bridge;
pub mod router;
