//! Queries over the ledger state: the active validator set of an epoch,
//! voting power, balances, evidence parameters, validator lookups by key,
//! address or Tendermint address, the timing of validator set updates and
//! the Ethereum addresses of validators.

pub mod codec;
pub mod laws;
pub mod lookup;
pub mod queries;
pub mod search;
pub mod types;
