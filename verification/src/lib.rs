//! Control plane of a stablecoin bridge: the deposit ledger, the fixed-width
//! cross-chain message, derived sub-account addresses, and the administrative
//! switches, each with a machine-checked contract.

pub mod address;
pub mod cctp;
pub mod errors;
pub mod instructions;
pub mod ledger;
pub mod state;
pub mod wire;
