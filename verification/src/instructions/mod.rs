//! The requests that the bridge serves. Each is one step: it either applies
//! all of its effects or rejects the request and changes nothing.

pub mod admin;
pub mod deposit;
pub mod initialize;

pub use admin::{
    pause, require_admin, unpause, update_admin, update_vault_address, AdminUpdated,
    ProgramPaused, ProgramUnpaused, VaultAddressUpdated,
};
pub use deposit::{
    deposit_and_bridge, require_accepted_mint, validate_deposit, DepositInitiated, ACCEPTED_MINT,
    MAX_DEPOSIT, MIN_DEPOSIT,
};
pub use initialize::{initialize, ProgramInitialized};
