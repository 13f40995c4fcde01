//! Setting the bridge up.

use crate::address::Address;
use crate::state::ProgramState;
use vstd::prelude::*;

verus! {

/// Told to the outside when the bridge was set up.
#[derive(Clone, Copy, Debug, PartialEq, Eq)]
pub struct ProgramInitialized {
    pub admin: Address,
    pub base_vault_address: [u8; 32],
    pub timestamp: i64,
}

/// The configuration record of a bridge that has accepted nothing yet.
pub open spec fn fresh_state(admin: Address, base_vault_address: [u8; 32], bump: u8)
    -> ProgramState {
    ProgramState {
        admin,
        base_vault_address,
        paused: false,
        total_deposits: 0,
        deposit_count: 0,
        bump,
    }
}

/// Sets the bridge up: whoever asks becomes the administrator, deposits are
/// open, and the totals start at zero. `bump` is the disambiguation byte of
/// the record's address and `timestamp` the time of the request.
pub fn initialize(admin: Address, base_vault_address: [u8; 32], bump: u8, timestamp: i64) -> (out:
    (ProgramState, ProgramInitialized))
    ensures
        out.0 == fresh_state(admin, base_vault_address, bump),
        out.1 == (ProgramInitialized { admin, base_vault_address, timestamp }),
{
    let state = ProgramState {
        admin,
        base_vault_address,
        paused: false,
        total_deposits: 0,
        deposit_count: 0,
        bump,
    };
    let event = ProgramInitialized {
        admin: state.admin,
        base_vault_address: state.base_vault_address,
        timestamp,
    };
    (state, event)
}

} // verus!
