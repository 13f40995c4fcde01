//! What only the administrator may do: hand the office on, point the bridge
//! at another vault, and close or open it for deposits.

use crate::address::Address;
use crate::errors::NextBlockError;
use crate::state::ProgramState;
use vstd::prelude::*;

verus! {

/// Told to the outside when the office changed hands.
#[derive(Clone, Copy, Debug, PartialEq, Eq)]
pub struct AdminUpdated {
    pub old_admin: Address,
    pub new_admin: Address,
    pub timestamp: i64,
}

/// Told to the outside when the bridge was pointed at another vault.
#[derive(Clone, Copy, Debug, PartialEq, Eq)]
pub struct VaultAddressUpdated {
    pub old_address: [u8; 32],
    pub new_address: [u8; 32],
    pub timestamp: i64,
}

/// Told to the outside when the bridge was closed for deposits.
#[derive(Clone, Copy, Debug, PartialEq, Eq)]
pub struct ProgramPaused {
    pub admin: Address,
    pub timestamp: i64,
}

/// Told to the outside when the bridge was opened for deposits again.
#[derive(Clone, Copy, Debug, PartialEq, Eq)]
pub struct ProgramUnpaused {
    pub admin: Address,
    pub timestamp: i64,
}

/// `caller` holds the office.
pub open spec fn is_admin(state: ProgramState, caller: Address) -> bool {
    caller == state.admin
}

/// The record with the office handed to `new_admin`.
pub open spec fn with_admin(state: ProgramState, new_admin: Address) -> ProgramState {
    ProgramState { admin: new_admin, ..state }
}

/// The record pointed at the vault `new_vault_address`.
pub open spec fn with_vault(state: ProgramState, new_vault_address: [u8; 32]) -> ProgramState {
    ProgramState { base_vault_address: new_vault_address, ..state }
}

/// The record closed (`paused`) or open for deposits.
pub open spec fn with_paused(state: ProgramState, paused: bool) -> ProgramState {
    ProgramState { paused, ..state }
}

/// Lets only the administrator pass.
pub fn require_admin(state: &ProgramState, caller: &Address) -> (checked: Result<
    (),
    NextBlockError,
>)
    ensures
        checked == if is_admin(*state, *caller) {
            Ok::<(), NextBlockError>(())
        } else {
            Err(NextBlockError::Unauthorized)
        },
{
    if caller.same(&state.admin) {
        Ok(())
    } else {
        Err(NextBlockError::Unauthorized)
    }
}

/// Hands the office to `new_admin`. Anyone but the administrator is turned
/// down, and nothing changes.
pub fn update_admin(
    state: &mut ProgramState,
    caller: &Address,
    new_admin: Address,
    timestamp: i64,
) -> (out: Result<AdminUpdated, NextBlockError>)
    ensures
        is_admin(*old(state), *caller) ==> *final(state) == with_admin(*old(state), new_admin)
            && out == Ok::<AdminUpdated, NextBlockError>(
            AdminUpdated { old_admin: old(state).admin, new_admin, timestamp },
        ),
        !is_admin(*old(state), *caller) ==> *final(state) == *old(state) && out == Err::<
            AdminUpdated,
            NextBlockError,
        >(NextBlockError::Unauthorized),
{
    match require_admin(state, caller) {
        Err(error) => {
            return Err(error);
        },
        Ok(()) => {},
    }
    let old_admin = state.admin;
    state.admin = new_admin;
    Ok(AdminUpdated { old_admin, new_admin, timestamp })
}

/// Points the bridge at the vault `new_vault_address` on the destination
/// chain. Anyone but the administrator is turned down, and nothing changes.
pub fn update_vault_address(
    state: &mut ProgramState,
    caller: &Address,
    new_vault_address: [u8; 32],
    timestamp: i64,
) -> (out: Result<VaultAddressUpdated, NextBlockError>)
    ensures
        is_admin(*old(state), *caller) ==> *final(state) == with_vault(
            *old(state),
            new_vault_address,
        ) && out == Ok::<VaultAddressUpdated, NextBlockError>(
            VaultAddressUpdated {
                old_address: old(state).base_vault_address,
                new_address: new_vault_address,
                timestamp,
            },
        ),
        !is_admin(*old(state), *caller) ==> *final(state) == *old(state) && out == Err::<
            VaultAddressUpdated,
            NextBlockError,
        >(NextBlockError::Unauthorized),
{
    match require_admin(state, caller) {
        Err(error) => {
            return Err(error);
        },
        Ok(()) => {},
    }
    let old_address = state.base_vault_address;
    state.base_vault_address = new_vault_address;
    Ok(VaultAddressUpdated { old_address, new_address: new_vault_address, timestamp })
}

/// Closes the bridge for deposits; closing a closed bridge succeeds too.
/// Anyone but the administrator is turned down, and nothing changes.
pub fn pause(state: &mut ProgramState, caller: &Address, timestamp: i64) -> (out: Result<
    ProgramPaused,
    NextBlockError,
>)
    ensures
        is_admin(*old(state), *caller) ==> *final(state) == with_paused(*old(state), true) && out
            == Ok::<ProgramPaused, NextBlockError>(
            ProgramPaused { admin: old(state).admin, timestamp },
        ),
        !is_admin(*old(state), *caller) ==> *final(state) == *old(state) && out == Err::<
            ProgramPaused,
            NextBlockError,
        >(NextBlockError::Unauthorized),
{
    match require_admin(state, caller) {
        Err(error) => {
            return Err(error);
        },
        Ok(()) => {},
    }
    state.paused = true;
    Ok(ProgramPaused { admin: state.admin, timestamp })
}

/// Opens the bridge for deposits; opening an open bridge succeeds too.
/// Anyone but the administrator is turned down, and nothing changes.
pub fn unpause(state: &mut ProgramState, caller: &Address, timestamp: i64) -> (out: Result<
    ProgramUnpaused,
    NextBlockError,
>)
    ensures
        is_admin(*old(state), *caller) ==> *final(state) == with_paused(*old(state), false) && out
            == Ok::<ProgramUnpaused, NextBlockError>(
            ProgramUnpaused { admin: old(state).admin, timestamp },
        ),
        !is_admin(*old(state), *caller) ==> *final(state) == *old(state) && out == Err::<
            ProgramUnpaused,
            NextBlockError,
        >(NextBlockError::Unauthorized),
{
    match require_admin(state, caller) {
        Err(error) => {
            return Err(error);
        },
        Ok(()) => {},
    }
    state.paused = false;
    Ok(ProgramUnpaused { admin: state.admin, timestamp })
}

} // verus!
