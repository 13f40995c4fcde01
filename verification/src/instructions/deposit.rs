//! Accepting a deposit for the destination chain.

use crate::address::{all_zero, is_all_zero, Address};
use crate::errors::NextBlockError;
use crate::state::{DepositRecord, DepositStatus, ProgramState};
use vstd::prelude::*;

verus! {

/// The least that can be deposited: ten units.
pub const MIN_DEPOSIT: u64 = 10_000_000;

/// The most that can be deposited at once: a million units.
pub const MAX_DEPOSIT: u64 = 1_000_000_000_000;

/// The mint whose tokens the bridge takes in,
/// `So11111111111111111111111111111111111111112`.
pub const ACCEPTED_MINT: [u8; 32] = [
    0x06, 0x9b, 0x88, 0x57, 0xfe, 0xab, 0x81, 0x84, 0xfb, 0x68, 0x7f, 0x63, 0x46, 0x18, 0xc0, 0x35,
    0xda, 0xc4, 0x39, 0xdc, 0x1a, 0xeb, 0x3b, 0x55, 0x98, 0xa0, 0xf0, 0x00, 0x00, 0x00, 0x00, 0x01,
];

/// Told to the outside when a deposit was accepted.
#[derive(Clone, Copy, Debug, PartialEq, Eq)]
pub struct DepositInitiated {
    pub deposit_id: u64,
    pub user: Address,
    pub recipient: [u8; 20],
    pub amount: u64,
    pub cctp_nonce: u64,
    pub timestamp: i64,
}

/// The first rule that a request breaks, in the order in which the rules are
/// held against it: the bridge is open, the amount is not zero, not under the
/// minimum, not over the maximum, and the recipient is a real address.
pub open spec fn deposit_rejection(state: ProgramState, amount: u64, recipient: [u8; 20])
    -> Option<NextBlockError> {
    if state.paused {
        Some(NextBlockError::ProgramPaused)
    } else if amount == 0 {
        Some(NextBlockError::InvalidAmount)
    } else if amount < MIN_DEPOSIT {
        Some(NextBlockError::AmountTooLow)
    } else if amount > MAX_DEPOSIT {
        Some(NextBlockError::AmountTooHigh)
    } else if all_zero(recipient@) {
        Some(NextBlockError::InvalidRecipient)
    } else {
        None
    }
}

/// The totals have room for one more deposit of `amount`.
pub open spec fn ledger_has_room(state: ProgramState, amount: u64) -> bool {
    &&& state.total_deposits + amount <= u64::MAX
    &&& state.deposit_count + 1 <= u64::MAX
}

/// The record of a deposit accepted in `state`. It takes the next free
/// number; until the messaging protocol hands out nonces, the message travels
/// under that number too.
pub open spec fn deposit_record(
    state: ProgramState,
    user: Address,
    amount: u64,
    recipient: [u8; 20],
    timestamp: i64,
) -> DepositRecord {
    DepositRecord {
        deposit_id: state.deposit_count,
        user,
        recipient,
        amount,
        timestamp,
        cctp_nonce: state.deposit_count,
        status: DepositStatus::Pending,
    }
}

/// The configuration record after one more deposit of `amount`.
pub open spec fn state_after_deposit(state: ProgramState, amount: u64) -> ProgramState {
    ProgramState {
        total_deposits: (state.total_deposits + amount) as u64,
        deposit_count: (state.deposit_count + 1) as u64,
        ..state
    }
}

/// What a deposit request comes to: the new configuration record and the
/// deposit's record, or the reason why it is turned down.
pub open spec fn deposit_outcome(
    state: ProgramState,
    user: Address,
    amount: u64,
    recipient: [u8; 20],
    timestamp: i64,
) -> Result<(ProgramState, DepositRecord), NextBlockError> {
    match deposit_rejection(state, amount, recipient) {
        Some(error) => Err(error),
        None => if ledger_has_room(state, amount) {
            Ok(
                (
                    state_after_deposit(state, amount),
                    deposit_record(state, user, amount, recipient, timestamp),
                ),
            )
        } else {
            Err(NextBlockError::ArithmeticOverflow)
        },
    }
}

/// What is told to the outside about an accepted deposit.
pub open spec fn deposit_event(record: DepositRecord) -> DepositInitiated {
    DepositInitiated {
        deposit_id: record.deposit_id,
        user: record.user,
        recipient: record.recipient,
        amount: record.amount,
        cctp_nonce: record.cctp_nonce,
        timestamp: record.timestamp,
    }
}

/// Lets only tokens of the accepted mint pass. Tokens of any other mint are
/// no amount that the bridge can take.
pub fn require_accepted_mint(mint: &Address) -> (checked: Result<(), NextBlockError>)
    ensures
        checked == if mint@ == ACCEPTED_MINT@ {
            Ok::<(), NextBlockError>(())
        } else {
            Err(NextBlockError::InvalidAmount)
        },
{
    if mint.same(&Address::new(ACCEPTED_MINT)) {
        Ok(())
    } else {
        Err(NextBlockError::InvalidAmount)
    }
}

/// Holds a request against the rules, without touching anything. A caller
/// that moves the funds itself asks this before it does.
pub fn validate_deposit(state: &ProgramState, amount: u64, recipient: &[u8; 20]) -> (checked:
    Result<(), NextBlockError>)
    ensures
        checked == match deposit_rejection(*state, amount, *recipient) {
            Some(error) => Err::<(), NextBlockError>(error),
            None => Ok(()),
        },
{
    if state.paused {
        return Err(NextBlockError::ProgramPaused);
    }
    if amount == 0 {
        return Err(NextBlockError::InvalidAmount);
    }
    if amount < MIN_DEPOSIT {
        return Err(NextBlockError::AmountTooLow);
    }
    if amount > MAX_DEPOSIT {
        return Err(NextBlockError::AmountTooHigh);
    }
    if is_all_zero(recipient) {
        return Err(NextBlockError::InvalidRecipient);
    }
    Ok(())
}

/// Accepts a deposit of `amount` from `user` for `recipient` on the
/// destination chain, at time `timestamp`: gives it the next number, adds it
/// to the totals, and returns its record and what to tell the outside. A
/// request that breaks a rule, or for which a total has no room, is turned
/// down and changes nothing.
pub fn deposit_and_bridge(
    state: &mut ProgramState,
    user: Address,
    amount: u64,
    recipient: [u8; 20],
    timestamp: i64,
) -> (out: Result<(DepositRecord, DepositInitiated), NextBlockError>)
    ensures
        match deposit_outcome(*old(state), user, amount, recipient, timestamp) {
            Ok((next, record)) => *final(state) == next && out == Ok::<
                (DepositRecord, DepositInitiated),
                NextBlockError,
            >((record, deposit_event(record))),
            Err(error) => *final(state) == *old(state) && out == Err::<
                (DepositRecord, DepositInitiated),
                NextBlockError,
            >(error),
        },
{
    match validate_deposit(state, amount, &recipient) {
        Err(error) => {
            return Err(error);
        },
        Ok(()) => {},
    }
    let cctp_nonce = state.deposit_count;
    let record = DepositRecord {
        deposit_id: state.deposit_count,
        user,
        recipient,
        amount,
        timestamp,
        cctp_nonce,
        status: DepositStatus::Pending,
    };
    let total_deposits = match state.total_deposits.checked_add(amount) {
        Some(total) => total,
        None => {
            return Err(NextBlockError::ArithmeticOverflow);
        },
    };
    let deposit_count = match state.deposit_count.checked_add(1) {
        Some(count) => count,
        None => {
            return Err(NextBlockError::ArithmeticOverflow);
        },
    };
    state.total_deposits = total_deposits;
    state.deposit_count = deposit_count;
    let event = DepositInitiated {
        deposit_id: record.deposit_id,
        user: record.user,
        recipient: record.recipient,
        amount: record.amount,
        cctp_nonce: record.cctp_nonce,
        timestamp: record.timestamp,
    };
    Ok((record, event))
}

} // verus!
