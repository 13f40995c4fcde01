//! The bridge over many requests: what holds of its totals and of the numbers
//! it gives out, whatever is asked of it and in whatever order.

use crate::address::{all_zero, Address};
use crate::errors::NextBlockError;
use crate::instructions::admin::{with_admin, with_paused, with_vault};
use crate::instructions::deposit::{deposit_outcome, ledger_has_room, MAX_DEPOSIT, MIN_DEPOSIT};
use crate::instructions::initialize::fresh_state;
use crate::state::{DepositRecord, ProgramState};
use vstd::prelude::*;

verus! {

/// A deposit as it is asked for.
pub struct DepositRequest {
    pub user: Address,
    pub amount: u64,
    pub recipient: [u8; 20],
    pub timestamp: i64,
}

/// What `request` comes to when it meets the bridge in `state`.
pub open spec fn request_outcome(state: ProgramState, request: DepositRequest) -> Result<
    (ProgramState, DepositRecord),
    NextBlockError,
> {
    deposit_outcome(state, request.user, request.amount, request.recipient, request.timestamp)
}

/// The configuration record after `requests` were served one after another,
/// starting from `state`. A request that is turned down changes nothing.
pub open spec fn state_after(state: ProgramState, requests: Seq<DepositRequest>) -> ProgramState
    decreases requests.len(),
{
    if requests.len() == 0 {
        state
    } else {
        let before = state_after(state, requests.drop_last());
        match request_outcome(before, requests.last()) {
            Ok((next, _)) => next,
            Err(_) => before,
        }
    }
}

/// Every one of `requests` is accepted when its turn comes.
pub open spec fn all_accepted(state: ProgramState, requests: Seq<DepositRequest>) -> bool
    decreases requests.len(),
{
    requests.len() == 0 || (all_accepted(state, requests.drop_last()) && request_outcome(
        state_after(state, requests.drop_last()),
        requests.last(),
    ) is Ok)
}

/// The amounts of `requests`, added up.
pub open spec fn total_amount(requests: Seq<DepositRequest>) -> nat
    decreases requests.len(),
{
    if requests.len() == 0 {
        0
    } else {
        total_amount(requests.drop_last()) + requests.last().amount as nat
    }
}

/// A run of accepted deposits raises the count by their number and the total
/// by the sum of their amounts, and leaves the settings alone.
pub proof fn lemma_totals_after_deposits(state: ProgramState, requests: Seq<DepositRequest>)
    requires
        all_accepted(state, requests),
    ensures
        state_after(state, requests).deposit_count == state.deposit_count + requests.len(),
        state_after(state, requests).total_deposits == state.total_deposits + total_amount(
            requests,
        ),
        state_after(state, requests).admin == state.admin,
        state_after(state, requests).base_vault_address == state.base_vault_address,
        state_after(state, requests).paused == state.paused,
        state_after(state, requests).bump == state.bump,
    decreases requests.len(),
{
    if requests.len() > 0 {
        lemma_totals_after_deposits(state, requests.drop_last());
    }
}

/// Where all of `requests` are accepted, so are the first `k` of them.
pub proof fn lemma_all_accepted_prefix(
    state: ProgramState,
    requests: Seq<DepositRequest>,
    k: int,
)
    requires
        all_accepted(state, requests),
        0 <= k <= requests.len(),
    ensures
        all_accepted(state, requests.take(k)),
        k < requests.len() ==> request_outcome(state_after(state, requests.take(k)), requests[k])
            is Ok,
    decreases requests.len(),
{
    if k == requests.len() {
        assert(requests.take(k) =~= requests);
    } else {
        let shorter = requests.drop_last();
        if k == requests.len() - 1 {
            assert(requests.take(k) =~= shorter);
        } else {
            lemma_all_accepted_prefix(state, shorter, k);
            assert(shorter.take(k) =~= requests.take(k));
        }
    }
}

/// In a run of accepted deposits, each gets the number that says how many
/// were accepted before it in the bridge's whole life.
pub proof fn lemma_deposit_numbers(state: ProgramState, requests: Seq<DepositRequest>, k: int)
    requires
        all_accepted(state, requests),
        0 <= k < requests.len(),
    ensures
        request_outcome(state_after(state, requests.take(k)), requests[k]) matches Ok(
            (_, record),
        ) && record.deposit_id == state.deposit_count + k,
{
    lemma_all_accepted_prefix(state, requests, k);
    lemma_totals_after_deposits(state, requests.take(k));
}

/// After any number of accepted deposits into a bridge that was just set up,
/// the count is that number, the total is the sum of what was deposited, and
/// the deposits are numbered from zero in the order in which they came.
pub proof fn lemma_ledger_from_fresh_state(
    admin: Address,
    base_vault_address: [u8; 32],
    bump: u8,
    requests: Seq<DepositRequest>,
)
    requires
        all_accepted(fresh_state(admin, base_vault_address, bump), requests),
    ensures
        state_after(fresh_state(admin, base_vault_address, bump), requests).deposit_count
            == requests.len(),
        state_after(fresh_state(admin, base_vault_address, bump), requests).total_deposits
            == total_amount(requests),
        forall|k: int|
            #![trigger requests[k]]
            0 <= k < requests.len() ==> (request_outcome(
                state_after(fresh_state(admin, base_vault_address, bump), requests.take(k)),
                requests[k],
            ) matches Ok((_, record)) && record.deposit_id == k),
{
    let fresh = fresh_state(admin, base_vault_address, bump);
    lemma_totals_after_deposits(fresh, requests);
    assert forall|k: int| #![trigger requests[k]] 0 <= k < requests.len() implies (request_outcome(
        state_after(fresh, requests.take(k)),
        requests[k],
    ) matches Ok((_, record)) && record.deposit_id == k) by {
        lemma_deposit_numbers(fresh, requests, k);
    }
}

/// A deposit is accepted exactly when the bridge is open, the amount lies
/// between the minimum and the maximum, both included, the recipient is not
/// the all-zero address, and the totals have room.
pub proof fn lemma_deposit_accepted_iff(
    state: ProgramState,
    user: Address,
    amount: u64,
    recipient: [u8; 20],
    timestamp: i64,
)
    ensures
        deposit_outcome(state, user, amount, recipient, timestamp) is Ok <==> (!state.paused
            && MIN_DEPOSIT <= amount <= MAX_DEPOSIT && !all_zero(recipient@) && ledger_has_room(
            state,
            amount,
        )),
{
}

/// An open bridge turns down every amount under the minimum as too low,
/// zero apart, which is no amount at all.
pub proof fn lemma_below_minimum_rejected(
    state: ProgramState,
    user: Address,
    amount: u64,
    recipient: [u8; 20],
    timestamp: i64,
)
    requires
        !state.paused,
        0 < amount < MIN_DEPOSIT,
    ensures
        deposit_outcome(state, user, amount, recipient, timestamp) == Err::<
            (ProgramState, DepositRecord),
            NextBlockError,
        >(NextBlockError::AmountTooLow),
{
}

/// An open bridge turns down every amount over the maximum as too high.
pub proof fn lemma_above_maximum_rejected(
    state: ProgramState,
    user: Address,
    amount: u64,
    recipient: [u8; 20],
    timestamp: i64,
)
    requires
        !state.paused,
        amount > MAX_DEPOSIT,
    ensures
        deposit_outcome(state, user, amount, recipient, timestamp) == Err::<
            (ProgramState, DepositRecord),
            NextBlockError,
        >(NextBlockError::AmountTooHigh),
{
}

/// The minimum and the maximum themselves are accepted by an open bridge
/// whose totals have room, for any real recipient.
pub proof fn lemma_bounds_accepted(
    state: ProgramState,
    user: Address,
    amount: u64,
    recipient: [u8; 20],
    timestamp: i64,
)
    requires
        !state.paused,
        amount == MIN_DEPOSIT || amount == MAX_DEPOSIT,
        !all_zero(recipient@),
        ledger_has_room(state, amount),
    ensures
        deposit_outcome(state, user, amount, recipient, timestamp) is Ok,
{
}

/// Nothing is ever accepted for the all-zero recipient; where the bridge is
/// open and the amount is in range, that is the reason given.
pub proof fn lemma_zero_recipient_rejected(
    state: ProgramState,
    user: Address,
    amount: u64,
    recipient: [u8; 20],
    timestamp: i64,
)
    requires
        all_zero(recipient@),
    ensures
        deposit_outcome(state, user, amount, recipient, timestamp) is Err,
        !state.paused && MIN_DEPOSIT <= amount <= MAX_DEPOSIT ==> deposit_outcome(
            state,
            user,
            amount,
            recipient,
            timestamp,
        ) == Err::<(ProgramState, DepositRecord), NextBlockError>(
            NextBlockError::InvalidRecipient,
        ),
{
}

/// A closed bridge turns every deposit down as paused, and opening it again
/// brings back exactly what the bridge did before it was closed.
pub proof fn lemma_pause_then_unpause(
    state: ProgramState,
    user: Address,
    amount: u64,
    recipient: [u8; 20],
    timestamp: i64,
)
    ensures
        deposit_outcome(with_paused(state, true), user, amount, recipient, timestamp) == Err::<
            (ProgramState, DepositRecord),
            NextBlockError,
        >(NextBlockError::ProgramPaused),
        !state.paused ==> with_paused(with_paused(state, true), false) == state,
        deposit_outcome(
            with_paused(with_paused(state, true), false),
            user,
            amount,
            recipient,
            timestamp,
        ) == deposit_outcome(with_paused(state, false), user, amount, recipient, timestamp),
{
}

/// The administrator's requests never touch the totals, each changes the one
/// setting it is for, and a deposit never touches the settings.
pub proof fn lemma_settings_and_totals_apart(
    state: ProgramState,
    new_admin: Address,
    new_vault_address: [u8; 32],
    paused: bool,
    request: DepositRequest,
)
    ensures
        with_admin(state, new_admin).total_deposits == state.total_deposits,
        with_admin(state, new_admin).deposit_count == state.deposit_count,
        with_vault(state, new_vault_address).total_deposits == state.total_deposits,
        with_vault(state, new_vault_address).deposit_count == state.deposit_count,
        with_paused(state, paused).total_deposits == state.total_deposits,
        with_paused(state, paused).deposit_count == state.deposit_count,
        with_admin(state, new_admin).base_vault_address == state.base_vault_address,
        with_admin(state, new_admin).paused == state.paused,
        with_vault(state, new_vault_address).admin == state.admin,
        with_vault(state, new_vault_address).paused == state.paused,
        with_paused(state, paused).admin == state.admin,
        with_paused(state, paused).base_vault_address == state.base_vault_address,
        request_outcome(state, request) matches Ok((next, _)) ==> {
            &&& next.admin == state.admin
            &&& next.base_vault_address == state.base_vault_address
            &&& next.paused == state.paused
            &&& next.bump == state.bump
            &&& next.deposit_count == state.deposit_count + 1
            &&& next.total_deposits == state.total_deposits + request.amount
        },
{
}

} // verus!
