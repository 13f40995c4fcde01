//! What the bridge keeps on the ledger: one configuration record for the
//! whole program, and one record for each deposit it accepted.

use crate::address::{
    derive_labelled, derive_labelled_with, derived_view, program_address, Address,
};
use crate::cctp::{CCTPMessageBody, MESSAGE_BODY_VERSION};
use crate::wire::{le_bytes_u64, u64_to_le};
use vstd::prelude::*;

verus! {

/// The program's configuration and running totals. There is one such record,
/// and only the operations of this library change it.
#[derive(Clone, Copy, Debug, PartialEq, Eq)]
pub struct ProgramState {
    /// The only identity that may change this record's settings.
    pub admin: Address,
    /// The vault on the destination chain that receives what is bridged.
    pub base_vault_address: [u8; 32],
    /// While set, deposits are turned down.
    pub paused: bool,
    /// Everything ever deposited, in millionths of a unit.
    pub total_deposits: u64,
    /// How many deposits were accepted; also the number of the next one.
    pub deposit_count: u64,
    /// The disambiguation byte of this record's own address.
    pub bump: u8,
}

/// How far a deposit has come.
#[derive(Clone, Copy, Debug, PartialEq, Eq, Structural)]
pub enum DepositStatus {
    /// Accepted here; nothing is known of the destination chain yet.
    Pending,
    /// Released on the destination chain.
    Confirmed,
    /// Not released.
    Failed,
}

impl Default for DepositStatus {
    fn default() -> (status: DepositStatus)
        ensures
            status == DepositStatus::Pending,
    {
        DepositStatus::Pending
    }
}

/// One accepted deposit.
#[derive(Clone, Copy, Debug, PartialEq, Eq)]
pub struct DepositRecord {
    /// The deposit's number: how many deposits were accepted before it.
    pub deposit_id: u64,
    /// Who deposited.
    pub user: Address,
    /// Who receives on the destination chain.
    pub recipient: [u8; 20],
    /// How much, in millionths of a unit.
    pub amount: u64,
    /// When the deposit was accepted.
    pub timestamp: i64,
    /// The number under which the cross-chain message travels.
    pub cctp_nonce: u64,
    /// How far the deposit has come; nothing here moves it on from pending.
    pub status: DepositStatus,
}

impl DepositRecord {
    /// The message that asks the destination chain to release this deposit.
    pub fn message_body(&self) -> (body: CCTPMessageBody)
        ensures
            body == (CCTPMessageBody {
                version: MESSAGE_BODY_VERSION,
                recipient: self.recipient,
                amount: self.amount,
            }),
    {
        CCTPMessageBody::new(self.recipient, self.amount)
    }
}

/// The label `state`.
pub const STATE_SEED: [u8; 5] = [115, 116, 97, 116, 101];

/// The label `deposit`.
pub const DEPOSIT_SEED: [u8; 7] = [100, 101, 112, 111, 115, 105, 116];

/// The label `authority`.
pub const AUTHORITY_SEED: [u8; 9] = [97, 117, 116, 104, 111, 114, 105, 116, 121];

/// Where the configuration record of the bridge program `program_id` lives.
pub fn derive_state_pda(program_id: &Address) -> (derived: Option<(Address, u8)>)
    ensures
        derived_view(derived) == program_address(seq![STATE_SEED@], program_id@),
{
    derive_labelled(&STATE_SEED, program_id)
}

/// Where the record of deposit number `deposit_id` lives: under the label and
/// the number in eight bytes, least significant first.
pub fn derive_deposit_record_pda(program_id: &Address, deposit_id: u64) -> (derived: Option<
    (Address, u8),
>)
    ensures
        derived_view(derived) == program_address(
            seq![DEPOSIT_SEED@, le_bytes_u64(deposit_id)],
            program_id@,
        ),
{
    let number = u64_to_le(deposit_id);
    derive_labelled_with(&DEPOSIT_SEED, &number, program_id)
}

/// The identity under which the bridge program `program_id` holds what was
/// deposited.
pub fn derive_program_authority_pda(program_id: &Address) -> (derived: Option<(Address, u8)>)
    ensures
        derived_view(derived) == program_address(seq![AUTHORITY_SEED@], program_id@),
{
    derive_labelled(&AUTHORITY_SEED, program_id)
}

} // verus!
