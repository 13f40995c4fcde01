use nextblock_satellite::address::Address;
use nextblock_satellite::cctp::CCTPMessageBody;
use nextblock_satellite::errors::NextBlockError;
use nextblock_satellite::instructions::{
    deposit_and_bridge, initialize, pause, require_accepted_mint, require_admin, unpause,
    update_admin, update_vault_address, validate_deposit, AdminUpdated, DepositInitiated,
    ProgramInitialized, ProgramPaused, ProgramUnpaused, VaultAddressUpdated, ACCEPTED_MINT,
    MAX_DEPOSIT, MIN_DEPOSIT,
};
use nextblock_satellite::state::{DepositRecord, DepositStatus, ProgramState};

const VAULT: [u8; 32] = [0x56; 32];
const RECIPIENT: [u8; 20] = [0x11; 20];

fn admin() -> Address {
    Address::new([0xa1; 32])
}

fn user() -> Address {
    Address::new([0xb2; 32])
}

fn fresh() -> ProgramState {
    initialize(admin(), VAULT, 254, 1_700_000_000).0
}

#[test]
fn initialize_makes_the_caller_admin() {
    let (state, event) = initialize(admin(), VAULT, 254, 1_700_000_000);
    assert_eq!(
        state,
        ProgramState {
            admin: admin(),
            base_vault_address: VAULT,
            paused: false,
            total_deposits: 0,
            deposit_count: 0,
            bump: 254,
        }
    );
    assert_eq!(
        event,
        ProgramInitialized { admin: admin(), base_vault_address: VAULT, timestamp: 1_700_000_000 }
    );
}

#[test]
fn first_deposit_then_one_too_small() {
    let mut state = fresh();
    let (record, event) =
        deposit_and_bridge(&mut state, user(), 50_000_000, RECIPIENT, 1_700_000_100).unwrap();
    assert_eq!(
        record,
        DepositRecord {
            deposit_id: 0,
            user: user(),
            recipient: RECIPIENT,
            amount: 50_000_000,
            timestamp: 1_700_000_100,
            cctp_nonce: 0,
            status: DepositStatus::Pending,
        }
    );
    assert_eq!(
        event,
        DepositInitiated {
            deposit_id: 0,
            user: user(),
            recipient: RECIPIENT,
            amount: 50_000_000,
            cctp_nonce: 0,
            timestamp: 1_700_000_100,
        }
    );
    assert_eq!(state.total_deposits, 50_000_000);
    assert_eq!(state.deposit_count, 1);

    let after_first = state;
    let second = deposit_and_bridge(&mut state, user(), 5_000_000, RECIPIENT, 1_700_000_200);
    assert_eq!(second, Err(NextBlockError::AmountTooLow));
    assert_eq!(state, after_first);
}

#[test]
fn amounts_under_the_minimum_are_too_low() {
    for amount in [1u64, 2, 9_999_999, MIN_DEPOSIT - 1] {
        let mut state = fresh();
        assert_eq!(
            deposit_and_bridge(&mut state, user(), amount, RECIPIENT, 5),
            Err(NextBlockError::AmountTooLow)
        );
        assert_eq!(state, fresh());
    }
    let mut state = fresh();
    assert!(deposit_and_bridge(&mut state, user(), 10_000_000, RECIPIENT, 5).is_ok());
    assert_eq!(state.total_deposits, 10_000_000);
    assert_eq!(MIN_DEPOSIT, 10_000_000);
}

#[test]
fn amounts_over_the_maximum_are_too_high() {
    for amount in [MAX_DEPOSIT + 1, 1_000_000_000_001, u64::MAX] {
        let mut state = fresh();
        assert_eq!(
            deposit_and_bridge(&mut state, user(), amount, RECIPIENT, 5),
            Err(NextBlockError::AmountTooHigh)
        );
        assert_eq!(state, fresh());
    }
    let mut state = fresh();
    assert!(deposit_and_bridge(&mut state, user(), 1_000_000_000_000, RECIPIENT, 5).is_ok());
    assert_eq!(state.total_deposits, 1_000_000_000_000);
    assert_eq!(MAX_DEPOSIT, 1_000_000_000_000);
}

#[test]
fn zero_amount_is_no_amount() {
    let mut state = fresh();
    assert_eq!(
        deposit_and_bridge(&mut state, user(), 0, RECIPIENT, 5),
        Err(NextBlockError::InvalidAmount)
    );
    assert_eq!(state, fresh());
}

#[test]
fn zero_recipient_is_never_accepted() {
    for amount in [0u64, 1, MIN_DEPOSIT, 50_000_000, MAX_DEPOSIT, u64::MAX] {
        let mut state = fresh();
        let out = deposit_and_bridge(&mut state, user(), amount, [0u8; 20], 5);
        assert!(out.is_err());
        if (MIN_DEPOSIT..=MAX_DEPOSIT).contains(&amount) {
            assert_eq!(out, Err(NextBlockError::InvalidRecipient));
        }
        assert_eq!(state, fresh());
    }
    let mut almost_zero = [0u8; 20];
    almost_zero[19] = 1;
    let mut state = fresh();
    assert!(deposit_and_bridge(&mut state, user(), MIN_DEPOSIT, almost_zero, 5).is_ok());
}

#[test]
fn rules_are_checked_in_order() {
    let mut state = fresh();
    pause(&mut state, &admin(), 1).unwrap();
    let paused = state;
    assert_eq!(
        deposit_and_bridge(&mut state, user(), 0, [0u8; 20], 5),
        Err(NextBlockError::ProgramPaused)
    );
    assert_eq!(state, paused);
    let mut state = fresh();
    assert_eq!(
        deposit_and_bridge(&mut state, user(), 0, [0u8; 20], 5),
        Err(NextBlockError::InvalidAmount)
    );
    assert_eq!(
        deposit_and_bridge(&mut state, user(), 1, [0u8; 20], 5),
        Err(NextBlockError::AmountTooLow)
    );
    assert_eq!(
        deposit_and_bridge(&mut state, user(), MAX_DEPOSIT + 1, [0u8; 20], 5),
        Err(NextBlockError::AmountTooHigh)
    );
    assert_eq!(validate_deposit(&state, MIN_DEPOSIT, &[0u8; 20]), Err(NextBlockError::InvalidRecipient));
    assert_eq!(validate_deposit(&state, MIN_DEPOSIT, &RECIPIENT), Ok(()));
}

#[test]
fn many_deposits_are_counted_and_summed() {
    let mut state = fresh();
    let amounts = [10_000_000u64, 25_000_000, 1_000_000_000_000, 10_000_001, 999_999_999];
    let mut sum = 0u64;
    for (k, amount) in amounts.iter().enumerate() {
        let (record, event) =
            deposit_and_bridge(&mut state, user(), *amount, RECIPIENT, 100 + k as i64).unwrap();
        sum += *amount;
        assert_eq!(record.deposit_id, k as u64);
        assert_eq!(event.deposit_id, k as u64);
        assert_eq!(record.status, DepositStatus::Pending);
        assert_eq!(state.deposit_count, k as u64 + 1);
        assert_eq!(state.total_deposits, sum);
    }
    assert_eq!(state.deposit_count, 5);
    assert_eq!(state.total_deposits, 1_001_045_000_000);
    assert_eq!(state.admin, admin());
    assert_eq!(state.base_vault_address, VAULT);
}

#[test]
fn rejected_deposits_take_no_number() {
    let mut state = fresh();
    deposit_and_bridge(&mut state, user(), MIN_DEPOSIT, RECIPIENT, 1).unwrap();
    assert!(deposit_and_bridge(&mut state, user(), 3, RECIPIENT, 2).is_err());
    let (record, _) = deposit_and_bridge(&mut state, user(), MIN_DEPOSIT, RECIPIENT, 3).unwrap();
    assert_eq!(record.deposit_id, 1);
    assert_eq!(state.deposit_count, 2);
}

#[test]
fn full_totals_overflow() {
    let mut state = fresh();
    state.total_deposits = u64::MAX - MIN_DEPOSIT + 1;
    let before = state;
    assert_eq!(
        deposit_and_bridge(&mut state, user(), MIN_DEPOSIT, RECIPIENT, 5),
        Err(NextBlockError::ArithmeticOverflow)
    );
    assert_eq!(state, before);
    state.total_deposits = u64::MAX - MIN_DEPOSIT;
    assert!(deposit_and_bridge(&mut state, user(), MIN_DEPOSIT, RECIPIENT, 5).is_ok());
    assert_eq!(state.total_deposits, u64::MAX);

    let mut state = fresh();
    state.deposit_count = u64::MAX;
    let before = state;
    assert_eq!(
        deposit_and_bridge(&mut state, user(), MIN_DEPOSIT, RECIPIENT, 5),
        Err(NextBlockError::ArithmeticOverflow)
    );
    assert_eq!(state, before);
}

#[test]
fn pause_closes_and_unpause_opens() {
    let mut state = fresh();
    assert_eq!(
        pause(&mut state, &admin(), 7),
        Ok(ProgramPaused { admin: admin(), timestamp: 7 })
    );
    assert!(state.paused);
    let paused = state;
    assert_eq!(
        deposit_and_bridge(&mut state, user(), 50_000_000, RECIPIENT, 8),
        Err(NextBlockError::ProgramPaused)
    );
    assert_eq!(state, paused);
    assert_eq!(
        unpause(&mut state, &admin(), 9),
        Ok(ProgramUnpaused { admin: admin(), timestamp: 9 })
    );
    assert_eq!(state, fresh());
    assert!(deposit_and_bridge(&mut state, user(), 50_000_000, RECIPIENT, 10).is_ok());
}

#[test]
fn pausing_twice_succeeds() {
    let mut state = fresh();
    assert!(pause(&mut state, &admin(), 1).is_ok());
    assert!(pause(&mut state, &admin(), 2).is_ok());
    assert!(state.paused);
    assert!(unpause(&mut state, &admin(), 3).is_ok());
    assert!(unpause(&mut state, &admin(), 4).is_ok());
    assert!(!state.paused);
}

#[test]
fn only_the_admin_updates_the_admin() {
    let mut state = fresh();
    let heir = Address::new([0xc3; 32]);
    assert_eq!(update_admin(&mut state, &user(), heir, 1), Err(NextBlockError::Unauthorized));
    assert_eq!(state, fresh());
    assert_eq!(state.admin, admin());
    assert_eq!(
        update_admin(&mut state, &admin(), heir, 2),
        Ok(AdminUpdated { old_admin: admin(), new_admin: heir, timestamp: 2 })
    );
    assert_eq!(state.admin, heir);
    assert_eq!(update_admin(&mut state, &admin(), admin(), 3), Err(NextBlockError::Unauthorized));
    assert_eq!(state.admin, heir);
    assert_eq!(require_admin(&state, &heir), Ok(()));
    assert_eq!(require_admin(&state, &admin()), Err(NextBlockError::Unauthorized));
}

#[test]
fn only_the_admin_touches_the_settings() {
    let mut state = fresh();
    let other_vault = [0x99; 32];
    assert_eq!(
        update_vault_address(&mut state, &user(), other_vault, 1),
        Err(NextBlockError::Unauthorized)
    );
    assert_eq!(pause(&mut state, &user(), 1), Err(NextBlockError::Unauthorized));
    assert_eq!(unpause(&mut state, &user(), 1), Err(NextBlockError::Unauthorized));
    assert_eq!(state, fresh());
    assert_eq!(
        update_vault_address(&mut state, &admin(), other_vault, 2),
        Ok(VaultAddressUpdated { old_address: VAULT, new_address: other_vault, timestamp: 2 })
    );
    assert_eq!(state, ProgramState { base_vault_address: other_vault, ..fresh() });
}

#[test]
fn admin_requests_leave_the_totals_alone() {
    let mut state = fresh();
    deposit_and_bridge(&mut state, user(), 40_000_000, RECIPIENT, 1).unwrap();
    update_vault_address(&mut state, &admin(), [1u8; 32], 2).unwrap();
    pause(&mut state, &admin(), 3).unwrap();
    unpause(&mut state, &admin(), 4).unwrap();
    update_admin(&mut state, &admin(), user(), 5).unwrap();
    assert_eq!(state.total_deposits, 40_000_000);
    assert_eq!(state.deposit_count, 1);
    assert_eq!(state.bump, 254);
}

#[test]
fn a_record_names_its_message() {
    let mut state = fresh();
    let (record, _) = deposit_and_bridge(&mut state, user(), 50_000_000, RECIPIENT, 1).unwrap();
    let body = record.message_body();
    assert_eq!(body, CCTPMessageBody { version: 0, recipient: RECIPIENT, amount: 50_000_000 });
    assert_eq!(CCTPMessageBody::from_bytes(&body.to_bytes()), Ok(body));
}

#[test]
fn status_starts_pending() {
    assert_eq!(DepositStatus::default(), DepositStatus::Pending);
    assert_ne!(DepositStatus::Confirmed, DepositStatus::Failed);
}

#[test]
fn bridge_error_messages() {
    assert_eq!(NextBlockError::ProgramPaused.message(), "Program is currently paused");
    assert_eq!(
        NextBlockError::InvalidAmount.message(),
        "Deposit amount must be greater than zero"
    );
    assert_eq!(
        NextBlockError::AmountTooLow.message(),
        "Deposit amount is below minimum required"
    );
    assert_eq!(NextBlockError::AmountTooHigh.message(), "Deposit amount exceeds maximum allowed");
    assert_eq!(
        NextBlockError::Unauthorized.message(),
        "Unauthorized: Only admin can perform this action"
    );
    assert_eq!(NextBlockError::InvalidRecipient.message(), "Invalid recipient address");
    assert_eq!(
        NextBlockError::CCTPTransmissionFailed.message(),
        "CCTP message transmission failed"
    );
    assert_eq!(NextBlockError::ArithmeticOverflow.message(), "Arithmetic overflow");
    assert_eq!(NextBlockError::InvalidNonce.message(), "Invalid CCTP nonce");
}

#[test]
fn only_the_accepted_mint_passes() {
    let native = anchor_spl::token::spl_token::native_mint::id();
    assert_eq!(ACCEPTED_MINT, native.to_bytes());
    assert_eq!(require_accepted_mint(&Address::new(ACCEPTED_MINT)), Ok(()));
    assert_eq!(
        require_accepted_mint(&Address::new([0x33; 32])),
        Err(NextBlockError::InvalidAmount)
    );
}
