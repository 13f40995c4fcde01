use anchor_lang::prelude::Pubkey;
use nextblock_satellite::address::{
    derive_address, derive_labelled, derive_labelled_with, is_all_zero, seed_from, Address,
};
use nextblock_satellite::cctp::{
    derive_local_token_pda, derive_message_transmitter_pda, derive_token_messenger_pda,
    derive_token_minter_pda, LOCAL_TOKEN_SEED, MESSAGE_TRANSMITTER, MESSAGE_TRANSMITTER_SEED,
    TOKEN_MESSENGER, TOKEN_MESSENGER_SEED, TOKEN_MINTER_SEED,
};
use nextblock_satellite::state::{
    derive_deposit_record_pda, derive_program_authority_pda, derive_state_pda, AUTHORITY_SEED,
    DEPOSIT_SEED, STATE_SEED,
};

fn expected(seeds: &[&[u8]], program: &Address) -> Option<(Address, u8)> {
    let program_id = Pubkey::new_from_array(program.bytes);
    Pubkey::try_find_program_address(seeds, &program_id)
        .map(|(key, bump)| (Address::new(key.to_bytes()), bump))
}

#[test]
fn seed_labels_spell_their_names() {
    assert_eq!(&TOKEN_MESSENGER_SEED[..], b"token_messenger");
    assert_eq!(&MESSAGE_TRANSMITTER_SEED[..], b"message_transmitter");
    assert_eq!(&TOKEN_MINTER_SEED[..], b"token_minter");
    assert_eq!(&LOCAL_TOKEN_SEED[..], b"local_token");
    assert_eq!(&STATE_SEED[..], b"state");
    assert_eq!(&DEPOSIT_SEED[..], b"deposit");
    assert_eq!(&AUTHORITY_SEED[..], b"authority");
}

#[test]
fn protocol_accounts_are_derived_as_the_ledger_does() {
    let messenger = Address::new(TOKEN_MESSENGER);
    let transmitter = Address::new(MESSAGE_TRANSMITTER);
    assert_eq!(
        derive_token_messenger_pda(&messenger),
        expected(&[b"token_messenger"], &messenger)
    );
    assert_eq!(
        derive_message_transmitter_pda(&transmitter),
        expected(&[b"message_transmitter"], &transmitter)
    );
    assert_eq!(derive_token_minter_pda(&messenger), expected(&[b"token_minter"], &messenger));
    let mint = Address::new([0x42; 32]);
    assert_eq!(
        derive_local_token_pda(&messenger, &mint),
        expected(&[b"local_token", &[0x42; 32]], &messenger)
    );
}

#[test]
fn derived_address_is_not_an_argument() {
    let program = Address::new(TOKEN_MESSENGER);
    let (address, bump) = derive_token_messenger_pda(&program).unwrap();
    assert_ne!(address, program);
    let rebuilt = Pubkey::create_program_address(
        &[b"token_messenger", &[bump]],
        &Pubkey::new_from_array(program.bytes),
    )
    .unwrap();
    assert_eq!(address.to_bytes(), rebuilt.to_bytes());
    assert!(!Pubkey::new_from_array(address.bytes).is_on_curve());
}

#[test]
fn derivation_is_repeatable_and_tells_inputs_apart() {
    let program = Address::new([3u8; 32]);
    let other = Address::new([4u8; 32]);
    let first = derive_token_minter_pda(&program);
    assert!(first.is_some());
    assert_eq!(first, derive_token_minter_pda(&program));
    assert_ne!(first.unwrap().0, derive_token_minter_pda(&other).unwrap().0);
    assert_ne!(first.unwrap().0, derive_token_messenger_pda(&program).unwrap().0);
    let mint_a = Address::new([1u8; 32]);
    let mint_b = Address::new([2u8; 32]);
    assert_ne!(
        derive_local_token_pda(&program, &mint_a).unwrap().0,
        derive_local_token_pda(&program, &mint_b).unwrap().0
    );
}

#[test]
fn bridge_accounts_are_derived_from_their_labels() {
    let program = Address::new([9u8; 32]);
    assert_eq!(derive_state_pda(&program), expected(&[b"state"], &program));
    assert_eq!(derive_program_authority_pda(&program), expected(&[b"authority"], &program));
    for number in [0u64, 1, 2, 255, 256, u64::MAX] {
        assert_eq!(
            derive_deposit_record_pda(&program, number),
            expected(&[b"deposit", &number.to_le_bytes()], &program)
        );
    }
    assert_ne!(
        derive_deposit_record_pda(&program, 0).unwrap().0,
        derive_deposit_record_pda(&program, 1).unwrap().0
    );
}

#[test]
fn general_derivation_takes_any_seeds() {
    let program = Address::new([9u8; 32]);
    let seeds = vec![seed_from(b"vault"), seed_from(&[1, 2, 3])];
    assert_eq!(derive_address(&seeds, &program), expected(&[b"vault", &[1, 2, 3]], &program));
    let none: Vec<Vec<u8>> = Vec::new();
    assert_eq!(derive_address(&none, &program), expected(&[], &program));
}

#[test]
fn too_many_or_too_long_seeds_derive_nothing() {
    let program = Address::new([9u8; 32]);
    let sixteen: Vec<Vec<u8>> = (0..16u8).map(|i| vec![i]).collect();
    assert_eq!(derive_address(&sixteen, &program), None);
    let fifteen: Vec<Vec<u8>> = (0..15u8).map(|i| vec![i]).collect();
    assert!(derive_address(&fifteen, &program).is_some());
    assert_eq!(derive_address(&vec![vec![0u8; 33]], &program), None);
    assert!(derive_address(&vec![vec![0u8; 32]], &program).is_some());
}

#[test]
fn addresses_compare_by_their_bytes() {
    let a = Address::new([5u8; 32]);
    let mut bytes = [5u8; 32];
    let b = Address::new(bytes);
    bytes[31] = 6;
    let c = Address::new(bytes);
    assert!(a.same(&b));
    assert!(!a.same(&c));
    assert_eq!(a.to_bytes(), [5u8; 32]);
    assert!(Address::new([0u8; 32]).is_zero());
    assert!(!c.is_zero());
    assert!(is_all_zero(&[]));
    assert!(is_all_zero(&[0, 0, 0]));
    assert!(!is_all_zero(&[0, 0, 1]));
    assert_eq!(seed_from(b"state"), b"state".to_vec());
}

#[test]
fn labelled_derivations_match_the_general_one() {
    let program = Address::new([0x21; 32]);
    assert_eq!(derive_labelled(b"vault", &program), expected(&[b"vault"], &program));
    assert_eq!(
        derive_labelled(b"vault", &program),
        derive_address(&vec![b"vault".to_vec()], &program)
    );
    assert_eq!(
        derive_labelled_with(b"vault", &[7, 8], &program),
        expected(&[b"vault", &[7, 8]], &program)
    );
    assert_ne!(
        derive_labelled_with(b"vault", &[7, 8], &program),
        derive_labelled_with(b"vault", &[8, 7], &program)
    );
    assert_eq!(derive_labelled(&[0u8; 33], &program), None);
}
