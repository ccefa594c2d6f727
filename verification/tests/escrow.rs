use escrow_program::authority::derive_vault_authority;
use escrow_program::pubkey::Pubkey;
use escrow_program::settlement::{make, refund, take, try_refund, try_take};
use escrow_program::state::{Escrow, EscrowAccount, EscrowError, Vault};

fn pk(b: u8) -> Pubkey {
    Pubkey::new([b; 32])
}

fn open_escrow(
    program: &Pubkey,
    maker: &Pubkey,
    seed: u64,
    deposit: u64,
    receive: u64,
    maker_balance_a: &mut u64,
) -> EscrowAccount {
    let mint_a = pk(2);
    let mint_b = pk(3);
    let mut slot = EscrowAccount::NonExistent;
    let r = make(
        &mut slot,
        program,
        maker,
        &mint_a,
        &mint_b,
        seed,
        deposit,
        receive,
        maker_balance_a,
    );
    assert_eq!(r, Ok(()));
    slot
}

#[test]
fn fulfill_scenario_pays_both_legs_and_closes() {
    let program = pk(9);
    let maker = pk(1);
    let mut maker_balance_a = 100u64;
    let mut slot = open_escrow(&program, &maker, 1, 100, 50, &mut maker_balance_a);
    assert_eq!(maker_balance_a, 0);
    match slot {
        EscrowAccount::Funded { record, vault } => {
            assert_eq!(record.seed, 1);
            assert_eq!(record.maker, maker);
            assert_eq!(record.receive, 50);
            assert_eq!(vault.amount, 100);
        }
        _ => panic!("expected a funded slot"),
    }

    let mut taker_balance_b = 50u64;
    let mut maker_balance_b = 0u64;
    let mut taker_balance_a = 0u64;
    let r = take(
        &mut slot,
        &program,
        &mut taker_balance_b,
        &mut maker_balance_b,
        &mut taker_balance_a,
    );
    assert_eq!(r, Ok(()));
    assert_eq!(taker_balance_b, 0);
    assert_eq!(maker_balance_b, 50);
    assert_eq!(taker_balance_a, 100);
    assert_eq!(slot, EscrowAccount::Closed);

    // A second fulfilment against the now-closed record must fail untouched.
    let mut other_taker_b = 50u64;
    let mut other_taker_a = 0u64;
    let r = take(
        &mut slot,
        &program,
        &mut other_taker_b,
        &mut maker_balance_b,
        &mut other_taker_a,
    );
    assert_eq!(r, Err(EscrowError::StaleEscrow));
    assert_eq!(other_taker_b, 50);
    assert_eq!(other_taker_a, 0);
    assert_eq!(maker_balance_b, 50);
    assert_eq!(slot, EscrowAccount::Closed);
}

#[test]
fn cancel_scenario_returns_deposit_to_maker_only() {
    let program = pk(9);
    let maker = pk(1);
    let intruder = pk(8);
    let mut maker_balance_a = 10u64;
    let mut slot = open_escrow(&program, &maker, 2, 10, 5, &mut maker_balance_a);
    assert_eq!(maker_balance_a, 0);

    // A non-maker cancelling the still-open record: rejected, nothing moves.
    let mut intruder_balance_a = 0u64;
    let r = refund(&mut slot, &program, &intruder, &mut intruder_balance_a);
    assert_eq!(r, Err(EscrowError::Unauthorized));
    assert_eq!(intruder_balance_a, 0);
    assert!(matches!(slot, EscrowAccount::Funded { .. }));

    // The maker cancels and regains the deposit; record and vault are gone.
    let r = refund(&mut slot, &program, &maker, &mut maker_balance_a);
    assert_eq!(r, Ok(()));
    assert_eq!(maker_balance_a, 10);
    assert_eq!(slot, EscrowAccount::Closed);

    // Cancelling again: the record no longer exists.
    let r = refund(&mut slot, &program, &maker, &mut maker_balance_a);
    assert_eq!(r, Err(EscrowError::StaleEscrow));
    assert_eq!(maker_balance_a, 10);
}

#[test]
fn make_rejects_short_maker_balance() {
    let program = pk(9);
    let maker = pk(1);
    let mut slot = EscrowAccount::NonExistent;
    let mut maker_balance_a = 99u64;
    let r = make(
        &mut slot,
        &program,
        &maker,
        &pk(2),
        &pk(3),
        1,
        100,
        50,
        &mut maker_balance_a,
    );
    assert_eq!(r, Err(EscrowError::InsufficientFunds));
    assert_eq!(maker_balance_a, 99);
    assert_eq!(slot, EscrowAccount::NonExistent);
}

#[test]
fn make_rejects_occupied_address() {
    let program = pk(9);
    let maker = pk(1);
    let mut maker_balance_a = 20u64;
    let mut slot = open_escrow(&program, &maker, 3, 10, 5, &mut maker_balance_a);
    let r = make(
        &mut slot,
        &program,
        &maker,
        &pk(2),
        &pk(3),
        3,
        10,
        5,
        &mut maker_balance_a,
    );
    assert_eq!(r, Err(EscrowError::AccountCreationFailure));
    assert_eq!(maker_balance_a, 10);
    assert!(matches!(slot, EscrowAccount::Funded { .. }));
}

#[test]
fn make_permits_zero_deposit() {
    let program = pk(9);
    let maker = pk(1);
    let mut maker_balance_a = 0u64;
    let slot = open_escrow(&program, &maker, 4, 0, 5, &mut maker_balance_a);
    match slot {
        EscrowAccount::Funded { vault, .. } => assert_eq!(vault.amount, 0),
        _ => panic!("expected a funded slot"),
    }
}

#[test]
fn fulfill_rejects_short_taker_and_leaves_everything_in_place() {
    let program = pk(9);
    let maker = pk(1);
    let mut maker_balance_a = 100u64;
    let mut slot = open_escrow(&program, &maker, 1, 100, 50, &mut maker_balance_a);
    let before = slot;

    let mut taker_balance_b = 49u64;
    let mut maker_balance_b = 7u64;
    let mut taker_balance_a = 11u64;
    let r = take(
        &mut slot,
        &program,
        &mut taker_balance_b,
        &mut maker_balance_b,
        &mut taker_balance_a,
    );
    assert_eq!(r, Err(EscrowError::InsufficientFunds));
    assert_eq!(taker_balance_b, 49);
    assert_eq!(maker_balance_b, 7);
    assert_eq!(taker_balance_a, 11);
    assert_eq!(slot, before);
}

#[test]
fn derivation_is_deterministic_and_matches_the_solana_derivation() {
    let program = pk(7);
    let maker = pk(4);
    let seed = 42u64;
    let (address, bump) = derive_vault_authority(&program, &maker, seed).unwrap();
    let (address_again, bump_again) = derive_vault_authority(&program, &maker, seed).unwrap();
    assert_eq!(address, address_again);
    assert_eq!(bump, bump_again);

    let program_id = anchor_lang::solana_program::pubkey::Pubkey::new_from_array(program.bytes);
    let (expected, expected_bump) = anchor_lang::solana_program::pubkey::Pubkey::find_program_address(
        &[b"escrow", &maker.bytes, &seed.to_le_bytes()],
        &program_id,
    );
    assert_eq!(address.bytes, expected.to_bytes());
    assert_eq!(bump, expected_bump);

    // Distinct seeds must not collide on the same authority.
    let (other, _) = derive_vault_authority(&program, &maker, 43).unwrap();
    assert_ne!(address, other);
}

#[test]
fn open_caches_the_derived_bump() {
    let program = pk(9);
    let maker = pk(1);
    let mut maker_balance_a = 5u64;
    let slot = open_escrow(&program, &maker, 11, 5, 5, &mut maker_balance_a);
    let (address, bump) = derive_vault_authority(&program, &maker, 11).unwrap();
    match slot {
        EscrowAccount::Funded { record, vault } => {
            assert_eq!(record.bump, bump);
            assert_eq!(vault.authority, address);
        }
        _ => panic!("expected a funded slot"),
    }
}

#[test]
fn try_take_settles_a_well_formed_slot() {
    let program = pk(9);
    let maker = pk(1);
    let mut maker_balance_a = 100u64;
    let mut slot = open_escrow(&program, &maker, 1, 100, 50, &mut maker_balance_a);
    let mut taker_balance_b = 60u64;
    let mut maker_balance_b = 0u64;
    let mut taker_balance_a = 0u64;
    let r = try_take(
        &mut slot,
        &program,
        &mut taker_balance_b,
        &mut maker_balance_b,
        &mut taker_balance_a,
    );
    assert_eq!(r, Some(Ok(())));
    assert_eq!(taker_balance_b, 10);
    assert_eq!(maker_balance_b, 50);
    assert_eq!(taker_balance_a, 100);
    assert_eq!(slot, EscrowAccount::Closed);
}

#[test]
fn try_take_rejects_a_forged_authority() {
    let program = pk(9);
    let maker = pk(1);
    let forged = EscrowAccount::Funded {
        record: Escrow {
            seed: 1,
            maker,
            mint_a: pk(2),
            mint_b: pk(3),
            receive: 50,
            bump: 0,
        },
        vault: Vault {
            authority: pk(6),
            amount: 100,
        },
    };
    let mut slot = forged;
    let mut taker_balance_b = 60u64;
    let mut maker_balance_b = 0u64;
    let mut taker_balance_a = 0u64;
    let r = try_take(
        &mut slot,
        &program,
        &mut taker_balance_b,
        &mut maker_balance_b,
        &mut taker_balance_a,
    );
    assert_eq!(r, None);
    assert_eq!(slot, forged);
    assert_eq!(taker_balance_b, 60);
    assert_eq!(maker_balance_b, 0);
    assert_eq!(taker_balance_a, 0);
}

#[test]
fn try_take_rejects_an_overflowing_credit() {
    let program = pk(9);
    let maker = pk(1);
    let mut maker_balance_a = 100u64;
    let mut slot = open_escrow(&program, &maker, 1, 100, 50, &mut maker_balance_a);
    let before = slot;
    let mut taker_balance_b = 60u64;
    let mut maker_balance_b = u64::MAX;
    let mut taker_balance_a = 0u64;
    let r = try_take(
        &mut slot,
        &program,
        &mut taker_balance_b,
        &mut maker_balance_b,
        &mut taker_balance_a,
    );
    assert_eq!(r, None);
    assert_eq!(slot, before);
    assert_eq!(maker_balance_b, u64::MAX);
}

#[test]
fn try_refund_rejects_a_non_maker_and_pays_the_maker() {
    let program = pk(9);
    let maker = pk(1);
    let intruder = pk(8);
    let mut maker_balance_a = 10u64;
    let mut slot = open_escrow(&program, &maker, 2, 10, 5, &mut maker_balance_a);

    let mut intruder_balance_a = 3u64;
    let r = try_refund(&mut slot, &program, &intruder, &mut intruder_balance_a);
    assert_eq!(r, Some(Err(EscrowError::Unauthorized)));
    assert_eq!(intruder_balance_a, 3);
    assert!(matches!(slot, EscrowAccount::Funded { .. }));

    let r = try_refund(&mut slot, &program, &maker, &mut maker_balance_a);
    assert_eq!(r, Some(Ok(())));
    assert_eq!(maker_balance_a, 10);
    assert_eq!(slot, EscrowAccount::Closed);
}

#[test]
fn pubkey_equality_compares_all_bytes() {
    let a = pk(5);
    let mut bytes = [5u8; 32];
    bytes[31] = 6;
    let b = Pubkey::new(bytes);
    assert!(a.equals(&a));
    assert!(!a.equals(&b));
}
