use crate::authority::{derive_vault_authority, vault_authority_of};
use crate::pubkey::Pubkey;
use crate::state::{Escrow, EscrowAccount, EscrowError, Vault};
use vstd::prelude::*;

verus! {

/// A funded slot is well formed when its cached authority and bump are exactly
/// what derivation from (program, maker, seed) yields. Open establishes this;
/// no operation disturbs it.
pub open spec fn slot_wf(slot: EscrowAccount, program: Seq<u8>) -> bool {
    slot matches EscrowAccount::Funded { record, vault } ==> vault_authority_of(
        program,
        record.maker@,
        record.seed,
    ) == Some((vault.authority@, record.bump))
}

/// Open succeeds exactly when the address is unoccupied, derivation yields an
/// authority, and the maker can cover the deposit.
pub open spec fn make_allowed(
    slot: EscrowAccount,
    program: Seq<u8>,
    maker: Seq<u8>,
    seed: u64,
    deposit: u64,
    maker_balance_a: u64,
) -> bool {
    &&& slot is NonExistent
    &&& vault_authority_of(program, maker, seed) is Some
    &&& maker_balance_a >= deposit
}

/// Fulfilment succeeds exactly when the record is open and the taker covers
/// the demanded amount.
pub open spec fn take_allowed(slot: EscrowAccount, taker_balance_b: u64) -> bool {
    slot matches EscrowAccount::Funded { record, .. } && taker_balance_b >= record.receive
}

/// Cancellation succeeds exactly when the record is open and the caller is its
/// maker.
pub open spec fn refund_allowed(slot: EscrowAccount, caller: Seq<u8>) -> bool {
    slot matches EscrowAccount::Funded { record, .. } && caller == record.maker@
}

/// Open an escrow: create the record and its vault at the (maker, seed)
/// address and move exactly `deposit` units of `mint_a` from the maker's
/// holdings into the vault. On any failure nothing changes: either both the
/// record and the funded vault exist afterwards, or neither does.
pub fn make(
    slot: &mut EscrowAccount,
    program: &Pubkey,
    maker: &Pubkey,
    mint_a: &Pubkey,
    mint_b: &Pubkey,
    seed: u64,
    deposit: u64,
    receive: u64,
    maker_balance_a: &mut u64,
) -> (r: Result<(), EscrowError>)
    ensures
        r is Ok <==> make_allowed(
            *old(slot),
            program@,
            maker@,
            seed,
            deposit,
            *old(maker_balance_a),
        ),
        r is Ok ==> {
            &&& *final(maker_balance_a) == *old(maker_balance_a) - deposit
            &&& *final(slot) matches EscrowAccount::Funded { record, vault }
            &&& final(slot)->record.seed == seed
            &&& final(slot)->record.maker == *maker
            &&& final(slot)->record.mint_a == *mint_a
            &&& final(slot)->record.mint_b == *mint_b
            &&& final(slot)->record.receive == receive
            &&& final(slot)->vault.amount == deposit
            &&& vault_authority_of(program@, maker@, seed) == Some(
                (final(slot)->vault.authority@, final(slot)->record.bump),
            )
        },
        r is Ok ==> slot_wf(*final(slot), program@),
        r is Err ==> *final(slot) == *old(slot) && *final(maker_balance_a) == *old(
            maker_balance_a,
        ),
        !(*old(slot) is NonExistent) ==> r == Err::<(), EscrowError>(
            EscrowError::AccountCreationFailure,
        ),
        *old(slot) is NonExistent && vault_authority_of(program@, maker@, seed) is None ==> r
            == Err::<(), EscrowError>(EscrowError::AccountCreationFailure),
        *old(slot) is NonExistent && vault_authority_of(program@, maker@, seed) is Some && *old(
            maker_balance_a,
        ) < deposit ==> r == Err::<(), EscrowError>(EscrowError::InsufficientFunds),
{
    match *slot {
        EscrowAccount::NonExistent => {},
        _ => {
            return Err(EscrowError::AccountCreationFailure);
        },
    }
    let derived = derive_vault_authority(program, maker, seed);
    match derived {
        None => Err(EscrowError::AccountCreationFailure),
        Some((authority, bump)) => {
            if *maker_balance_a < deposit {
                Err(EscrowError::InsufficientFunds)
            } else {
                *maker_balance_a = *maker_balance_a - deposit;
                *slot = EscrowAccount::Funded {
                    record: Escrow {
                        seed,
                        maker: *maker,
                        mint_a: *mint_a,
                        mint_b: *mint_b,
                        receive,
                        bump,
                    },
                    vault: Vault { authority, amount: deposit },
                };
                Ok(())
            }
        },
    }
}

/// Re-derive the vault authority at settlement time. Well-formedness pins the
/// outcome: the derivation yields exactly the authority and bump cached when
/// the record was opened.
fn rederive_cached_authority(record: &Escrow, vault: &Vault, program: &Pubkey) -> (r: (Pubkey, u8))
    requires
        vault_authority_of(program@, record.maker@, record.seed) == Some(
            (vault.authority@, record.bump),
        ),
    ensures
        r.0@ == vault.authority@,
        r.1 == record.bump,
{
    match derive_vault_authority(program, &record.maker, record.seed) {
        Some((authority, bump)) => (authority, bump),
        None => {
            proof {
                assert(false);
            }
            (Pubkey { bytes: [0u8; 32] }, 0u8)
        },
    }
}

/// Fulfil an open escrow: pay the maker `receive` units of `mint_b` out of the
/// taker's holdings, then release the whole vaulted deposit of `mint_a` to the
/// taker and close the record and vault. The payment leg comes first, so a
/// short taker balance rejects the operation before anything moves: either all
/// four effects happen or none does.
pub fn take(
    slot: &mut EscrowAccount,
    program: &Pubkey,
    taker_balance_b: &mut u64,
    maker_balance_b: &mut u64,
    taker_balance_a: &mut u64,
) -> (r: Result<(), EscrowError>)
    requires
        slot_wf(*old(slot), program@),
        *old(slot) matches EscrowAccount::Funded { record, vault } ==> *old(maker_balance_b)
            + record.receive <= u64::MAX && *old(taker_balance_a) + vault.amount <= u64::MAX,
    ensures
        r is Ok <==> take_allowed(*old(slot), *old(taker_balance_b)),
        *old(slot) is Funded && *old(taker_balance_b) >= (*old(slot))->record.receive ==> {
            &&& *final(taker_balance_b) == *old(taker_balance_b) - (*old(slot))->record.receive
            &&& *final(maker_balance_b) == *old(maker_balance_b) + (*old(slot))->record.receive
            &&& *final(taker_balance_a) == *old(taker_balance_a) + (*old(slot))->vault.amount
            &&& *final(slot) is Closed
        },
        !(*old(slot) is Funded) ==> r == Err::<(), EscrowError>(EscrowError::StaleEscrow),
        *old(slot) is Funded && *old(taker_balance_b) < (*old(slot))->record.receive ==> r == Err::<
            (),
            EscrowError,
        >(EscrowError::InsufficientFunds),
        r is Err ==> {
            &&& *final(slot) == *old(slot)
            &&& *final(taker_balance_b) == *old(taker_balance_b)
            &&& *final(maker_balance_b) == *old(maker_balance_b)
            &&& *final(taker_balance_a) == *old(taker_balance_a)
        },
{
    let (record, vault) = match *slot {
        EscrowAccount::Funded { record, vault } => (record, vault),
        _ => {
            return Err(EscrowError::StaleEscrow);
        },
    };
    if *taker_balance_b < record.receive {
        return Err(EscrowError::InsufficientFunds);
    }
    // The authority that signs the vault release is re-derived, never stored as
    // a credential; the contract pins it to the pair cached at open time.
    let _authority = rederive_cached_authority(&record, &vault, program);
    // Payment leg first: the maker is paid before the vault is released.
    *taker_balance_b = *taker_balance_b - record.receive;
    *maker_balance_b = *maker_balance_b + record.receive;
    *taker_balance_a = *taker_balance_a + vault.amount;
    *slot = EscrowAccount::Closed;
    Ok(())
}

/// Cancel an open escrow: return the whole vaulted deposit of `mint_a` to the
/// maker and close the record and vault. Only the record's maker may cancel;
/// any other caller is rejected with nothing changed.
pub fn refund(
    slot: &mut EscrowAccount,
    program: &Pubkey,
    caller: &Pubkey,
    maker_balance_a: &mut u64,
) -> (r: Result<(), EscrowError>)
    requires
        slot_wf(*old(slot), program@),
        *old(slot) matches EscrowAccount::Funded { vault, .. } ==> *old(maker_balance_a)
            + vault.amount <= u64::MAX,
    ensures
        r is Ok <==> refund_allowed(*old(slot), caller@),
        *old(slot) is Funded && caller@ == (*old(slot))->record.maker@ ==> {
            &&& *final(maker_balance_a) == *old(maker_balance_a) + (*old(slot))->vault.amount
            &&& *final(slot) is Closed
        },
        !(*old(slot) is Funded) ==> r == Err::<(), EscrowError>(EscrowError::StaleEscrow),
        *old(slot) is Funded && caller@ != (*old(slot))->record.maker@ ==> r == Err::<
            (),
            EscrowError,
        >(EscrowError::Unauthorized),
        r is Err ==> *final(slot) == *old(slot) && *final(maker_balance_a) == *old(
            maker_balance_a,
        ),
{
    let (record, vault) = match *slot {
        EscrowAccount::Funded { record, vault } => (record, vault),
        _ => {
            return Err(EscrowError::StaleEscrow);
        },
    };
    if !caller.equals(&record.maker) {
        return Err(EscrowError::Unauthorized);
    }
    // As in `take`, the releasing authority is re-derived rather than stored.
    let _authority = rederive_cached_authority(&record, &vault, program);
    *maker_balance_a = *maker_balance_a + vault.amount;
    *slot = EscrowAccount::Closed;
    Ok(())
}

/// Whether a funded slot's cached authority and the credits a fulfilment would
/// make are safe to settle: the slot is well formed and neither credited
/// balance would overflow.
pub open spec fn take_checks_pass(
    slot: EscrowAccount,
    program: Seq<u8>,
    maker_balance_b: u64,
    taker_balance_a: u64,
) -> bool {
    &&& slot_wf(slot, program)
    &&& slot matches EscrowAccount::Funded { record, vault } ==> maker_balance_b + record.receive
        <= u64::MAX && taker_balance_a + vault.amount <= u64::MAX
}

/// Fulfil with every precondition of `take` established at run time: the
/// cached authority is checked against a fresh derivation and the credited
/// balances against overflow. `None` means a check failed and nothing changed;
/// `Some` carries the outcome of `take` under its full contract.
pub fn try_take(
    slot: &mut EscrowAccount,
    program: &Pubkey,
    taker_balance_b: &mut u64,
    maker_balance_b: &mut u64,
    taker_balance_a: &mut u64,
) -> (r: Option<Result<(), EscrowError>>)
    ensures
        r is Some <==> take_checks_pass(
            *old(slot),
            program@,
            *old(maker_balance_b),
            *old(taker_balance_a),
        ),
        r matches Some(res) ==> {
            &&& (res is Ok <==> take_allowed(*old(slot), *old(taker_balance_b)))
            &&& !(*old(slot) is Funded) ==> res == Err::<(), EscrowError>(EscrowError::StaleEscrow)
            &&& *old(slot) is Funded && *old(taker_balance_b) < (*old(slot))->record.receive
                ==> res == Err::<(), EscrowError>(EscrowError::InsufficientFunds)
        },
        *old(slot) is Funded && *old(taker_balance_b) >= (*old(slot))->record.receive && r is Some
            ==> {
            &&& *final(taker_balance_b) == *old(taker_balance_b) - (*old(slot))->record.receive
            &&& *final(maker_balance_b) == *old(maker_balance_b) + (*old(slot))->record.receive
            &&& *final(taker_balance_a) == *old(taker_balance_a) + (*old(slot))->vault.amount
            &&& *final(slot) is Closed
        },
        r is None || (r matches Some(res) && res is Err) ==> {
            &&& *final(slot) == *old(slot)
            &&& *final(taker_balance_b) == *old(taker_balance_b)
            &&& *final(maker_balance_b) == *old(maker_balance_b)
            &&& *final(taker_balance_a) == *old(taker_balance_a)
        },
{
    match *slot {
        EscrowAccount::Funded { record, vault } => {
            match derive_vault_authority(program, &record.maker, record.seed) {
                Some((authority, bump)) => {
                    if !authority.equals(&vault.authority) || bump != record.bump {
                        return None;
                    }
                },
                None => {
                    return None;
                },
            }
            if *maker_balance_b > u64::MAX - record.receive {
                return None;
            }
            if *taker_balance_a > u64::MAX - vault.amount {
                return None;
            }
        },
        _ => {},
    }
    Some(take(slot, program, taker_balance_b, maker_balance_b, taker_balance_a))
}

/// Cancel with every precondition of `refund` established at run time, in the
/// same way as `try_take`. `None` means a check failed and nothing changed;
/// `Some` carries the outcome of `refund` under its full contract.
pub fn try_refund(
    slot: &mut EscrowAccount,
    program: &Pubkey,
    caller: &Pubkey,
    maker_balance_a: &mut u64,
) -> (r: Option<Result<(), EscrowError>>)
    ensures
        r is Some <==> slot_wf(*old(slot), program@) && (*old(slot) matches EscrowAccount::Funded {
            vault,
            ..
        } ==> *old(maker_balance_a) + vault.amount <= u64::MAX),
        r matches Some(res) ==> {
            &&& (res is Ok <==> refund_allowed(*old(slot), caller@))
            &&& !(*old(slot) is Funded) ==> res == Err::<(), EscrowError>(EscrowError::StaleEscrow)
            &&& *old(slot) is Funded && caller@ != (*old(slot))->record.maker@ ==> res == Err::<
                (),
                EscrowError,
            >(EscrowError::Unauthorized)
        },
        *old(slot) is Funded && caller@ == (*old(slot))->record.maker@ && r is Some ==> {
            &&& *final(maker_balance_a) == *old(maker_balance_a) + (*old(slot))->vault.amount
            &&& *final(slot) is Closed
        },
        r is None || (r matches Some(res) && res is Err) ==> {
            &&& *final(slot) == *old(slot)
            &&& *final(maker_balance_a) == *old(maker_balance_a)
        },
{
    match *slot {
        EscrowAccount::Funded { record, vault } => {
            match derive_vault_authority(program, &record.maker, record.seed) {
                Some((authority, bump)) => {
                    if !authority.equals(&vault.authority) || bump != record.bump {
                        return None;
                    }
                },
                None => {
                    return None;
                },
            }
            if *maker_balance_a > u64::MAX - vault.amount {
                return None;
            }
        },
        _ => {},
    }
    Some(refund(slot, program, caller, maker_balance_a))
}

/// Single terminal transition: once a record's address has left the funded
/// state, neither fulfilment nor cancellation is enabled again, whatever
/// balance a taker brings and whoever calls. Together with the contracts of
/// `take` and `refund` (a successful settlement leaves the slot closed, and a
/// settlement of a non-funded slot returns `StaleEscrow` unchanged), at most
/// one of the two ever succeeds for a given record.
pub proof fn lemma_single_terminal_transition(
    slot: EscrowAccount,
    taker_balance_b: u64,
    caller: Seq<u8>,
)
    requires
        !(slot is Funded),
    ensures
        !take_allowed(slot, taker_balance_b),
        !refund_allowed(slot, caller),
{
}

} // verus!
