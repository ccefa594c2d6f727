use crate::pubkey::Pubkey;
use vstd::prelude::*;

verus! {

/// One outstanding trade offer. Its fields are fixed at creation; the record
/// is destroyed exactly once, by either fulfilment or cancellation.
#[derive(Clone, Copy, Debug, PartialEq, Eq)]
pub struct Escrow {
    /// Chosen by the maker so one maker can hold several simultaneous escrows;
    /// participates in deriving the record's unique address.
    pub seed: u64,
    /// The party who opened the escrow; the only identity authorized to cancel.
    pub maker: Pubkey,
    /// The asset the maker deposited.
    pub mint_a: Pubkey,
    /// The asset the maker demands in return.
    pub mint_b: Pubkey,
    /// The quantity of `mint_b` the maker demands.
    pub receive: u64,
    /// The derivation parameter cached at creation, so later operations can
    /// re-derive the vault authority without searching for it again.
    pub bump: u8,
}

/// The custody vault paired with a record. It holds the deposited quantity of
/// `mint_a` and is controlled only by the authority derived from the record's
/// inputs, never by an end user.
#[derive(Clone, Copy, Debug, PartialEq, Eq)]
pub struct Vault {
    /// The derived authority that alone controls the vault.
    pub authority: Pubkey,
    /// The deposited quantity of the record's `mint_a`.
    pub amount: u64,
}

/// The lifecycle of the escrow address belonging to one (maker, seed) pair.
/// Record and vault are co-created by open and co-destroyed by exactly one of
/// fulfil or cancel: a record exists if and only if its funded vault does.
#[derive(Clone, Copy, Debug, PartialEq, Eq)]
pub enum EscrowAccount {
    /// No record was ever created at this address.
    NonExistent,
    /// An open offer: the record and its funded vault exist together.
    Funded { record: Escrow, vault: Vault },
    /// The record was settled or cancelled; the terminal state.
    Closed,
}

/// Why a settlement operation was rejected. Every failure is detected before
/// any balance moves, so a rejected operation leaves no partial state.
#[derive(Clone, Copy, Debug, PartialEq, Eq, Structural)]
pub enum EscrowError {
    /// The payer cannot cover the required transfer.
    InsufficientFunds,
    /// The caller is not the identity the operation demands (a non-maker
    /// attempting to cancel).
    Unauthorized,
    /// The record referenced no longer exists: already settled or cancelled.
    StaleEscrow,
    /// Storage allocation for the record or vault failed, or the address is
    /// already occupied.
    AccountCreationFailure,
}

} // verus!
