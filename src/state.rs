//! The persisted user record and the errors of the ledger's transitions.
use vstd::prelude::*;

verus! {

/// Bytes of the type tag that opens every serialized record.
pub const DISCRIMINATOR_LEN: usize = 8;

/// Bytes of a record's fields, after the type tag.
pub const USER_ACCOUNT_DATA_LEN: usize = 32 + 8 + 8 + 32 + 32 + 8 + 1;

/// Bytes that a serialized `UserAccount` takes, type tag included: the space
/// its storage slot is created with.
pub const USER_ACCOUNT_LEN: usize = DISCRIMINATOR_LEN + USER_ACCOUNT_DATA_LEN;

/// The ledger record of one owner.
#[derive(Clone, Copy, Debug, PartialEq, Eq)]
pub struct UserAccount {
    /// The only signer allowed to log interactions on this record.
    pub authority: [u8; 32],
    /// Number of interactions logged so far.
    pub total_queries: u64,
    /// Sum of the fees of all logged interactions.
    pub total_fees_paid: u64,
    pub last_prompt_hash: [u8; 32],
    pub last_response_hash: [u8; 32],
    /// Slot at which the last interaction was logged.
    pub last_log_slot: u64,
    /// Bump seed of the record's derived address.
    pub bump: u8,
}

/// Errors of the ledger's own rules.
#[derive(Clone, Copy, Debug, PartialEq, Eq, Structural)]
pub enum SolAIError {
    /// The signer is not the owner bound to the record.
    UnauthorizedAuthority,
    /// A counter would exceed the range of `u64`.
    MathOverflow,
    /// The fee is zero.
    InvalidFee,
}

/// Why a user record could not be created.
#[derive(Clone, Copy, Debug, PartialEq, Eq, Structural)]
pub enum InitializeError {
    /// A record already stands at the owner's address.
    AccountAlreadyInitialized,
    /// No bump seed gives the owner a program-derived address.
    NoViableBump,
}

/// The all-zero hash that a fresh record holds.
pub open spec fn zero_hash() -> [u8; 32] {
    vstd::array::spec_array_fill_for_copy_type::<u8, 32>(0u8)
}

/// The record that initialization writes for `authority`.
pub open spec fn fresh_account(authority: [u8; 32], bump: u8) -> UserAccount {
    UserAccount {
        authority,
        total_queries: 0,
        total_fees_paid: 0,
        last_prompt_hash: zero_hash(),
        last_response_hash: zero_hash(),
        last_log_slot: 0,
        bump,
    }
}

impl UserAccount {
    /// A new record owned by `authority`, with all counters and hashes zero.
    pub fn new(authority: [u8; 32], bump: u8) -> (r: UserAccount)
        ensures
            r == fresh_account(authority, bump),
    {
        UserAccount {
            authority,
            total_queries: 0,
            total_fees_paid: 0,
            last_prompt_hash: [0u8; 32],
            last_response_hash: [0u8; 32],
            last_log_slot: 0,
            bump,
        }
    }
}

} // verus!
