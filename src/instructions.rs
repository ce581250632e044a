//! The ledger's two transitions: creating a user record and logging an
//! interaction against it.
use vstd::prelude::*;

use crate::address::{derive_user_address, keys_equal, user_address};
use crate::state::{fresh_account, InitializeError, SolAIError, UserAccount};

verus! {

/// What the creation of a user record sees: the program, the signer, and
/// whatever already stands at the signer's record address.
pub struct InitializeUser {
    pub program_id: [u8; 32],
    pub authority: [u8; 32],
    pub user_account: Option<UserAccount>,
}

/// What logging an interaction sees: the signer and the record at the
/// signer's address, if there is one.
pub struct LogInteraction {
    pub authority: [u8; 32],
    pub user_account: Option<UserAccount>,
}

/// The fee movement that a successful log asks the host to make: `lamports`
/// from the signer `from` to the treasury.
#[derive(Clone, Copy, Debug, PartialEq, Eq)]
pub struct Transfer {
    pub from: [u8; 32],
    pub lamports: u64,
}

/// The outcome of creating the record of `authority`.
pub open spec fn initialize_outcome(
    program_id: [u8; 32],
    authority: [u8; 32],
    existing: Option<UserAccount>,
) -> Result<UserAccount, InitializeError> {
    if existing is Some {
        Err(InitializeError::AccountAlreadyInitialized)
    } else {
        match user_address(program_id@, authority@) {
            Some((_, bump)) => Ok(fresh_account(authority, bump)),
            None => Err(InitializeError::NoViableBump),
        }
    }
}

/// Creates the record of the signer, with all counters and hashes zero and
/// the bump seed of its derived address. An existing record is never
/// overwritten: on any error the context is left as it was.
pub fn initialize_user(ctx: &mut InitializeUser) -> (r: Result<(), InitializeError>)
    ensures
        final(ctx).program_id == old(ctx).program_id,
        final(ctx).authority == old(ctx).authority,
        match initialize_outcome(old(ctx).program_id, old(ctx).authority, old(ctx).user_account) {
            Ok(acct) => r is Ok && final(ctx).user_account == Some(acct),
            Err(e) => r == Err::<(), InitializeError>(e) && final(ctx).user_account == old(ctx).user_account,
        },
{
    if ctx.user_account.is_some() {
        return Err(InitializeError::AccountAlreadyInitialized);
    }
    match derive_user_address(&ctx.program_id, &ctx.authority) {
        Some((_, bump)) => {
            ctx.user_account = Some(UserAccount::new(ctx.authority, bump));
            Ok(())
        },
        None => Err(InitializeError::NoViableBump),
    }
}

/// The record after one interaction is logged on `acct` by `signer`, or the
/// error of the first check that fails: the signer must own the record, the
/// fee must be positive, and neither counter may leave the range of `u64`.
pub open spec fn log_outcome(
    acct: Option<UserAccount>,
    signer: [u8; 32],
    prompt_hash: [u8; 32],
    response_hash: [u8; 32],
    fee: u64,
    slot: u64,
) -> Result<UserAccount, SolAIError> {
    match acct {
        None => Err(SolAIError::UnauthorizedAuthority),
        Some(a) => {
            if a.authority != signer {
                Err(SolAIError::UnauthorizedAuthority)
            } else if fee == 0 {
                Err(SolAIError::InvalidFee)
            } else if a.total_queries + 1 > u64::MAX {
                Err(SolAIError::MathOverflow)
            } else if a.total_fees_paid + fee > u64::MAX {
                Err(SolAIError::MathOverflow)
            } else {
                Ok(UserAccount {
                    total_queries: (a.total_queries + 1) as u64,
                    total_fees_paid: (a.total_fees_paid + fee) as u64,
                    last_prompt_hash: prompt_hash,
                    last_response_hash: response_hash,
                    last_log_slot: slot,
                    ..a
                })
            }
        },
    }
}

/// Logs one interaction at `slot`, the host's current slot, charging
/// `fee_lamports`. All checks come before any change: on success the record
/// holds the new counters, hashes and slot, and the transfer of the fee from
/// the signer to the treasury is returned for the host to make (the record is
/// kept only if that transfer succeeds); on failure nothing changes and no
/// transfer is asked for.
pub fn log_interaction(
    ctx: &mut LogInteraction,
    prompt_hash: [u8; 32],
    response_hash: [u8; 32],
    fee_lamports: u64,
    slot: u64,
) -> (r: Result<Transfer, SolAIError>)
    ensures
        final(ctx).authority == old(ctx).authority,
        match log_outcome(old(ctx).user_account, old(ctx).authority, prompt_hash, response_hash, fee_lamports, slot) {
            Ok(acct) => final(ctx).user_account == Some(acct) && r == Ok::<Transfer, SolAIError>(
                (Transfer { from: old(ctx).authority, lamports: fee_lamports }),
            ),
            Err(e) => final(ctx).user_account == old(ctx).user_account && r == Err::<Transfer, SolAIError>(e),
        },
{
    let acct = match ctx.user_account {
        Some(a) => a,
        None => {
            return Err(SolAIError::UnauthorizedAuthority);
        },
    };
    if !keys_equal(&acct.authority, &ctx.authority) {
        return Err(SolAIError::UnauthorizedAuthority);
    }
    if fee_lamports == 0 {
        return Err(SolAIError::InvalidFee);
    }
    let total_queries = match acct.total_queries.checked_add(1) {
        Some(n) => n,
        None => {
            return Err(SolAIError::MathOverflow);
        },
    };
    let total_fees_paid = match acct.total_fees_paid.checked_add(fee_lamports) {
        Some(n) => n,
        None => {
            return Err(SolAIError::MathOverflow);
        },
    };
    ctx.user_account = Some(
        UserAccount {
            total_queries,
            total_fees_paid,
            last_prompt_hash: prompt_hash,
            last_response_hash: response_hash,
            last_log_slot: slot,
            ..acct
        },
    );
    Ok(Transfer { from: ctx.authority, lamports: fee_lamports })
}

} // verus!
