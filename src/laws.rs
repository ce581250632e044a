//! What holds of the transitions over any inputs and any run of calls.
use vstd::prelude::*;

use crate::instructions::log_outcome;
use crate::state::{fresh_account, SolAIError, UserAccount};

verus! {

/// The arguments of one call that logs an interaction.
#[derive(Clone, Copy, Debug, PartialEq, Eq)]
pub struct LogCall {
    pub prompt_hash: [u8; 32],
    pub response_hash: [u8; 32],
    pub fee_lamports: u64,
    pub slot: u64,
}

/// The record after `signer` logs `calls` on `acct` in order, or the first
/// error.
pub open spec fn log_calls(acct: UserAccount, signer: [u8; 32], calls: Seq<LogCall>) -> Result<UserAccount, SolAIError>
    decreases calls.len(),
{
    if calls.len() == 0 {
        Ok(acct)
    } else {
        let c = calls.last();
        match log_calls(acct, signer, calls.drop_last()) {
            Ok(a) => log_outcome(Some(a), signer, c.prompt_hash, c.response_hash, c.fee_lamports, c.slot),
            Err(e) => Err(e),
        }
    }
}

/// The sum of the fees of `calls`.
pub open spec fn fee_total(calls: Seq<LogCall>) -> int
    decreases calls.len(),
{
    if calls.len() == 0 {
        0
    } else {
        fee_total(calls.drop_last()) + calls.last().fee_lamports
    }
}

/// A run of successful logs adds one query per call and each call's fee to
/// the record, and keeps its owner and bump seed.
pub proof fn lemma_log_calls_accumulate(acct: UserAccount, signer: [u8; 32], calls: Seq<LogCall>)
    ensures
        match log_calls(acct, signer, calls) {
            Ok(b) => b.total_queries == acct.total_queries + calls.len()
                && b.total_fees_paid == acct.total_fees_paid + fee_total(calls)
                && b.authority == acct.authority && b.bump == acct.bump,
            Err(_) => true,
        },
    decreases calls.len(),
{
    if calls.len() > 0 {
        lemma_log_calls_accumulate(acct, signer, calls.drop_last());
    }
}

/// After a record is created for `owner`, any number of successful logs
/// leaves it with as many queries as there were calls and with the sum of
/// their fees paid.
pub proof fn lemma_monotonic_accumulation(owner: [u8; 32], bump: u8, calls: Seq<LogCall>)
    ensures
        match log_calls(fresh_account(owner, bump), owner, calls) {
            Ok(b) => b.total_queries == calls.len() && b.total_fees_paid == fee_total(calls),
            Err(_) => true,
        },
{
    lemma_log_calls_accumulate(fresh_account(owner, bump), owner, calls);
}

/// Once a record is created for `owner`, whatever interactions `owner` has
/// logged since, a log by any other signer fails as unauthorized, and only
/// `owner` can log successfully.
pub proof fn lemma_single_owner_binding(
    owner: [u8; 32],
    bump: u8,
    earlier: Seq<LogCall>,
    signer: [u8; 32],
    call: LogCall,
)
    requires
        log_calls(fresh_account(owner, bump), owner, earlier) is Ok,
    ensures
        ({
            let rec = log_calls(fresh_account(owner, bump), owner, earlier)->Ok_0;
            let r = log_outcome(Some(rec), signer, call.prompt_hash, call.response_hash, call.fee_lamports, call.slot);
            &&& signer != owner ==> r == Err::<UserAccount, SolAIError>(SolAIError::UnauthorizedAuthority)
            &&& r is Ok ==> signer == owner
        }),
{
    lemma_log_calls_accumulate(fresh_account(owner, bump), owner, earlier);
}

/// A log by the owner with a zero fee fails with `InvalidFee`.
pub proof fn lemma_zero_fee_rejected(
    acct: UserAccount,
    prompt_hash: [u8; 32],
    response_hash: [u8; 32],
    slot: u64,
)
    ensures
        log_outcome(Some(acct), acct.authority, prompt_hash, response_hash, 0, slot)
            == Err::<UserAccount, SolAIError>(SolAIError::InvalidFee),
{
}

/// A log by the owner with a positive fee on a record whose query count is
/// at the largest `u64` fails with `MathOverflow`.
pub proof fn lemma_overflow_guard(
    acct: UserAccount,
    prompt_hash: [u8; 32],
    response_hash: [u8; 32],
    fee: u64,
    slot: u64,
)
    requires
        acct.total_queries == u64::MAX,
        fee > 0,
    ensures
        log_outcome(Some(acct), acct.authority, prompt_hash, response_hash, fee, slot)
            == Err::<UserAccount, SolAIError>(SolAIError::MathOverflow),
{
}

} // verus!
