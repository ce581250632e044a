use solai::address::{derive_treasury_address, derive_user_address, is_user_address};
use solai::instructions::{initialize_user, log_interaction, InitializeUser, LogInteraction, Transfer};
use solai::state::{InitializeError, SolAIError, UserAccount, DISCRIMINATOR_LEN, USER_ACCOUNT_DATA_LEN, USER_ACCOUNT_LEN};

const PROGRAM: [u8; 32] = [7u8; 32];
const USER_U: [u8; 32] = [1u8; 32];
const USER_V: [u8; 32] = [2u8; 32];

fn initialized(owner: [u8; 32]) -> UserAccount {
    let mut ctx = InitializeUser { program_id: PROGRAM, authority: owner, user_account: None };
    assert_eq!(initialize_user(&mut ctx), Ok(()));
    ctx.user_account.unwrap()
}

fn log(
    signer: [u8; 32],
    record: Option<UserAccount>,
    prompt: [u8; 32],
    response: [u8; 32],
    fee: u64,
    slot: u64,
) -> (Result<Transfer, SolAIError>, Option<UserAccount>) {
    let mut ctx = LogInteraction { authority: signer, user_account: record };
    let r = log_interaction(&mut ctx, prompt, response, fee, slot);
    assert_eq!(ctx.authority, signer);
    (r, ctx.user_account)
}

#[test]
fn derivation_twice_gives_same_address_and_bump() {
    let first = derive_user_address(&PROGRAM, &USER_U);
    let second = derive_user_address(&PROGRAM, &USER_U);
    assert!(first.is_some());
    assert_eq!(first, second);
    assert_eq!(derive_treasury_address(&PROGRAM), derive_treasury_address(&PROGRAM));
}

#[test]
fn user_address_matches_known_value() {
    let (address, bump) = derive_user_address(&PROGRAM, &USER_U).unwrap();
    assert_eq!(
        address,
        [
            63, 109, 31, 238, 40, 233, 11, 7, 30, 241, 70, 112, 78, 165, 57, 130, 238, 60, 239, 144, 26, 175,
            224, 144, 61, 243, 72, 207, 194, 97, 46, 192
        ]
    );
    assert_eq!(bump, 253);
}

#[test]
fn treasury_address_matches_known_value() {
    let (address, bump) = derive_treasury_address(&PROGRAM).unwrap();
    assert_eq!(
        address,
        [
            53, 65, 231, 115, 196, 238, 248, 229, 212, 152, 24, 214, 32, 33, 117, 126, 131, 220, 84, 137, 143,
            37, 179, 207, 179, 147, 71, 185, 127, 235, 215, 132
        ]
    );
    assert_eq!(bump, 255);
}

#[test]
fn owners_get_distinct_addresses() {
    let u = derive_user_address(&PROGRAM, &USER_U).unwrap();
    let v = derive_user_address(&PROGRAM, &USER_V).unwrap();
    assert_ne!(u.0, v.0);
    assert_eq!(v.1, 254);
    assert_ne!(u.0, derive_treasury_address(&PROGRAM).unwrap().0);
}

#[test]
fn initialize_writes_zeroed_record() {
    let rec = initialized(USER_U);
    assert_eq!(rec, UserAccount::new(USER_U, 253));
    assert_eq!(rec.authority, USER_U);
    assert_eq!(rec.total_queries, 0);
    assert_eq!(rec.total_fees_paid, 0);
    assert_eq!(rec.last_prompt_hash, [0u8; 32]);
    assert_eq!(rec.last_response_hash, [0u8; 32]);
    assert_eq!(rec.last_log_slot, 0);
    assert_eq!(rec.bump, 253);
}

#[test]
fn initialize_refuses_existing_record() {
    let existing = UserAccount { total_queries: 5, ..UserAccount::new(USER_U, 9) };
    let mut ctx = InitializeUser { program_id: PROGRAM, authority: USER_U, user_account: Some(existing) };
    assert_eq!(initialize_user(&mut ctx), Err(InitializeError::AccountAlreadyInitialized));
    assert_eq!(ctx.user_account, Some(existing));
}

#[test]
fn scenario_owner_logs_then_stranger_is_refused() {
    let rec = initialized(USER_U);
    let h1 = [11u8; 32];
    let h2 = [12u8; 32];
    let (r, rec) = log(USER_U, Some(rec), h1, h2, 100, 40);
    assert_eq!(r, Ok(Transfer { from: USER_U, lamports: 100 }));
    let rec = rec.unwrap();
    assert_eq!(rec.authority, USER_U);
    assert_eq!(rec.total_queries, 1);
    assert_eq!(rec.total_fees_paid, 100);
    assert_eq!(rec.last_prompt_hash, h1);
    assert_eq!(rec.last_response_hash, h2);
    assert_eq!(rec.last_log_slot, 40);

    let (r, after) = log(USER_V, Some(rec), [13u8; 32], [14u8; 32], 50, 41);
    assert_eq!(r, Err(SolAIError::UnauthorizedAuthority));
    assert_eq!(after, Some(rec));
}

#[test]
fn missing_record_is_unauthorized() {
    let (r, after) = log(USER_U, None, [1u8; 32], [2u8; 32], 10, 3);
    assert_eq!(r, Err(SolAIError::UnauthorizedAuthority));
    assert_eq!(after, None);
}

#[test]
fn zero_fee_changes_nothing() {
    let rec = UserAccount {
        total_queries: 3,
        total_fees_paid: 30,
        last_prompt_hash: [5u8; 32],
        last_response_hash: [6u8; 32],
        last_log_slot: 77,
        ..UserAccount::new(USER_U, 253)
    };
    let (r, after) = log(USER_U, Some(rec), [8u8; 32], [9u8; 32], 0, 78);
    assert_eq!(r, Err(SolAIError::InvalidFee));
    assert_eq!(after, Some(rec));
}

#[test]
fn stranger_with_zero_fee_is_unauthorized_first() {
    let rec = UserAccount::new(USER_U, 253);
    let (r, _) = log(USER_V, Some(rec), [8u8; 32], [9u8; 32], 0, 1);
    assert_eq!(r, Err(SolAIError::UnauthorizedAuthority));
}

#[test]
fn query_count_overflow_asks_no_transfer() {
    let rec = UserAccount { total_queries: u64::MAX, ..UserAccount::new(USER_U, 253) };
    let (r, after) = log(USER_U, Some(rec), [8u8; 32], [9u8; 32], 1, 5);
    assert_eq!(r, Err(SolAIError::MathOverflow));
    assert_eq!(after, Some(rec));
}

#[test]
fn fee_total_overflow_is_refused() {
    let rec = UserAccount { total_fees_paid: u64::MAX - 4, ..UserAccount::new(USER_U, 253) };
    let (r, after) = log(USER_U, Some(rec), [8u8; 32], [9u8; 32], 5, 5);
    assert_eq!(r, Err(SolAIError::MathOverflow));
    assert_eq!(after, Some(rec));
    let (r, after) = log(USER_U, Some(rec), [8u8; 32], [9u8; 32], 4, 5);
    assert_eq!(r, Ok(Transfer { from: USER_U, lamports: 4 }));
    assert_eq!(after.unwrap().total_fees_paid, u64::MAX);
}

#[test]
fn counters_accumulate_over_many_logs() {
    let fees: [u64; 5] = [100, 1, 250, 7, 42];
    let mut rec = initialized(USER_U);
    let mut treasury: u64 = 0;
    for (i, fee) in fees.iter().enumerate() {
        let (r, after) = log(USER_U, Some(rec), [i as u8; 32], [i as u8 + 100; 32], *fee, 10 + i as u64);
        treasury += r.unwrap().lamports;
        rec = after.unwrap();
    }
    assert_eq!(rec.total_queries, 5);
    assert_eq!(rec.total_fees_paid, 400);
    assert_eq!(treasury, 400);
    assert_eq!(rec.last_prompt_hash, [4u8; 32]);
    assert_eq!(rec.last_response_hash, [104u8; 32]);
    assert_eq!(rec.last_log_slot, 14);
    assert_eq!(rec.authority, USER_U);
    assert_eq!(rec.bump, 253);
}

#[test]
fn record_length_is_fixed() {
    assert_eq!(DISCRIMINATOR_LEN, 8);
    assert_eq!(USER_ACCOUNT_DATA_LEN, 121);
    assert_eq!(USER_ACCOUNT_LEN, 129);
}

#[test]
fn stored_bump_rederives_record_address() {
    let (address, bump) = derive_user_address(&PROGRAM, &USER_U).unwrap();
    assert!(is_user_address(&PROGRAM, &USER_U, bump, &address));
    assert!(!is_user_address(&PROGRAM, &USER_V, bump, &address));
    assert!(!is_user_address(&PROGRAM, &USER_U, bump, &PROGRAM));
    assert!(!is_user_address(&[8u8; 32], &USER_U, bump, &address));
}

#[test]
fn initialized_record_bump_matches_its_address() {
    let rec = initialized(USER_V);
    let (address, _) = derive_user_address(&PROGRAM, &USER_V).unwrap();
    assert!(is_user_address(&PROGRAM, &USER_V, rec.bump, &address));
}
