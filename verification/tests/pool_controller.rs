use solana_swap_pool::accounts::DepositToPool;
use solana_swap_pool::accounts::InitializeTokenAccountPda;
use solana_swap_pool::accounts::ProgramData;
use solana_swap_pool::accounts::ProgramEnv;
use solana_swap_pool::accounts::SignerAccount;
use solana_swap_pool::accounts::SwapFromPoolDev;
use solana_swap_pool::accounts::TokenAccount;
use solana_swap_pool::authority::verify_upgrade_authority;
use solana_swap_pool::derivation::derive_controller;
use solana_swap_pool::derivation::seed_token_account_pda;
use solana_swap_pool::derivation::verify_binding;
use solana_swap_pool::errors::ErrorCode;
use solana_swap_pool::handlers::deposit_to_pool;
use solana_swap_pool::handlers::initialize_token_account_pda;
use solana_swap_pool::handlers::swap_from_pool_dev;
use solana_swap_pool::keys::read_pubkey;
use solana_swap_pool::keys::Pubkey;
use solana_swap_pool::transfer::token_transfer;

fn key(b: u8) -> Pubkey {
    Pubkey::from_bytes(vec![b; 32]).unwrap()
}

/// Metadata buffer holding `authority` at the fixed offset 13.
fn metadata_with(authority: &Pubkey) -> Vec<u8> {
    let mut data = vec![0u8; 13];
    data.extend_from_slice(authority.as_bytes());
    data
}

fn env() -> ProgramEnv {
    ProgramEnv { program_id: key(7), loader_id: key(9) }
}

fn valid_program_data(authority: &Pubkey, e: &ProgramEnv) -> ProgramData {
    ProgramData {
        owner: Pubkey::from_bytes(e.loader_id.as_bytes().clone()).unwrap(),
        data: metadata_with(authority),
    }
}

fn controller_address(e: &ProgramEnv) -> (Pubkey, u8) {
    derive_controller(&e.program_id).expect("derivation exhausted")
}

fn swap_accounts(
    caller: &Pubkey,
    is_signer: bool,
    pool_amount: u64,
    e: &ProgramEnv,
) -> SwapFromPoolDev {
    let (addr, _) = controller_address(e);
    SwapFromPoolDev {
        authority: SignerAccount {
            key: Pubkey::from_bytes(caller.as_bytes().clone()).unwrap(),
            is_signer,
        },
        token_account_pda: Pubkey::from_bytes(addr.as_bytes().clone()).unwrap(),
        pool_token_account: TokenAccount { owner: addr, amount: pool_amount },
        recipient_token_account: TokenAccount { owner: key(3), amount: 0 },
        program_data: valid_program_data(caller, e),
    }
}

fn init_accounts(caller: &Pubkey, is_signer: bool, e: &ProgramEnv) -> InitializeTokenAccountPda {
    let (addr, _) = controller_address(e);
    InitializeTokenAccountPda {
        authority: SignerAccount {
            key: Pubkey::from_bytes(caller.as_bytes().clone()).unwrap(),
            is_signer,
        },
        token_account_pda: addr,
        pda_record: None,
        program_data: valid_program_data(caller, e),
    }
}

fn deposit_accounts(user: &Pubkey, is_signer: bool, user_amount: u64, pool_amount: u64) -> DepositToPool {
    DepositToPool {
        user: SignerAccount {
            key: Pubkey::from_bytes(user.as_bytes().clone()).unwrap(),
            is_signer,
        },
        user_token_account: TokenAccount {
            owner: Pubkey::from_bytes(user.as_bytes().clone()).unwrap(),
            amount: user_amount,
        },
        from_token_account: TokenAccount { owner: key(42), amount: pool_amount },
    }
}

#[test]
fn seed_matches_domain_string() {
    assert_eq!(seed_token_account_pda(), b"token_account_pda".to_vec());
}

#[test]
fn derivation_matches_platform() {
    let e = env();
    let (addr, bump) = controller_address(&e);
    let pid =
        solana_program::pubkey::Pubkey::try_from(e.program_id.as_bytes().as_slice()).unwrap();
    let (expected, expected_bump) =
        solana_program::pubkey::Pubkey::find_program_address(&[b"token_account_pda"], &pid);
    assert_eq!(addr.as_bytes().as_slice(), expected.to_bytes().as_slice());
    assert_eq!(bump, expected_bump);
}

#[test]
fn binding_accepts_only_the_derivation() {
    let e = env();
    let (addr, bump) = controller_address(&e);
    assert!(verify_binding(&addr, bump, &e.program_id));
    assert!(!verify_binding(&key(1), bump, &e.program_id));
}

#[test]
fn authority_check_reads_offset_13() {
    let k = key(5);
    let e = env();
    let pd = valid_program_data(&k, &e);
    assert_eq!(verify_upgrade_authority(&k, &pd, &e.loader_id), Ok(()));
    // the recorded authority is exactly bytes [13, 45)
    let recorded = read_pubkey(&pd.data, 13);
    assert_eq!(recorded.as_bytes(), k.as_bytes());
    // a different caller is rejected
    assert_eq!(
        verify_upgrade_authority(&key(6), &pd, &e.loader_id),
        Err(ErrorCode::UnauthorizedAccess)
    );
}

#[test]
fn authority_check_rejects_misowned_metadata() {
    let k = key(5);
    let e = env();
    let pd = ProgramData { owner: key(1), data: metadata_with(&k) };
    assert_eq!(
        verify_upgrade_authority(&k, &pd, &e.loader_id),
        Err(ErrorCode::InvalidProgramData)
    );
}

#[test]
fn initialize_is_idempotent() {
    let e = env();
    let k = key(5);
    let mut accs = init_accounts(&k, true, &e);
    assert_eq!(initialize_token_account_pda(&mut accs, &e), Ok(()));
    assert_eq!(accs.pda_record.as_ref().unwrap().token_count, 0);
    assert_eq!(initialize_token_account_pda(&mut accs, &e), Ok(()));
    assert_eq!(accs.pda_record.as_ref().unwrap().token_count, 0);
}

#[test]
fn initialize_requires_signature() {
    let e = env();
    let k = key(5);
    let mut accs = init_accounts(&k, false, &e);
    assert_eq!(initialize_token_account_pda(&mut accs, &e), Err(ErrorCode::MissingSignature));
    assert!(accs.pda_record.is_none());
}

#[test]
fn initialize_rejects_wrong_caller() {
    let e = env();
    let mut accs = init_accounts(&key(5), true, &e);
    accs.authority.key = key(6);
    assert_eq!(initialize_token_account_pda(&mut accs, &e), Err(ErrorCode::UnauthorizedAccess));
    assert!(accs.pda_record.is_none());
}

#[test]
fn initialize_rejects_substituted_controller_address() {
    let e = env();
    let k = key(5);
    let mut accs = init_accounts(&k, true, &e);
    accs.token_account_pda = key(8);
    assert_eq!(initialize_token_account_pda(&mut accs, &e), Err(ErrorCode::BindingMismatch));
    assert!(accs.pda_record.is_none());
}

#[test]
fn deposit_moves_exactly_the_amount() {
    let k = key(2);
    let mut accs = deposit_accounts(&k, true, 250, 40);
    assert_eq!(deposit_to_pool(&mut accs, 100), Ok(()));
    assert_eq!(accs.user_token_account.amount, 150);
    assert_eq!(accs.from_token_account.amount, 140);
}

#[test]
fn deposit_of_zero_succeeds() {
    let k = key(2);
    let mut accs = deposit_accounts(&k, true, 5, 0);
    assert_eq!(deposit_to_pool(&mut accs, 0), Ok(()));
    assert_eq!(accs.user_token_account.amount, 5);
    assert_eq!(accs.from_token_account.amount, 0);
}

#[test]
fn deposit_requires_signature() {
    let k = key(2);
    let mut accs = deposit_accounts(&k, false, 250, 40);
    assert_eq!(deposit_to_pool(&mut accs, 100), Err(ErrorCode::MissingSignature));
    assert_eq!(accs.user_token_account.amount, 250);
    assert_eq!(accs.from_token_account.amount, 40);
}

#[test]
fn deposit_rejects_foreign_source_account() {
    let k = key(2);
    let mut accs = deposit_accounts(&k, true, 250, 40);
    accs.user_token_account.owner = key(3);
    assert_eq!(deposit_to_pool(&mut accs, 100), Err(ErrorCode::OwnerMismatch));
    assert_eq!(accs.user_token_account.amount, 250);
    assert_eq!(accs.from_token_account.amount, 40);
}

#[test]
fn deposit_rejects_insufficient_funds() {
    let k = key(2);
    let mut accs = deposit_accounts(&k, true, 99, 0);
    assert_eq!(deposit_to_pool(&mut accs, 100), Err(ErrorCode::InsufficientFunds));
    assert_eq!(accs.user_token_account.amount, 99);
    assert_eq!(accs.from_token_account.amount, 0);
}

#[test]
fn deposit_rejects_vault_overflow() {
    let k = key(2);
    let mut accs = deposit_accounts(&k, true, 10, u64::MAX - 3);
    assert_eq!(deposit_to_pool(&mut accs, 4), Err(ErrorCode::BalanceOverflow));
    assert_eq!(accs.user_token_account.amount, 10);
    assert_eq!(accs.from_token_account.amount, u64::MAX - 3);
}

#[test]
fn deposit_never_checks_authority() {
    // No metadata account takes part in a deposit at all: any signer who
    // owns the source account may deposit.
    let stranger = key(77);
    let mut accs = deposit_accounts(&stranger, true, 50, 0);
    assert_eq!(deposit_to_pool(&mut accs, 50), Ok(()));
    assert_eq!(accs.from_token_account.amount, 50);
}

#[test]
fn swap_pays_out_the_whole_vault() {
    // vault balance 1000, caller is the authority: swap of 1000 succeeds,
    // the vault goes to 0 and the recipient rises by 1000.
    let e = env();
    let k = key(5);
    let mut accs = swap_accounts(&k, true, 1000, &e);
    assert_eq!(swap_from_pool_dev(&mut accs, &e, 1000), Ok(()));
    assert_eq!(accs.pool_token_account.amount, 0);
    assert_eq!(accs.recipient_token_account.amount, 1000);
}

#[test]
fn swap_rejects_overdraw() {
    // vault balance 500: a swap of 501 fails and the balance stays 500.
    let e = env();
    let k = key(5);
    let mut accs = swap_accounts(&k, true, 500, &e);
    assert_eq!(swap_from_pool_dev(&mut accs, &e, 501), Err(ErrorCode::InsufficientPoolBalance));
    assert_eq!(accs.pool_token_account.amount, 500);
    assert_eq!(accs.recipient_token_account.amount, 0);
}

#[test]
fn swap_of_zero_succeeds() {
    let e = env();
    let k = key(5);
    let mut accs = swap_accounts(&k, true, 500, &e);
    assert_eq!(swap_from_pool_dev(&mut accs, &e, 0), Ok(()));
    assert_eq!(accs.pool_token_account.amount, 500);
    assert_eq!(accs.recipient_token_account.amount, 0);
}

#[test]
fn swap_requires_signature() {
    let e = env();
    let k = key(5);
    let mut accs = swap_accounts(&k, false, 500, &e);
    assert_eq!(swap_from_pool_dev(&mut accs, &e, 1), Err(ErrorCode::MissingSignature));
    assert_eq!(accs.pool_token_account.amount, 500);
}

#[test]
fn swap_rejects_wrong_caller() {
    let e = env();
    let mut accs = swap_accounts(&key(5), true, 500, &e);
    accs.authority.key = key(6);
    assert_eq!(swap_from_pool_dev(&mut accs, &e, 1), Err(ErrorCode::UnauthorizedAccess));
    assert_eq!(accs.pool_token_account.amount, 500);
}

#[test]
fn swap_rejects_substituted_controller_address() {
    let e = env();
    let k = key(5);
    let mut accs = swap_accounts(&k, true, 500, &e);
    accs.token_account_pda = key(8);
    accs.pool_token_account.owner = key(8);
    assert_eq!(swap_from_pool_dev(&mut accs, &e, 1), Err(ErrorCode::BindingMismatch));
    assert_eq!(accs.pool_token_account.amount, 500);
}

#[test]
fn swap_rejects_substituted_vault() {
    // the vault's recorded owner is not the derived controller address
    let e = env();
    let k = key(5);
    let mut accs = swap_accounts(&k, true, 500, &e);
    accs.pool_token_account.owner = key(8);
    assert_eq!(swap_from_pool_dev(&mut accs, &e, 1), Err(ErrorCode::OwnerMismatch));
    assert_eq!(accs.pool_token_account.amount, 500);
    assert_eq!(accs.recipient_token_account.amount, 0);
}

#[test]
fn swap_rejects_recipient_overflow() {
    let e = env();
    let k = key(5);
    let mut accs = swap_accounts(&k, true, 500, &e);
    accs.recipient_token_account.amount = u64::MAX - 100;
    assert_eq!(swap_from_pool_dev(&mut accs, &e, 200), Err(ErrorCode::BalanceOverflow));
    assert_eq!(accs.pool_token_account.amount, 500);
    assert_eq!(accs.recipient_token_account.amount, u64::MAX - 100);
}

#[test]
fn short_metadata_fails_both_privileged_operations() {
    // metadata buffer of 40 bytes (< 45): initialize and swap both fail
    // with InvalidProgramData, whoever the caller is.
    let e = env();
    let k = key(5);
    let mut init = init_accounts(&k, true, &e);
    init.program_data.data = vec![0u8; 40];
    assert_eq!(initialize_token_account_pda(&mut init, &e), Err(ErrorCode::InvalidProgramData));

    let mut swap = swap_accounts(&k, true, 500, &e);
    swap.program_data.data = vec![0u8; 40];
    assert_eq!(swap_from_pool_dev(&mut swap, &e, 1), Err(ErrorCode::InvalidProgramData));
    assert_eq!(swap.pool_token_account.amount, 500);
}

#[test]
fn transfer_conserves_and_validates() {
    let mut from = TokenAccount { owner: key(1), amount: 30 };
    let mut to = TokenAccount { owner: key(2), amount: 12 };
    // unsigned
    assert_eq!(
        token_transfer(&mut from, &mut to, &key(1), false, 5),
        Err(ErrorCode::MissingSignature)
    );
    // signed by someone who is not the owner
    assert_eq!(
        token_transfer(&mut from, &mut to, &key(2), true, 5),
        Err(ErrorCode::OwnerMismatch)
    );
    assert_eq!((from.amount, to.amount), (30, 12));
    // signed by the owner
    assert_eq!(token_transfer(&mut from, &mut to, &key(1), true, 5), Ok(()));
    assert_eq!((from.amount, to.amount), (25, 17));
}

#[test]
fn pubkey_from_bytes_requires_32() {
    assert!(Pubkey::from_bytes(vec![0u8; 31]).is_none());
    assert!(Pubkey::from_bytes(vec![0u8; 33]).is_none());
    assert!(Pubkey::from_bytes(vec![0u8; 32]).is_some());
}
