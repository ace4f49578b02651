use vstd::prelude::*;
use crate::accounts::DepositToPool;
use crate::accounts::InitializeTokenAccountPda;
use crate::accounts::ProgramEnv;
use crate::accounts::SwapFromPoolDev;
use crate::accounts::TokenAccountPda;
use crate::authority::authority_check;
use crate::authority::verify_upgrade_authority;
use crate::derivation::controller_pda;
use crate::derivation::derive_controller;
use crate::derivation::verify_binding;
use crate::errors::ErrorCode;
use crate::transfer::token_transfer;
use crate::transfer::transfer_step;

verus! {

/// The initialize operation on the account model: the result and the new
/// account set. The caller must have signed and be the current upgrade
/// authority, and the supplied controller address must match the canonical
/// derivation; then the controller record is created with a zero counter
/// where it is absent, and an existing record is left untouched.
pub open spec fn init_step(a: InitializeTokenAccountPda, env: ProgramEnv) -> (Result<
    (),
    ErrorCode,
>, InitializeTokenAccountPda) {
    if !a.authority.is_signer {
        (Err(ErrorCode::MissingSignature), a)
    } else {
        match authority_check(
            a.authority.key@,
            a.program_data.owner@,
            a.program_data.data@,
            env.loader_id@,
        ) {
            Err(e) => (Err(e), a),
            Ok(()) => match controller_pda(env.program_id@) {
                None => (Err(ErrorCode::BindingMismatch), a),
                Some(pair) => if a.token_account_pda@ != pair.0 {
                    (Err(ErrorCode::BindingMismatch), a)
                } else if a.pda_record is None {
                    (
                        Ok(()),
                        InitializeTokenAccountPda {
                            pda_record: Some(TokenAccountPda { token_count: 0 }),
                            ..a
                        },
                    )
                } else {
                    (Ok(()), a)
                },
            },
        }
    }
}

/// Creates the vault-controller record, gated on the current upgrade
/// authority. Re-running it against an existing record is a successful
/// no-op; a fresh record starts with `token_count` zero. No transfer occurs.
pub fn initialize_token_account_pda(
    accs: &mut InitializeTokenAccountPda,
    env: &ProgramEnv,
) -> (r: Result<(), ErrorCode>)
    requires
        env.wf(),
    ensures
        ({
            let step = init_step(*old(accs), *env);
            r == step.0 && *final(accs) == step.1
        }),
{
    if !accs.authority.is_signer {
        return Err(ErrorCode::MissingSignature);
    }
    match verify_upgrade_authority(&accs.authority.key, &accs.program_data, &env.loader_id) {
        Err(e) => {
            return Err(e);
        },
        Ok(()) => {},
    }
    match derive_controller(&env.program_id) {
        None => Err(ErrorCode::BindingMismatch),
        Some((addr, _)) => {
            if !accs.token_account_pda.key_eq(&addr) {
                return Err(ErrorCode::BindingMismatch);
            }
            if accs.pda_record.is_none() {
                accs.pda_record = Some(TokenAccountPda { token_count: 0 });
            }
            Ok(())
        },
    }
}

/// The deposit operation on the account model: the result, and the account
/// set with the moved amount. Any signer who owns the source account may
/// deposit; no authority is checked. The transfer is signed by the caller.
pub open spec fn deposit_step(a: DepositToPool, amount: u64) -> (Result<(), ErrorCode>, DepositToPool) {
    if !a.user.is_signer {
        (Err(ErrorCode::MissingSignature), a)
    } else if a.user_token_account.owner@ != a.user.key@ {
        (Err(ErrorCode::OwnerMismatch), a)
    } else {
        let step = transfer_step(
            a.user_token_account,
            a.from_token_account,
            a.user.key@,
            true,
            amount,
        );
        (step.0, DepositToPool { user_token_account: step.1, from_token_account: step.2, ..a })
    }
}

/// Moves `amount` from the caller's token account into the pool's vault,
/// signed by the caller. Succeeds exactly when the caller signed, owns the
/// source account, holds at least `amount`, and the vault balance does not
/// overflow; on success the source balance falls and the vault balance rises
/// by exactly `amount`.
pub fn deposit_to_pool(accs: &mut DepositToPool, amount: u64) -> (r: Result<(), ErrorCode>)
    ensures
        ({
            let step = deposit_step(*old(accs), amount);
            r == step.0 && *final(accs) == step.1
        }),
{
    if !accs.user.is_signer {
        return Err(ErrorCode::MissingSignature);
    }
    if !accs.user_token_account.owner.key_eq(&accs.user.key) {
        return Err(ErrorCode::OwnerMismatch);
    }
    token_transfer(
        &mut accs.user_token_account,
        &mut accs.from_token_account,
        &accs.user.key,
        true,
        amount,
    )
}

/// The privileged withdraw operation on the account model: the result, and
/// the account set with the moved amount. The caller must have signed and be
/// the current upgrade authority; the supplied controller address must match
/// the canonical derivation; the vault must be owned by that controller; and
/// the vault balance must cover the amount, checked before any transfer. The
/// recipient is accepted as supplied. The transfer is signed as the
/// controller through the re-derived salt.
pub open spec fn swap_step(a: SwapFromPoolDev, env: ProgramEnv, amount: u64) -> (Result<
    (),
    ErrorCode,
>, SwapFromPoolDev) {
    if !a.authority.is_signer {
        (Err(ErrorCode::MissingSignature), a)
    } else {
        match authority_check(
            a.authority.key@,
            a.program_data.owner@,
            a.program_data.data@,
            env.loader_id@,
        ) {
            Err(e) => (Err(e), a),
            Ok(()) => match controller_pda(env.program_id@) {
                None => (Err(ErrorCode::BindingMismatch), a),
                Some(pair) => if a.token_account_pda@ != pair.0 {
                    (Err(ErrorCode::BindingMismatch), a)
                } else if a.pool_token_account.owner@ != a.token_account_pda@ {
                    (Err(ErrorCode::OwnerMismatch), a)
                } else if a.pool_token_account.amount < amount {
                    (Err(ErrorCode::InsufficientPoolBalance), a)
                } else {
                    let step = transfer_step(
                        a.pool_token_account,
                        a.recipient_token_account,
                        pair.0,
                        true,
                        amount,
                    );
                    (
                        step.0,
                        SwapFromPoolDev {
                            pool_token_account: step.1,
                            recipient_token_account: step.2,
                            ..a
                        },
                    )
                },
            },
        }
    }
}

/// Moves `amount` from the pool's vault to the supplied recipient, signed as
/// the addressless controller through the re-derived salt. Gated on the
/// current upgrade authority; rejects any vault substitution; fails with
/// `InsufficientPoolBalance` before any transfer when the vault balance is
/// below `amount`.
pub fn swap_from_pool_dev(
    accs: &mut SwapFromPoolDev,
    env: &ProgramEnv,
    amount: u64,
) -> (r: Result<(), ErrorCode>)
    requires
        env.wf(),
    ensures
        ({
            let step = swap_step(*old(accs), *env, amount);
            r == step.0 && *final(accs) == step.1
        }),
{
    if !accs.authority.is_signer {
        return Err(ErrorCode::MissingSignature);
    }
    match verify_upgrade_authority(&accs.authority.key, &accs.program_data, &env.loader_id) {
        Err(e) => {
            return Err(e);
        },
        Ok(()) => {},
    }
    match derive_controller(&env.program_id) {
        None => Err(ErrorCode::BindingMismatch),
        Some((addr, bump)) => {
            if !accs.token_account_pda.key_eq(&addr) {
                return Err(ErrorCode::BindingMismatch);
            }
            if !accs.pool_token_account.owner.key_eq(&accs.token_account_pda) {
                return Err(ErrorCode::OwnerMismatch);
            }
            if accs.pool_token_account.amount < amount {
                return Err(ErrorCode::InsufficientPoolBalance);
            }
            proof {
                crate::derivation::lemma_found_pair_is_bound(env.program_id@, 255);
            }
            let signed_as_controller = verify_binding(&addr, bump, &env.program_id);
            token_transfer(
                &mut accs.pool_token_account,
                &mut accs.recipient_token_account,
                &addr,
                signed_as_controller,
                amount,
            )
        },
    }
}

} // verus!
