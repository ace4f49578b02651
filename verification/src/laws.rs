use vstd::prelude::*;
use crate::accounts::DepositToPool;
use crate::accounts::InitializeTokenAccountPda;
use crate::accounts::ProgramEnv;
use crate::accounts::SwapFromPoolDev;
use crate::authority::authority_check;
use crate::authority::upgrade_authority_of;
use crate::derivation::controller_pda;
use crate::errors::ErrorCode;
use crate::handlers::deposit_step;
use crate::handlers::init_step;
use crate::handlers::swap_step;

verus! {

/// All of the withdraw operation's validations short of the balance check:
/// the caller signed and is the current upgrade authority, the supplied
/// controller address matches the canonical derivation, and the vault is
/// owned by that controller.
pub open spec fn swap_validations_pass(a: SwapFromPoolDev, env: ProgramEnv) -> bool {
    &&& a.authority.is_signer
    &&& authority_check(
        a.authority.key@,
        a.program_data.owner@,
        a.program_data.data@,
        env.loader_id@,
    ) is Ok
    &&& controller_pda(env.program_id@) matches Some(pair) && a.token_account_pda@ == pair.0
    &&& a.pool_token_account.owner@ == a.token_account_pda@
}

/// Idempotent initialization: once initialize has succeeded, running it
/// again succeeds, changes nothing, and the controller record stands with a
/// zero counter.
pub proof fn lemma_initialize_idempotent(a: InitializeTokenAccountPda, env: ProgramEnv)
    requires
        init_step(a, env).0 is Ok,
        a.pda_record matches Some(rec) ==> rec.token_count == 0,
    ensures
        ({
            let a1 = init_step(a, env).1;
            &&& init_step(a1, env).0 is Ok
            &&& init_step(a1, env).1 == a1
            &&& a1.pda_record matches Some(rec) && rec.token_count == 0
        }),
{
}

/// Authority gating: a signing caller whose key is not the recorded upgrade
/// authority is rejected by initialize and by the privileged withdraw with
/// `UnauthorizedAccess`, with nothing changed, whenever the metadata account
/// itself is acceptable and the call got past the checks that precede the
/// authority comparison.
pub proof fn lemma_authority_gating(
    ia: InitializeTokenAccountPda,
    sa: SwapFromPoolDev,
    env: ProgramEnv,
    amount: u64,
)
    requires
        ia.authority.is_signer,
        sa.authority.is_signer,
        ia.program_data.owner@ == env.loader_id@,
        sa.program_data.owner@ == env.loader_id@,
        ia.program_data.data@.len() >= 45,
        sa.program_data.data@.len() >= 45,
        upgrade_authority_of(ia.program_data.data@) != ia.authority.key@,
        upgrade_authority_of(sa.program_data.data@) != sa.authority.key@,
    ensures
        init_step(ia, env).0 == Err::<(), ErrorCode>(ErrorCode::UnauthorizedAccess),
        init_step(ia, env).1 == ia,
        swap_step(sa, env, amount).0 == Err::<(), ErrorCode>(ErrorCode::UnauthorizedAccess),
        swap_step(sa, env, amount).1 == sa,
{
}

/// The other face of authority gating: deposit reads no program metadata at
/// all, so it succeeds for any signer who owns the source account, holds the
/// amount, and does not overflow the vault — whoever the upgrade authority
/// may be.
pub proof fn lemma_deposit_needs_no_authority(a: DepositToPool, amount: u64)
    requires
        a.user.is_signer,
        a.user_token_account.owner@ == a.user.key@,
        amount <= a.user_token_account.amount,
        a.from_token_account.amount + amount <= u64::MAX,
    ensures
        deposit_step(a, amount).0 is Ok,
{
}

/// Balance conservation for deposits: a successful deposit of `amount`
/// raises the vault balance by exactly `amount`, lowers the caller's source
/// balance by exactly `amount`, and moves nothing else.
pub proof fn lemma_deposit_conserves_balances(a: DepositToPool, amount: u64)
    requires
        deposit_step(a, amount).0 is Ok,
    ensures
        ({
            let a1 = deposit_step(a, amount).1;
            &&& a1.from_token_account.amount == a.from_token_account.amount + amount
            &&& a1.user_token_account.amount == a.user_token_account.amount - amount
            &&& a1.user_token_account.owner == a.user_token_account.owner
            &&& a1.from_token_account.owner == a.from_token_account.owner
            &&& a1.user == a.user
        }),
{
}

/// Balance conservation for withdrawals: a successful withdraw of `amount`
/// lowers the vault balance by exactly `amount`, raises the recipient's
/// balance by exactly `amount`, and moves nothing else.
pub proof fn lemma_swap_conserves_balances(a: SwapFromPoolDev, env: ProgramEnv, amount: u64)
    requires
        swap_step(a, env, amount).0 is Ok,
    ensures
        ({
            let a1 = swap_step(a, env, amount).1;
            &&& a1.pool_token_account.amount == a.pool_token_account.amount - amount
            &&& a1.recipient_token_account.amount == a.recipient_token_account.amount + amount
            &&& a1.pool_token_account.owner == a.pool_token_account.owner
            &&& a1.recipient_token_account.owner == a.recipient_token_account.owner
        }),
{
}

/// No overdraw: a withdraw of more than the vault balance never succeeds and
/// leaves every account unchanged; where every prior validation passes, the
/// failure code is `InsufficientPoolBalance`.
pub proof fn lemma_no_overdraw(a: SwapFromPoolDev, env: ProgramEnv, amount: u64)
    requires
        amount > a.pool_token_account.amount,
    ensures
        !(swap_step(a, env, amount).0 is Ok),
        swap_step(a, env, amount).1 == a,
        swap_validations_pass(a, env) ==> swap_step(a, env, amount).0 == Err::<
            (),
            ErrorCode,
        >(ErrorCode::InsufficientPoolBalance),
{
}

/// Binding enforcement: a vault account whose recorded owner is not the
/// derived controller address makes the privileged withdraw fail before any
/// transfer, whatever else the caller supplied.
pub proof fn lemma_binding_enforcement(a: SwapFromPoolDev, env: ProgramEnv, amount: u64)
    requires
        controller_pda(env.program_id@) matches Some(pair) && a.pool_token_account.owner@
            != pair.0,
    ensures
        !(swap_step(a, env, amount).0 is Ok),
        swap_step(a, env, amount).1 == a,
{
}

} // verus!
