use vstd::prelude::*;
use crate::accounts::TokenAccount;
use crate::errors::ErrorCode;
use crate::keys::Pubkey;

verus! {

/// The fixed contract of the token-transfer primitive: the result, the new
/// source account and the new destination account, in the order the checks
/// run. A transfer moves `amount` only when the authorizing address signed,
/// owns the source account, the source balance covers the amount and the
/// destination balance does not overflow; any failure leaves both accounts
/// unchanged.
pub open spec fn transfer_step(
    from: TokenAccount,
    to: TokenAccount,
    authority: Seq<u8>,
    authority_signed: bool,
    amount: u64,
) -> (Result<(), ErrorCode>, TokenAccount, TokenAccount) {
    if !authority_signed {
        (Err(ErrorCode::MissingSignature), from, to)
    } else if from.owner@ != authority {
        (Err(ErrorCode::OwnerMismatch), from, to)
    } else if from.amount < amount {
        (Err(ErrorCode::InsufficientFunds), from, to)
    } else if to.amount + amount > u64::MAX {
        (Err(ErrorCode::BalanceOverflow), from, to)
    } else {
        (
            Ok(()),
            TokenAccount { amount: (from.amount - amount) as u64, ..from },
            TokenAccount { amount: (to.amount + amount) as u64, ..to },
        )
    }
}

/// The token-transfer primitive on the account model: atomic, and it rejects
/// any transfer that exceeds the source balance. On success the source
/// balance decreases by exactly `amount` and the destination balance
/// increases by exactly `amount`; owners never change.
pub fn token_transfer(
    from: &mut TokenAccount,
    to: &mut TokenAccount,
    authority: &Pubkey,
    authority_signed: bool,
    amount: u64,
) -> (r: Result<(), ErrorCode>)
    ensures
        ({
            let step = transfer_step(*old(from), *old(to), authority@, authority_signed, amount);
            r == step.0 && *final(from) == step.1 && *final(to) == step.2
        }),
{
    if !authority_signed {
        return Err(ErrorCode::MissingSignature);
    }
    if !from.owner.key_eq(authority) {
        return Err(ErrorCode::OwnerMismatch);
    }
    if from.amount < amount {
        return Err(ErrorCode::InsufficientFunds);
    }
    if to.amount > u64::MAX - amount {
        return Err(ErrorCode::BalanceOverflow);
    }
    from.amount = from.amount - amount;
    to.amount = to.amount + amount;
    Ok(())
}

} // verus!
