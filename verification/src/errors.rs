use vstd::prelude::*;

verus! {

/// Every failure a pool operation can surface.
///
/// The first three are the controller's own codes. The rest are the
/// validation failures surfaced by the platform's account checks and by the
/// external token-transfer primitive: a missing signature, an account whose
/// recorded owner is not the one required, a supplied controller address that
/// does not match the derivation, a sender balance below the requested
/// amount, and a receiver balance that would overflow.
#[derive(Clone, Copy, Debug, PartialEq, Eq, Structural)]
pub enum ErrorCode {
    InsufficientPoolBalance,
    UnauthorizedAccess,
    InvalidProgramData,
    MissingSignature,
    OwnerMismatch,
    BindingMismatch,
    InsufficientFunds,
    BalanceOverflow,
}

} // verus!
