//! An on-chain custodial pool controller.
//!
//! The library holds the authorization and account-binding logic of a token
//! pool: a vault owned by a program-derived controller address that nobody
//! holds a private key for, deposits open to any signer, and privileged
//! withdrawals gated on the deploying program's current upgrade authority,
//! read from mutable program metadata at call time.

pub mod accounts;
pub mod authority;
pub mod derivation;
pub mod errors;
pub mod handlers;
pub mod keys;
pub mod laws;
pub mod transfer;
