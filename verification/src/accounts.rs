use vstd::prelude::*;
use crate::keys::Pubkey;

verus! {

/// A calling account: its address and whether its signature is present on
/// the call.
pub struct SignerAccount {
    pub key: Pubkey,
    pub is_signer: bool,
}

impl SignerAccount {
    pub open spec fn wf(&self) -> bool {
        self.key.wf()
    }
}

/// A balance-holding token account of the external token subsystem: the
/// address authorized to move its funds, and its current balance.
pub struct TokenAccount {
    pub owner: Pubkey,
    pub amount: u64,
}

impl TokenAccount {
    pub open spec fn wf(&self) -> bool {
        self.owner.wf()
    }
}

/// The deploying program's mutable metadata account, owned by the platform's
/// upgradeable-loader subsystem. Its byte buffer holds the current upgrade
/// authority's key at a fixed offset.
pub struct ProgramData {
    pub owner: Pubkey,
    pub data: Vec<u8>,
}

impl ProgramData {
    pub open spec fn wf(&self) -> bool {
        self.owner.wf()
    }
}

/// The vault-controller record: a singleton keyed by derivation from the
/// fixed seed and the program identity. `token_count` is a reserved counter,
/// always zero under the operations specified here.
pub struct TokenAccountPda {
    pub token_count: u64,
}

/// Deployment-fixed identities threaded into every call: the deploying
/// program's own identity (used in the controller derivation) and the
/// identity of the platform's upgradeable-loader subsystem (the required
/// owner of the metadata account).
pub struct ProgramEnv {
    pub program_id: Pubkey,
    pub loader_id: Pubkey,
}

impl ProgramEnv {
    pub open spec fn wf(&self) -> bool {
        self.program_id.wf() && self.loader_id.wf()
    }
}

/// The account set of the initialize operation: the caller, the address
/// supplied for the controller record, the record itself where it already
/// exists, and the program metadata.
pub struct InitializeTokenAccountPda {
    pub authority: SignerAccount,
    pub token_account_pda: Pubkey,
    pub pda_record: Option<TokenAccountPda>,
    pub program_data: ProgramData,
}

impl InitializeTokenAccountPda {
    pub open spec fn wf(&self) -> bool {
        self.authority.wf() && self.token_account_pda.wf() && self.program_data.wf()
    }
}

/// The account set of the deposit operation: the depositing caller, the
/// caller's source token account, and the pool's vault token account.
pub struct DepositToPool {
    pub user: SignerAccount,
    pub user_token_account: TokenAccount,
    pub from_token_account: TokenAccount,
}

impl DepositToPool {
    pub open spec fn wf(&self) -> bool {
        self.user.wf() && self.user_token_account.wf() && self.from_token_account.wf()
    }
}

/// The account set of the privileged withdraw operation: the caller, the
/// address supplied for the controller, the pool's vault token account, an
/// arbitrary recipient token account, and the program metadata.
pub struct SwapFromPoolDev {
    pub authority: SignerAccount,
    pub token_account_pda: Pubkey,
    pub pool_token_account: TokenAccount,
    pub recipient_token_account: TokenAccount,
    pub program_data: ProgramData,
}

impl SwapFromPoolDev {
    pub open spec fn wf(&self) -> bool {
        self.authority.wf() && self.token_account_pda.wf() && self.pool_token_account.wf()
            && self.recipient_token_account.wf() && self.program_data.wf()
    }
}

} // verus!
