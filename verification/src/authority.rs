use vstd::prelude::*;
use crate::accounts::ProgramData;
use crate::errors::ErrorCode;
use crate::keys::Pubkey;
use crate::keys::read_pubkey;

verus! {

/// Offset of the upgrade-authority key inside the metadata buffer: a 12-byte
/// fixed header followed by one discriminant byte.
pub const UPGRADE_AUTHORITY_OFFSET: usize = 13;

/// The least metadata length that can hold an authority key: the offset plus
/// the 32 key bytes.
pub const MIN_PROGRAM_DATA_LEN: usize = 45;

/// The current upgrade authority recorded in a metadata buffer: the 32 bytes
/// at the fixed offset.
pub open spec fn upgrade_authority_of(data: Seq<u8>) -> Seq<u8> {
    data.subrange(UPGRADE_AUTHORITY_OFFSET as int, UPGRADE_AUTHORITY_OFFSET + 32)
}

/// The outcome of the authority check, in the order the validations run:
/// a metadata account not owned by the upgradeable loader or too short to
/// hold a key is `InvalidProgramData`; a recorded authority other than the
/// caller's key is `UnauthorizedAccess`; otherwise the check passes.
pub open spec fn authority_check(
    caller: Seq<u8>,
    owner: Seq<u8>,
    data: Seq<u8>,
    loader: Seq<u8>,
) -> Result<(), ErrorCode> {
    if owner != loader {
        Err(ErrorCode::InvalidProgramData)
    } else if data.len() < MIN_PROGRAM_DATA_LEN {
        Err(ErrorCode::InvalidProgramData)
    } else if upgrade_authority_of(data) != caller {
        Err(ErrorCode::UnauthorizedAccess)
    } else {
        Ok(())
    }
}

/// Reads the deploying program's current upgrade authority out of its
/// metadata account and compares it to the caller's signing key. Succeeds
/// exactly when the metadata is owned by the upgradeable loader, is at least
/// 45 bytes long, and records the caller's key as the authority.
pub fn verify_upgrade_authority(
    caller_key: &Pubkey,
    program_data: &ProgramData,
    loader_id: &Pubkey,
) -> (r: Result<(), ErrorCode>)
    ensures
        r == authority_check(caller_key@, program_data.owner@, program_data.data@, loader_id@),
{
    if !program_data.owner.key_eq(loader_id) {
        return Err(ErrorCode::InvalidProgramData);
    }
    if program_data.data.len() < MIN_PROGRAM_DATA_LEN {
        return Err(ErrorCode::InvalidProgramData);
    }
    let recorded = read_pubkey(&program_data.data, UPGRADE_AUTHORITY_OFFSET);
    if !recorded.key_eq(caller_key) {
        return Err(ErrorCode::UnauthorizedAccess);
    }
    Ok(())
}

} // verus!
