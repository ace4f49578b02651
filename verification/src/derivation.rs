use vstd::prelude::*;
use crate::keys::Pubkey;

verus! {

/// The address that the platform derives from one seed, one bump byte and a
/// program identity, or `None` where the platform reports an error instead
/// (a seed too long, or a derived address that falls on the curve and so
/// would have a private key). The result is a function of the three
/// arguments alone.
pub uninterp spec fn pda_create(seed: Seq<u8>, bump: u8, program_id: Seq<u8>) -> Option<Seq<u8>>;

/// Relies on solana_program::pubkey::Pubkey::create_program_address: the
/// derived address is a deterministic hash of the seeds and the program id,
/// 32 bytes long on success; an error (seed too long, or an address that
/// falls on the curve) is reported, never panicked.
#[verifier::external_body]
fn create_controller_address(seed: &Vec<u8>, bump: u8, program_id: &Pubkey) -> (r: Option<Pubkey>)
    requires
        program_id.wf(),
    ensures
        r matches Some(p) ==> pda_create(seed@, bump, program_id@) == Some(p@) && p.wf(),
        r is None ==> pda_create(seed@, bump, program_id@) is None,
{
    let pid = solana_program::pubkey::Pubkey::try_from(program_id.bytes.as_slice()).unwrap();
    let bump_bytes = [bump];
    match solana_program::pubkey::Pubkey::create_program_address(
        &[seed.as_slice(), &bump_bytes],
        &pid,
    ) {
        Ok(addr) => Some(Pubkey { bytes: addr.to_bytes().to_vec() }),
        Err(_) => None,
    }
}

/// The fixed domain-separation seed of the vault controller, the bytes of
/// "token_account_pda".
pub open spec fn controller_seed() -> Seq<u8> {
    seq![
        116u8, 111, 107, 101, 110, 95, 97, 99, 99, 111, 117, 110, 116, 95, 112, 100, 97,
    ]
}

/// The fixed domain-separation seed of the vault controller, as bytes.
pub fn seed_token_account_pda() -> (r: Vec<u8>)
    ensures
        r@ == controller_seed(),
{
    let mut s: Vec<u8> = Vec::new();
    s.push(116);  // t
    s.push(111);  // o
    s.push(107);  // k
    s.push(101);  // e
    s.push(110);  // n
    s.push(95);  // _
    s.push(97);  // a
    s.push(99);  // c
    s.push(99);  // c
    s.push(111);  // o
    s.push(117);  // u
    s.push(110);  // n
    s.push(116);  // t
    s.push(95);  // _
    s.push(112);  // p
    s.push(100);  // d
    s.push(97);  // a
    assert(s@ =~= controller_seed());
    s
}

/// The controller derivation at bump values `bump` and below: the address
/// and bump of the highest bump in [1, bump] whose derivation succeeds, or
/// `None` where every one of them fails.
pub open spec fn find_bump_from(program_id: Seq<u8>, bump: u8) -> Option<(Seq<u8>, u8)>
    decreases bump,
{
    match pda_create(controller_seed(), bump, program_id) {
        Some(addr) => Some((addr, bump)),
        None => if bump <= 1 {
            None
        } else {
            find_bump_from(program_id, (bump - 1) as u8)
        },
    }
}

/// The canonical controller derivation for a program identity: the search
/// starts at bump 255 and walks down to 1.
pub open spec fn controller_pda(program_id: Seq<u8>) -> Option<(Seq<u8>, u8)> {
    find_bump_from(program_id, 255)
}

/// Derives the vault controller's (address, salt) pair from the fixed seed
/// and the program identity: the highest bump whose derivation succeeds.
/// `None` (derivation-space exhaustion) is unreachable in practice.
pub fn derive_controller(program_id: &Pubkey) -> (r: Option<(Pubkey, u8)>)
    requires
        program_id.wf(),
    ensures
        r matches Some(p) ==> controller_pda(program_id@) == Some((p.0@, p.1)) && p.0.wf(),
        r is None ==> controller_pda(program_id@) is None,
{
    let seed = seed_token_account_pda();
    let mut bump: u8 = 255;
    loop
        invariant
            1 <= bump <= 255,
            seed@ == controller_seed(),
            program_id.wf(),
            controller_pda(program_id@) == find_bump_from(program_id@, bump),
        decreases bump,
    {
        match create_controller_address(&seed, bump, program_id) {
            Some(addr) => {
                return Some((addr, bump));
            },
            None => {
                if bump == 1 {
                    return None;
                }
                bump = bump - 1;
            },
        }
    }
}

/// The pair that the bump search returns is itself a valid derivation: the
/// address it carries is exactly what the seed, its bump and the program
/// identity derive.
pub proof fn lemma_found_pair_is_bound(program_id: Seq<u8>, start: u8)
    ensures
        find_bump_from(program_id, start) matches Some(pair) ==> pda_create(
            controller_seed(),
            pair.1,
            program_id,
        ) == Some(pair.0),
    decreases start,
{
    if pda_create(controller_seed(), start, program_id) is None && start > 1 {
        lemma_found_pair_is_bound(program_id, (start - 1) as u8);
    }
}

/// Recomputes the controller address from the fixed seed, the supplied salt
/// and the program identity, and checks that it matches the candidate
/// address exactly. Callers cannot be trusted to supply a correct salt, so
/// this guards every use of a caller-supplied controller account.
pub fn verify_binding(candidate: &Pubkey, bump: u8, program_id: &Pubkey) -> (r: bool)
    requires
        program_id.wf(),
    ensures
        r == (pda_create(controller_seed(), bump, program_id@) == Some(candidate@)),
{
    let seed = seed_token_account_pda();
    match create_controller_address(&seed, bump, program_id) {
        Some(addr) => addr.key_eq(candidate),
        None => false,
    }
}

} // verus!
