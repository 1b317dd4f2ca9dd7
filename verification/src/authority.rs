//! Authority derivation: the vault is spendable only by an identity derived
//! deterministically from a fixed seed and the program's own identity — an
//! address no party holds a private key for — together with a `bump` proof
//! value that the runtime checks when the derived authority signs a
//! transfer. Deposit and withdrawal must recompute the identical pair, so
//! the derivation is a pure function, recomputed on every call and never
//! cached.

use vstd::prelude::*;

use crate::ident::Identity;

verus! {

/// What the ledger's program-address derivation returns for one seed and
/// one program identity. It is a function of those two arguments alone —
/// the same inputs yield the same authority and bump on every call — and is
/// `None` only in the statistically improbable event that no bump yields a
/// valid address.
pub uninterp spec fn derived_authority(seed: Seq<u8>, program_id: Seq<u8>) -> Option<
    (Seq<u8>, u8),
>;

/// The fixed domain seed from which the vault authority is derived: the
/// bytes of `FIND_PROGRAM`.
pub open spec fn vault_seed() -> Seq<u8> {
    seq![70u8, 73u8, 78u8, 68u8, 95u8, 80u8, 82u8, 79u8, 71u8, 82u8, 65u8, 77u8]
}

/// Builds the fixed domain seed as a byte vector.
pub fn vault_seed_bytes() -> (r: Vec<u8>)
    ensures
        r@ == vault_seed(),
{
    let r: Vec<u8> = vec![70u8, 73u8, 78u8, 68u8, 95u8, 80u8, 82u8, 79u8, 71u8, 82u8, 65u8, 77u8];
    proof {
        assert(r@ =~= vault_seed());
    }
    r
}

/// Relies on `Pubkey::try_find_program_address`: for a fixed list of seeds
/// and a program identity it returns a derived off-curve address and its
/// bump seed, computed deterministically from the arguments alone, or
/// `None` if no bump yields a valid address.
#[verifier::external_body]
fn find_program_authority(seed: &Vec<u8>, program_id: &Identity) -> (r: Option<(Identity, u8)>)
    ensures
        match r {
            Some(p) => derived_authority(seed@, program_id@) == Some((p.0@, p.1)),
            None => derived_authority(seed@, program_id@) is None,
        },
{
    let pk = anchor_lang::prelude::Pubkey::new_from_array(program_id.bytes);
    anchor_lang::prelude::Pubkey::try_find_program_address(&[seed.as_slice()], &pk)
        .map(|(address, bump)| (Identity { bytes: address.to_bytes() }, bump))
}

/// Derives the vault's controlling identity and bump for this program. Pure
/// and deterministic: every deposit and every withdrawal that recomputes
/// this pair for the same program identity obtains the same authority and
/// the same bump, which is what lets the withdrawal's signature proof match
/// the deposit's.
pub fn vault_authority(program_id: &Identity) -> (r: Option<(Identity, u8)>)
    ensures
        match r {
            Some(p) => derived_authority(vault_seed(), program_id@) == Some((p.0@, p.1)),
            None => derived_authority(vault_seed(), program_id@) is None,
        },
{
    let seed = vault_seed_bytes();
    find_program_authority(&seed, program_id)
}

/// Two derivations for the same program identity agree: the authority and
/// bump recomputed at withdrawal equal the ones computed at deposit.
pub proof fn law_authority_deterministic(
    program_id: Identity,
    first: Option<(Seq<u8>, u8)>,
    second: Option<(Seq<u8>, u8)>,
)
    requires
        first == derived_authority(vault_seed(), program_id@),
        second == derived_authority(vault_seed(), program_id@),
    ensures
        first == second,
{
}

} // verus!
