use vstd::prelude::*;
use crate::identity::Identity;
use crate::identity::same_identity;
use crate::state::ErrorCode;

verus! {

/// The address and proof byte that the host's identity-derivation primitive
/// returns for a seed and a program identity, or `None` when no proof byte in
/// the search space yields a usable address. The result is a pure function of
/// the two inputs: no randomness and no external state enter it.
pub uninterp spec fn pda_of(seed: Seq<u8>, program: Seq<u8>) -> Option<(Seq<u8>, u8)>;

/// The fixed namespace tag under which the minting authority is derived:
/// the bytes of "mint_auth".
pub open spec fn namespace_tag() -> Seq<u8> {
    seq![109u8, 105u8, 110u8, 116u8, 95u8, 97u8, 117u8, 116u8, 104u8]
}

/// The derived minting authority for a program identity: the derivation under
/// the fixed namespace tag.
pub open spec fn derived_authority(program: Seq<u8>) -> Option<(Seq<u8>, u8)> {
    pda_of(namespace_tag(), program)
}

/// The namespace tag as a byte vector.
pub fn namespace_tag_bytes() -> (r: Vec<u8>)
    ensures
        r@ == namespace_tag(),
{
    let mut v: Vec<u8> = Vec::new();
    v.push(109);
    v.push(105);
    v.push(110);
    v.push(116);
    v.push(95);
    v.push(97);
    v.push(117);
    v.push(116);
    v.push(104);
    proof {
        assert(v@ =~= namespace_tag());
    }
    v
}

/// Relies on `Pubkey::try_find_program_address` of anchor_lang's prelude: the
/// derived address and bump byte are computed from the seed and the program
/// identity alone, trying bump bytes from highest to lowest, with `None` when
/// none yields a usable address.
#[verifier::external_body]
fn try_derive_pda(seed: &Vec<u8>, program: &Identity) -> (r: Option<(Identity, u8)>)
    ensures
        r is Some <==> pda_of(seed@, program@) is Some,
        (r matches Some(d) ==> pda_of(seed@, program@) == Some((d.0@, d.1))),
{
    let program_key = anchor_lang::prelude::Pubkey::new_from_array(program.bytes);
    match anchor_lang::prelude::Pubkey::try_find_program_address(&[seed.as_slice()], &program_key)
    {
        Some((address, bump)) => Some((Identity { bytes: address.to_bytes() }, bump)),
        None => None,
    }
}

/// Authority derivation: maps the issuing program's identity to the derived
/// minting authority address and its proof-of-derivation byte. Deterministic;
/// fails with `DerivationExhausted` only when no proof byte works.
pub fn derive_mint_authority(program_id: &Identity) -> (r: Result<(Identity, u8), ErrorCode>)
    ensures
        r is Ok <==> derived_authority(program_id@) is Some,
        (r matches Ok(d) ==> derived_authority(program_id@) == Some((d.0@, d.1))),
        (r matches Err(e) ==> e == ErrorCode::DerivationExhausted),
{
    let seed = namespace_tag_bytes();
    match try_derive_pda(&seed, program_id) {
        Some(d) => Ok(d),
        None => Err(ErrorCode::DerivationExhausted),
    }
}

/// Checks, by recomputing the derivation, that a caller-supplied address and
/// proof byte are exactly the derived minting authority for this program.
/// A claimed address is never trusted without this recomputation.
pub fn verify_derived_authority(claimed: &Identity, bump: u8, program_id: &Identity) -> (r: bool)
    ensures
        r <==> derived_authority(program_id@) == Some((claimed@, bump)),
{
    match derive_mint_authority(program_id) {
        Ok(d) => {
            let addr_matches = same_identity(&d.0, claimed);
            addr_matches && d.1 == bump
        },
        Err(_) => false,
    }
}

/// Derivation is idempotent: it reads no external state, so equal program
/// identities always map to the same derived authority and proof byte.
pub proof fn lemma_derivation_deterministic(program_a: Seq<u8>, program_b: Seq<u8>)
    requires
        program_a == program_b,
    ensures
        derived_authority(program_a) == derived_authority(program_b),
{
}

} // verus!
