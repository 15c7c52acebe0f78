use vstd::prelude::*;
use crate::derivation::derive_mint_authority;
use crate::derivation::derived_authority;
use crate::identity::Identity;
use crate::identity::same_identity;
use crate::issuance::class_delegated;
use crate::state::AssetClass;
use crate::state::ErrorCode;
use crate::state::Initialize;

verus! {

/// The result of a mint-initialization call: refused as `Unauthorized` unless
/// the authenticated caller is the asset class's current minting authority,
/// and as `DerivationExhausted` when no derived authority exists for the
/// program. No "already delegated" flag is kept: a second attempt fails the
/// authority check, because after the first the issuer no longer holds the
/// authority.
pub open spec fn initialize_result(pre: Initialize, program: Seq<u8>) -> Result<(), ErrorCode> {
    if pre.authority@ != pre.mint.mint_authority@ {
        Err(ErrorCode::Unauthorized)
    } else if derived_authority(program) is None {
        Err(ErrorCode::DerivationExhausted)
    } else {
        Ok(())
    }
}

/// Mint initialization: the one-time, irreversible handoff of minting rights
/// from the human issuer to the derived authority. On success the asset
/// class's minting authority becomes the derived address; on failure nothing
/// changes.
pub fn initialize_mint(accounts: &mut Initialize, program_id: &Identity) -> (r: Result<
    (),
    ErrorCode,
>)
    ensures
        r == initialize_result(*old(accounts), program_id@),
        r is Ok ==> final(accounts).mint.mint_authority@ == derived_authority(
            program_id@,
        )->Some_0.0,
        r is Err ==> final(accounts).mint.mint_authority@ == old(accounts).mint.mint_authority@,
        final(accounts).authority@ == old(accounts).authority@,
{
    let caller_is_authority = same_identity(&accounts.authority, &accounts.mint.mint_authority);
    if !caller_is_authority {
        return Err(ErrorCode::Unauthorized);
    }
    match derive_mint_authority(program_id) {
        Ok(d) => {
            accounts.mint.mint_authority = d.0;
            Ok(())
        },
        Err(_) => Err(ErrorCode::DerivationExhausted),
    }
}

/// Handoff law: an asset class whose minting authority is what a successful
/// initialization leaves behind is program-controlled, which is the premise
/// under which the issuer's own signature no longer authorizes issuance.
pub proof fn lemma_initialize_delegates(pre: Initialize, post: AssetClass, program: Seq<u8>)
    requires
        initialize_result(pre, program) is Ok,
        post.mint_authority@ == derived_authority(program)->Some_0.0,
    ensures
        class_delegated(post, program),
{
}

} // verus!
