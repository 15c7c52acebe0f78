use vstd::prelude::*;
use crate::derivation::derived_authority;
use crate::state::AssetClass;
use crate::derivation::verify_derived_authority;
use crate::identity::Identity;
use crate::identity::same_identity;
use crate::state::ErrorCode;
use crate::state::MintState;
use crate::state::SecretMint;

verus! {

/// The ceiling rule on the issuance ledger record alone: the outcome of asking
/// to add `amount` to a running total of `minted` under a cap of `max_supply`.
/// Checked addition: a total that would wrap 64 bits is refused, not wrapped.
pub open spec fn issuance_check(max_supply: u64, minted: u64, amount: u64) -> Result<
    u64,
    ErrorCode,
> {
    if minted + amount > u64::MAX {
        Err(ErrorCode::ArithmeticOverflow)
    } else if minted + amount > max_supply {
        Err(ErrorCode::MaxSupplyExceeded)
    } else {
        Ok((minted + amount) as u64)
    }
}

/// One serialized issuance step as the ledger record sees it: the result the
/// caller is given.
pub open spec fn issue_step_result(s: MintState, amount: u64) -> Result<(), ErrorCode> {
    match issuance_check(s.max_supply, s.minted, amount) {
        Ok(_) => Ok(()),
        Err(e) => Err(e),
    }
}

/// One serialized issuance step as the ledger record sees it: the record
/// afterwards. A refused step leaves the record exactly as it was.
pub open spec fn issue_step_state(s: MintState, amount: u64) -> MintState {
    match issuance_check(s.max_supply, s.minted, amount) {
        Ok(total) => MintState { max_supply: s.max_supply, minted: total },
        Err(_) => s,
    }
}

/// Whether a capped-issuance call is authorized: the claimed address and proof
/// byte must re-derive to the derived authority of the issuing program, and
/// that address must be the asset class's current minting authority.
pub open spec fn issuance_authorized(pre: SecretMint, program: Seq<u8>) -> bool {
    &&& derived_authority(program) == Some((pre.mint_authority@, pre.bump))
    &&& pre.mint_authority@ == pre.mint.mint_authority@
}

/// Whether the asset class has been delegated: its minting authority is the
/// derived authority of the issuing program.
pub open spec fn class_delegated(class: AssetClass, program: Seq<u8>) -> bool {
    derived_authority(program) matches Some(d) && class.mint_authority@ == d.0
}

/// The result of a capped-issuance call: refused as `Unauthorized` unless the
/// proof re-derives to the class's minting authority; then the ceiling rule;
/// then the collaborator's own bookkeeping, which refuses a destination
/// balance that would wrap.
pub open spec fn secret_mint_result(pre: SecretMint, program: Seq<u8>, amount: u64) -> Result<
    (),
    ErrorCode,
> {
    if !issuance_authorized(pre, program) {
        Err(ErrorCode::Unauthorized)
    } else if issue_step_result(pre.mint_state, amount) is Err {
        issue_step_result(pre.mint_state, amount)
    } else if pre.destination.amount + amount > u64::MAX {
        Err(ErrorCode::ArithmeticOverflow)
    } else {
        Ok(())
    }
}

/// Capped issuance: authorize by recomputed derivation, enforce the ceiling
/// against the pre-call running total, credit the destination balance, and
/// only then record the new total. On any failure nothing changes.
///
/// The authority check precedes the ceiling check, so a call that presents a
/// bad proof is refused as `Unauthorized` whatever its amount.
pub fn secret_mint(accounts: &mut SecretMint, program_id: &Identity, amount: u64) -> (r: Result<
    (),
    ErrorCode,
>)
    ensures
        r == secret_mint_result(*old(accounts), program_id@, amount),
        r is Ok ==> final(accounts).mint_state == issue_step_state(
            old(accounts).mint_state,
            amount,
        ),
        r is Ok ==> final(accounts).mint_state.minted == old(accounts).mint_state.minted + amount,
        r is Ok ==> final(accounts).destination.amount == old(accounts).destination.amount
            + amount,
        r is Err ==> final(accounts).mint_state == old(accounts).mint_state,
        r is Err ==> final(accounts).destination.amount == old(accounts).destination.amount,
        final(accounts).mint.mint_authority@ == old(accounts).mint.mint_authority@,
        final(accounts).mint_authority@ == old(accounts).mint_authority@,
        final(accounts).bump == old(accounts).bump,
        final(accounts).destination.owner@ == old(accounts).destination.owner@,
        old(accounts).mint_state.wf() && r is Ok ==> final(accounts).mint_state.wf(),
{
    let authorized = verify_derived_authority(&accounts.mint_authority, accounts.bump, program_id)
        && same_identity(&accounts.mint_authority, &accounts.mint.mint_authority);
    if !authorized {
        return Err(ErrorCode::Unauthorized);
    }
    if amount > u64::MAX - accounts.mint_state.minted {
        return Err(ErrorCode::ArithmeticOverflow);
    }
    let new_total: u64 = accounts.mint_state.minted + amount;
    if new_total > accounts.mint_state.max_supply {
        return Err(ErrorCode::MaxSupplyExceeded);
    }
    if amount > u64::MAX - accounts.destination.amount {
        return Err(ErrorCode::ArithmeticOverflow);
    }
    accounts.destination.amount = accounts.destination.amount + amount;
    accounts.mint_state.minted = new_total;
    Ok(())
}

/// Ceiling law: for a well-formed record, issuance succeeds exactly when the
/// requested amount fits under the cap, and then the running total grows by
/// exactly that amount.
pub proof fn lemma_issuance_within_cap(max_supply: u64, minted: u64, amount: u64)
    requires
        minted <= max_supply,
    ensures
        issuance_check(max_supply, minted, amount) is Ok <==> minted + amount <= max_supply,
        minted + amount <= max_supply ==> issuance_check(max_supply, minted, amount)
            == Ok::<u64, ErrorCode>((minted + amount) as u64),
{
}

/// Overflow law: a request whose new total would wrap 64 bits is refused as
/// an arithmetic overflow, and the refused step leaves the record unchanged.
pub proof fn lemma_issuance_overflow(s: MintState, amount: u64)
    requires
        s.minted + amount > u64::MAX,
    ensures
        issue_step_result(s, amount) == Err::<(), ErrorCode>(ErrorCode::ArithmeticOverflow),
        issue_step_state(s, amount) == s,
{
}

/// Serialized-issuance law: when two issuance requests each fit under the cap
/// alone but not together, the one the ledger serializes first succeeds, the
/// other is refused, and the final running total counts only the first — no
/// lost update and no double count.
pub proof fn lemma_serialized_issuance_exclusive(s: MintState, first: u64, second: u64)
    requires
        s.wf(),
        s.minted + first <= s.max_supply,
        s.minted + second <= s.max_supply,
        s.minted + first + second > s.max_supply,
    ensures
        issue_step_result(s, first) is Ok,
        issue_step_result(issue_step_state(s, first), second) is Err,
        issue_step_state(issue_step_state(s, first), second) == issue_step_state(s, first),
        issue_step_state(issue_step_state(s, first), second).minted == s.minted + first,
{
}

/// Lockout law: once the asset class is program-controlled, an issuance call
/// that presents any identity other than the class's minting authority — the
/// original human issuer's in particular — is refused as `Unauthorized`,
/// whatever its amount. (An issuer whose own address coincided with the
/// derived address would escape this; no such issuer exists in practice.)
pub proof fn lemma_issuer_locked_out(pre: SecretMint, program: Seq<u8>, amount: u64)
    requires
        class_delegated(pre.mint, program),
        pre.mint_authority@ != pre.mint.mint_authority@,
    ensures
        secret_mint_result(pre, program, amount) == Err::<(), ErrorCode>(ErrorCode::Unauthorized),
{
}

} // verus!
