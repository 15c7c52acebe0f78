use vstd::prelude::*;
use crate::identity::same_identity;
use crate::state::ErrorCode;
use crate::state::TransferTokens;

verus! {

/// The result of an ownership transfer: refused as `Unauthorized` unless the
/// authenticated caller owns the source balance, as `InsufficientFunds` when
/// the source does not hold the amount, and as `ArithmeticOverflow` when the
/// destination balance would wrap.
pub open spec fn transfer_result(pre: TransferTokens, amount: u64) -> Result<(), ErrorCode> {
    if pre.from_authority@ != pre.from.owner@ {
        Err(ErrorCode::Unauthorized)
    } else if pre.from.amount < amount {
        Err(ErrorCode::InsufficientFunds)
    } else if pre.to.amount + amount > u64::MAX {
        Err(ErrorCode::ArithmeticOverflow)
    } else {
        Ok(())
    }
}

/// Ownership transfer: moves `amount` units from one balance record to the
/// other, authorized by the current holder. On success the source is debited
/// and the destination credited by exactly `amount`; on failure neither
/// balance changes.
pub fn transfer(accounts: &mut TransferTokens, amount: u64) -> (r: Result<(), ErrorCode>)
    ensures
        r == transfer_result(*old(accounts), amount),
        r is Ok ==> final(accounts).from.amount == old(accounts).from.amount - amount,
        r is Ok ==> final(accounts).to.amount == old(accounts).to.amount + amount,
        r is Err ==> final(accounts).from.amount == old(accounts).from.amount,
        r is Err ==> final(accounts).to.amount == old(accounts).to.amount,
        final(accounts).from.owner@ == old(accounts).from.owner@,
        final(accounts).to.owner@ == old(accounts).to.owner@,
        final(accounts).from_authority@ == old(accounts).from_authority@,
{
    let caller_owns_source = same_identity(&accounts.from_authority, &accounts.from.owner);
    if !caller_owns_source {
        return Err(ErrorCode::Unauthorized);
    }
    if accounts.from.amount < amount {
        return Err(ErrorCode::InsufficientFunds);
    }
    if amount > u64::MAX - accounts.to.amount {
        return Err(ErrorCode::ArithmeticOverflow);
    }
    accounts.from.amount = accounts.from.amount - amount;
    accounts.to.amount = accounts.to.amount + amount;
    Ok(())
}

} // verus!
