use vstd::prelude::*;
use crate::identity::Identity;

verus! {

/// Why an operation was refused.
///
/// Every error surfaces to the caller unchanged and leaves all state exactly
/// as it was before the call.
#[derive(Clone, Copy, Debug, PartialEq, Eq, Structural)]
pub enum ErrorCode {
    /// The issuance would push the running total past the ceiling.
    MaxSupplyExceeded,
    /// A 64-bit total would wrap; treated as a ceiling violation.
    ArithmeticOverflow,
    /// The caller fails an authority check.
    Unauthorized,
    /// The source balance does not hold the requested amount.
    InsufficientFunds,
    /// No proof byte yields a usable derived authority.
    DerivationExhausted,
}

/// The issuance ledger record: one per asset class, the ceiling and the
/// running total of units issued so far.
#[derive(Clone, Copy, Debug, PartialEq, Eq, Structural)]
pub struct MintState {
    pub max_supply: u64,
    pub minted: u64,
}

impl MintState {
    /// The record's invariant: the running total never passes the ceiling.
    pub open spec fn wf(self) -> bool {
        self.minted <= self.max_supply
    }
}

/// An asset class: one mintable token type, holding a reference to whichever
/// identity currently controls issuance.
#[derive(Clone, Copy, Debug)]
pub struct AssetClass {
    pub mint_authority: Identity,
}

/// A holder's balance record for the asset, owned by the ledger collaborator;
/// this core reads and writes it only through the collaborator's rules.
#[derive(Clone, Copy, Debug)]
pub struct BalanceRecord {
    pub owner: Identity,
    pub amount: u64,
}

/// The accounts touched by mint initialization: the asset class and the
/// authenticated human issuer requesting the handoff.
#[derive(Clone, Copy, Debug)]
pub struct Initialize {
    pub mint: AssetClass,
    pub authority: Identity,
}

/// The accounts touched by a capped issuance call: the asset class, the
/// destination balance, the issuance ledger record, and the caller's claimed
/// authority address with its proof-of-derivation byte.
#[derive(Clone, Copy, Debug)]
pub struct SecretMint {
    pub mint: AssetClass,
    pub destination: BalanceRecord,
    pub mint_state: MintState,
    pub mint_authority: Identity,
    pub bump: u8,
}

/// The accounts touched by an ownership transfer: the two balance records and
/// the authenticated identity claiming control of the source.
#[derive(Clone, Copy, Debug)]
pub struct TransferTokens {
    pub from: BalanceRecord,
    pub to: BalanceRecord,
    pub from_authority: Identity,
}

} // verus!
