//! Delegated, capped issuance of a fungible asset.
//!
//! An issuing authority creates an asset class and irrevocably hands its
//! minting rights to a program-controlled authority derived deterministically
//! from a fixed namespace tag and the issuing program's identity. Thereafter
//! every issuance request is authorized by recomputing that derivation and is
//! subject to a maximum-supply ceiling kept in an issuance ledger record.
//! A plain ownership transfer between balance records rounds out the set of
//! operations.
//!
//! The surrounding ledger engine (account storage, signature verification,
//! the atomic mint and transfer primitives) is an external collaborator; the
//! decision logic that drives it lives here, verified.

pub mod derivation;
pub mod identity;
pub mod init;
pub mod issuance;
pub mod ownership;
pub mod state;

pub use derivation::derive_mint_authority;
pub use derivation::verify_derived_authority;
pub use identity::Identity;
pub use init::initialize_mint;
pub use issuance::secret_mint;
pub use ownership::transfer;
pub use state::AssetClass;
pub use state::BalanceRecord;
pub use state::ErrorCode;
pub use state::Initialize;
pub use state::MintState;
pub use state::SecretMint;
pub use state::TransferTokens;
