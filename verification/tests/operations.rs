use solana_token::{
    derive_mint_authority, initialize_mint, secret_mint, transfer, AssetClass, BalanceRecord,
    ErrorCode, Identity, Initialize, MintState, SecretMint, TransferTokens,
};

fn ident(fill: u8) -> Identity {
    Identity { bytes: [fill; 32] }
}

/// A secret-mint account bundle whose class has been delegated and whose
/// caller presents the correctly derived proof.
fn delegated_bundle(
    program: &Identity,
    max_supply: u64,
    minted: u64,
    destination_amount: u64,
) -> SecretMint {
    let (derived, bump) = derive_mint_authority(program).expect("derivation should succeed");
    SecretMint {
        mint: AssetClass { mint_authority: derived },
        destination: BalanceRecord { owner: ident(4), amount: destination_amount },
        mint_state: MintState { max_supply, minted },
        mint_authority: derived,
        bump,
    }
}

#[test]
fn initialization_hands_authority_to_the_derived_address() {
    let program = ident(7);
    let issuer = ident(1);
    let mut accounts = Initialize {
        mint: AssetClass { mint_authority: issuer },
        authority: issuer,
    };
    assert_eq!(initialize_mint(&mut accounts, &program), Ok(()));
    let (derived, _) = derive_mint_authority(&program).expect("derivation should succeed");
    assert_eq!(accounts.mint.mint_authority.bytes, derived.bytes);
}

#[test]
fn initialization_refuses_a_caller_without_authority() {
    let program = ident(7);
    let issuer = ident(1);
    let mut accounts = Initialize {
        mint: AssetClass { mint_authority: issuer },
        authority: ident(2),
    };
    assert_eq!(initialize_mint(&mut accounts, &program), Err(ErrorCode::Unauthorized));
    assert_eq!(accounts.mint.mint_authority.bytes, issuer.bytes);
}

#[test]
fn second_initialization_is_refused() {
    let program = ident(7);
    let issuer = ident(1);
    let mut accounts = Initialize {
        mint: AssetClass { mint_authority: issuer },
        authority: issuer,
    };
    assert_eq!(initialize_mint(&mut accounts, &program), Ok(()));
    assert_eq!(initialize_mint(&mut accounts, &program), Err(ErrorCode::Unauthorized));
}

#[test]
fn issuer_signature_no_longer_authorizes_issuance() {
    let program = ident(7);
    let issuer = ident(1);
    let mut setup = Initialize {
        mint: AssetClass { mint_authority: issuer },
        authority: issuer,
    };
    assert_eq!(initialize_mint(&mut setup, &program), Ok(()));
    let (_, bump) = derive_mint_authority(&program).expect("derivation should succeed");
    let mut accounts = SecretMint {
        mint: setup.mint,
        destination: BalanceRecord { owner: ident(4), amount: 0 },
        mint_state: MintState { max_supply: 1000, minted: 0 },
        mint_authority: issuer,
        bump,
    };
    assert_eq!(secret_mint(&mut accounts, &program, 10), Err(ErrorCode::Unauthorized));
    assert_eq!(accounts.mint_state.minted, 0);
    assert_eq!(accounts.destination.amount, 0);
}

#[test]
fn issuance_is_refused_before_delegation() {
    let program = ident(7);
    let issuer = ident(1);
    let (derived, bump) = derive_mint_authority(&program).expect("derivation should succeed");
    let mut accounts = SecretMint {
        mint: AssetClass { mint_authority: issuer },
        destination: BalanceRecord { owner: ident(4), amount: 0 },
        mint_state: MintState { max_supply: 1000, minted: 0 },
        mint_authority: derived,
        bump,
    };
    assert_eq!(secret_mint(&mut accounts, &program, 10), Err(ErrorCode::Unauthorized));
    assert_eq!(accounts.mint_state.minted, 0);
}

#[test]
fn issuance_up_to_the_cap_succeeds_and_the_next_unit_is_refused() {
    let program = ident(7);
    let mut accounts = delegated_bundle(&program, 1000, 0, 0);
    assert_eq!(secret_mint(&mut accounts, &program, 1000), Ok(()));
    assert_eq!(accounts.mint_state.minted, 1000);
    assert_eq!(accounts.destination.amount, 1000);
    assert_eq!(secret_mint(&mut accounts, &program, 1), Err(ErrorCode::MaxSupplyExceeded));
    assert_eq!(accounts.mint_state.minted, 1000);
    assert_eq!(accounts.destination.amount, 1000);
}

#[test]
fn issuance_fills_the_remaining_half_of_the_cap() {
    let program = ident(7);
    let mut accounts = delegated_bundle(&program, 100, 50, 0);
    assert_eq!(secret_mint(&mut accounts, &program, 50), Ok(()));
    assert_eq!(accounts.mint_state.minted, 100);
}

#[test]
fn issuance_refuses_a_wrapping_total() {
    let program = ident(7);
    let mut accounts = delegated_bundle(&program, u64::MAX, u64::MAX, 0);
    assert_eq!(secret_mint(&mut accounts, &program, 1), Err(ErrorCode::ArithmeticOverflow));
    assert_eq!(accounts.mint_state.minted, u64::MAX);
    assert_eq!(accounts.destination.amount, 0);
}

#[test]
fn issuance_refuses_a_wrapping_destination_balance() {
    let program = ident(7);
    let mut accounts = delegated_bundle(&program, u64::MAX, 0, u64::MAX);
    assert_eq!(secret_mint(&mut accounts, &program, 1), Err(ErrorCode::ArithmeticOverflow));
    assert_eq!(accounts.mint_state.minted, 0);
    assert_eq!(accounts.destination.amount, u64::MAX);
}

#[test]
fn serialized_issuance_lets_exactly_one_of_two_competing_calls_through() {
    let program = ident(7);
    let mut accounts = delegated_bundle(&program, 100, 0, 0);
    assert_eq!(secret_mint(&mut accounts, &program, 60), Ok(()));
    assert_eq!(secret_mint(&mut accounts, &program, 70), Err(ErrorCode::MaxSupplyExceeded));
    assert_eq!(accounts.mint_state.minted, 60);
    assert_eq!(accounts.destination.amount, 60);
}

#[test]
fn transfer_moves_the_amount() {
    let holder = ident(5);
    let mut accounts = TransferTokens {
        from: BalanceRecord { owner: holder, amount: 80 },
        to: BalanceRecord { owner: ident(6), amount: 5 },
        from_authority: holder,
    };
    assert_eq!(transfer(&mut accounts, 30), Ok(()));
    assert_eq!(accounts.from.amount, 50);
    assert_eq!(accounts.to.amount, 35);
}

#[test]
fn transfer_beyond_the_holding_changes_nothing() {
    let holder = ident(5);
    let mut accounts = TransferTokens {
        from: BalanceRecord { owner: holder, amount: 20 },
        to: BalanceRecord { owner: ident(6), amount: 5 },
        from_authority: holder,
    };
    assert_eq!(transfer(&mut accounts, 21), Err(ErrorCode::InsufficientFunds));
    assert_eq!(accounts.from.amount, 20);
    assert_eq!(accounts.to.amount, 5);
}

#[test]
fn transfer_refuses_a_caller_who_is_not_the_holder() {
    let mut accounts = TransferTokens {
        from: BalanceRecord { owner: ident(5), amount: 20 },
        to: BalanceRecord { owner: ident(6), amount: 5 },
        from_authority: ident(6),
    };
    assert_eq!(transfer(&mut accounts, 1), Err(ErrorCode::Unauthorized));
    assert_eq!(accounts.from.amount, 20);
    assert_eq!(accounts.to.amount, 5);
}

#[test]
fn transfer_refuses_a_wrapping_destination_balance() {
    let holder = ident(5);
    let mut accounts = TransferTokens {
        from: BalanceRecord { owner: holder, amount: 20 },
        to: BalanceRecord { owner: ident(6), amount: u64::MAX },
        from_authority: holder,
    };
    assert_eq!(transfer(&mut accounts, 1), Err(ErrorCode::ArithmeticOverflow));
    assert_eq!(accounts.from.amount, 20);
    assert_eq!(accounts.to.amount, u64::MAX);
}
