use fund_commands::errors::ErrorCode;
use fund_commands::iteration::{contains_key, first_taken, next_after, next_taken, skip_first, skip_n, StepDecision};
use fund_commands::math::{div_ceil_2, get_proportional_amount};
use fund_commands::pricing::{classify_supported_token, vault_kind, TokenPricingSource, VaultKind};
use fund_commands::programs::{
    associated_token_program_id, get_associated_token_address_with_program_id, lamports_per_sol, system_program_id,
    token_2022_program_id, token_program_id,
};
use fund_commands::pubkey::Pubkey;

fn key(n: u64) -> Pubkey {
    Pubkey::new(n, n + 1, n + 2, n + 3)
}

fn anchor_key(k: &Pubkey) -> anchor_lang::prelude::Pubkey {
    anchor_lang::prelude::Pubkey::new_from_array(k.to_bytes())
}

#[test]
fn pubkey_bytes_roundtrip() {
    let k = Pubkey::new(0x0102030405060708, 0x1112131415161718, 0x2122232425262728, 0x3132333435363738);
    let b = k.to_bytes();
    assert_eq!(b[0], 0x08);
    assert_eq!(b[7], 0x01);
    assert_eq!(b[8], 0x18);
    assert_eq!(b[31], 0x31);
    assert_eq!(Pubkey::from_bytes(b), k);
    let mut raw = [0u8; 32];
    for (i, byte) in raw.iter_mut().enumerate() {
        *byte = (i * 7 + 3) as u8;
    }
    assert_eq!(Pubkey::from_bytes(raw).to_bytes(), raw);
}

#[test]
fn zero_key_is_all_zero_bytes() {
    assert_eq!(Pubkey::zero().to_bytes(), [0u8; 32]);
}

#[test]
fn program_ids_match_anchor() {
    assert_eq!(token_program_id().to_bytes(), anchor_spl::token::ID.to_bytes());
    assert_eq!(token_2022_program_id().to_bytes(), anchor_spl::token_2022::ID.to_bytes());
    assert_eq!(associated_token_program_id().to_bytes(), anchor_spl::associated_token::ID.to_bytes());
    assert_eq!(system_program_id(), Pubkey::zero());
    assert_eq!(lamports_per_sol(), 1_000_000_000);
}

#[test]
fn associated_token_address_is_derived() {
    let wallet = key(10);
    let mint = key(20);
    let token = token_program_id();
    let ata = get_associated_token_address_with_program_id(&wallet, &mint, &token).unwrap();
    assert_ne!(ata, wallet);
    assert_ne!(ata, mint);
    assert_ne!(ata, token);
    let expected = anchor_spl::associated_token::get_associated_token_address_with_program_id(
        &anchor_key(&wallet),
        &anchor_key(&mint),
        &anchor_key(&token),
    );
    assert_eq!(ata.to_bytes(), expected.to_bytes());
    let ata_2022 = get_associated_token_address_with_program_id(&wallet, &mint, &token_2022_program_id()).unwrap();
    assert_ne!(ata, ata_2022);
    assert_eq!(get_associated_token_address_with_program_id(&wallet, &mint, &token), Some(ata));
}

#[test]
fn proportional_amount_values() {
    assert_eq!(get_proportional_amount(1000, 3, 4), Ok(750));
    assert_eq!(get_proportional_amount(10, 1, 3), Ok(3));
    assert_eq!(get_proportional_amount(u64::MAX, u64::MAX, u64::MAX), Ok(u64::MAX));
    assert_eq!(get_proportional_amount(5, 7, 0), Err(ErrorCode::CalculationArithmeticException));
    assert_eq!(get_proportional_amount(u64::MAX, 2, 1), Err(ErrorCode::CalculationArithmeticException));
}

#[test]
fn div_ceil_halves_rounding_up() {
    assert_eq!(div_ceil_2(0), 0);
    assert_eq!(div_ceil_2(7), 4);
    assert_eq!(div_ceil_2(8), 4);
    assert_eq!(div_ceil_2(u64::MAX), 1u64 << 63);
}

#[test]
fn next_after_walks_in_order() {
    let keys = vec![key(1), key(2), key(3)];
    assert_eq!(next_after(&keys, None), Some(0));
    assert_eq!(next_after(&keys, Some(key(1))), Some(1));
    assert_eq!(next_after(&keys, Some(key(2))), Some(2));
    assert_eq!(next_after(&keys, Some(key(3))), None);
    assert_eq!(next_after(&keys, Some(key(9))), None);
    assert_eq!(next_after(&Vec::new(), None), None);
}

#[test]
fn first_taken_skips_and_fails() {
    let ds = vec![StepDecision::Skip, StepDecision::Take, StepDecision::Fail];
    assert_eq!(first_taken(&ds, 0), Ok(Some(1)));
    assert_eq!(first_taken(&ds, 2), Err(ErrorCode::FundOperationCommandExecutionFailedException));
    assert_eq!(first_taken(&ds, 3), Ok(None));
    let skips = vec![StepDecision::Skip, StepDecision::Skip];
    assert_eq!(first_taken(&skips, 0), Ok(None));
    let keys = vec![key(1), key(2), key(3)];
    assert_eq!(next_taken(&keys, &ds, Some(key(1))), Ok(Some(1)));
    assert_eq!(next_taken(&keys, &ds, Some(key(2))), Err(ErrorCode::FundOperationCommandExecutionFailedException));
    assert_eq!(next_taken(&keys, &ds, Some(key(3))), Ok(None));
}

#[test]
fn skipping_entries() {
    let v = vec![1u64, 2, 3, 4];
    assert_eq!(skip_first(&v), vec![2, 3, 4]);
    assert_eq!(skip_first::<u64>(&Vec::new()), Vec::<u64>::new());
    assert_eq!(skip_n(&v, 2), vec![3, 4]);
    assert_eq!(skip_n(&v, 4), Vec::<u64>::new());
    assert!(contains_key(&vec![key(1), key(2)], key(2)));
    assert!(!contains_key(&vec![key(1), key(2)], key(3)));
}

#[test]
fn pricing_sources_classify() {
    let a = key(5);
    assert_eq!(classify_supported_token(&Some(TokenPricingSource::SPLStakePool { address: a })), Ok(true));
    assert_eq!(classify_supported_token(&Some(TokenPricingSource::OrcaDEXLiquidityPool { address: a })), Ok(false));
    assert_eq!(
        classify_supported_token(&Some(TokenPricingSource::JitoRestakingVault { address: a })),
        Err(ErrorCode::FundOperationCommandExecutionFailedException)
    );
    assert_eq!(vault_kind(&Some(TokenPricingSource::JitoRestakingVault { address: a })), Ok(VaultKind::Jito));
    assert_eq!(vault_kind(&Some(TokenPricingSource::SolvBTCVault { address: a })), Ok(VaultKind::SolvBTC));
    assert_eq!(vault_kind(&Some(TokenPricingSource::VirtualVault { address: a })), Ok(VaultKind::Virtual));
    assert_eq!(vault_kind(&None), Err(ErrorCode::FundOperationCommandExecutionFailedException));
}
