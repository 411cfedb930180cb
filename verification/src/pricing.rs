use vstd::prelude::*;
use crate::pubkey::Pubkey;

verus! {

/// Where the fund reads the price of a token from: the kind of pool or vault
/// that issues it, with that pool's or vault's address.
#[derive(Clone, Copy, PartialEq, Eq, Structural, Debug)]
pub enum TokenPricingSource {
    SPLStakePool { address: Pubkey },
    MarinadeStakePool { address: Pubkey },
    SanctumSingleValidatorSPLStakePool { address: Pubkey },
    SanctumMultiValidatorSPLStakePool { address: Pubkey },
    OrcaDEXLiquidityPool { address: Pubkey },
    PeggedToken { address: Pubkey },
    JitoRestakingVault { address: Pubkey },
    FragmetricNormalizedTokenPool { address: Pubkey },
    FragmetricRestakingFund { address: Pubkey },
    SolvBTCVault { address: Pubkey },
    VirtualVault { address: Pubkey },
}

/// A liquid staking token that SOL can be staked into and unstaked from
/// (SPL, Marinade and Sanctum stake pools).
pub open spec fn is_stake_pool(s: Option<TokenPricingSource>) -> bool {
    match s {
        Some(TokenPricingSource::SPLStakePool { .. }) => true,
        Some(TokenPricingSource::MarinadeStakePool { .. }) => true,
        Some(TokenPricingSource::SanctumSingleValidatorSPLStakePool { .. }) => true,
        Some(TokenPricingSource::SanctumMultiValidatorSPLStakePool { .. }) => true,
        _ => false,
    }
}

/// A supported token that cannot be staked (a DEX pool token or a pegged token).
pub open spec fn is_unstakable_token(s: Option<TokenPricingSource>) -> bool {
    match s {
        Some(TokenPricingSource::OrcaDEXLiquidityPool { .. }) => true,
        Some(TokenPricingSource::PeggedToken { .. }) => true,
        _ => false,
    }
}

/// The pool address of a stake pool pricing source.
pub open spec fn stake_pool_address(s: Option<TokenPricingSource>) -> Pubkey
    recommends
        is_stake_pool(s),
{
    match s {
        Some(TokenPricingSource::SPLStakePool { address }) => address,
        Some(TokenPricingSource::MarinadeStakePool { address }) => address,
        Some(TokenPricingSource::SanctumSingleValidatorSPLStakePool { address }) => address,
        Some(TokenPricingSource::SanctumMultiValidatorSPLStakePool { address }) => address,
        _ => Pubkey::spec_zero(),
    }
}

/// Classifies a supported token's pricing source for staking:
/// `Ok(true)` for a stake pool token, `Ok(false)` for a token that cannot be
/// staked, and an error for any other source (a misconfigured fund).
pub fn classify_supported_token(s: &Option<TokenPricingSource>) -> (r: Result<bool, crate::errors::ErrorCode>)
    ensures
        is_stake_pool(*s) ==> r == Ok::<bool, crate::errors::ErrorCode>(true),
        is_unstakable_token(*s) ==> r == Ok::<bool, crate::errors::ErrorCode>(false),
        !is_stake_pool(*s) && !is_unstakable_token(*s) ==> r == Err::<bool, crate::errors::ErrorCode>(
            crate::errors::ErrorCode::FundOperationCommandExecutionFailedException),
{
    match s {
        Some(TokenPricingSource::SPLStakePool { .. })
        | Some(TokenPricingSource::MarinadeStakePool { .. })
        | Some(TokenPricingSource::SanctumSingleValidatorSPLStakePool { .. })
        | Some(TokenPricingSource::SanctumMultiValidatorSPLStakePool { .. }) => Ok(true),
        Some(TokenPricingSource::OrcaDEXLiquidityPool { .. })
        | Some(TokenPricingSource::PeggedToken { .. }) => Ok(false),
        _ => Err(crate::errors::ErrorCode::FundOperationCommandExecutionFailedException),
    }
}

/// The kind of restaking vault that issued a vault receipt token.
#[derive(Clone, Copy, PartialEq, Eq, Structural, Debug)]
pub enum VaultKind {
    Jito,
    SolvBTC,
    Virtual,
}

/// The kind of restaking vault a pricing source names, if any.
pub open spec fn spec_vault_kind(s: Option<TokenPricingSource>) -> Option<VaultKind> {
    match s {
        Some(TokenPricingSource::JitoRestakingVault { .. }) => Some(VaultKind::Jito),
        Some(TokenPricingSource::SolvBTCVault { .. }) => Some(VaultKind::SolvBTC),
        Some(TokenPricingSource::VirtualVault { .. }) => Some(VaultKind::Virtual),
        _ => None,
    }
}

/// The kind of restaking vault a receipt token pricing source names;
/// any other source is a misconfigured fund.
pub fn vault_kind(s: &Option<TokenPricingSource>) -> (r: Result<VaultKind, crate::errors::ErrorCode>)
    ensures
        spec_vault_kind(*s) is Some ==> r == Ok::<VaultKind, crate::errors::ErrorCode>(spec_vault_kind(*s)->0),
        spec_vault_kind(*s) is None ==> r == Err::<VaultKind, crate::errors::ErrorCode>(
            crate::errors::ErrorCode::FundOperationCommandExecutionFailedException),
{
    match s {
        Some(TokenPricingSource::JitoRestakingVault { .. }) => Ok(VaultKind::Jito),
        Some(TokenPricingSource::SolvBTCVault { .. }) => Ok(VaultKind::SolvBTC),
        Some(TokenPricingSource::VirtualVault { .. }) => Ok(VaultKind::Virtual),
        _ => Err(crate::errors::ErrorCode::FundOperationCommandExecutionFailedException),
    }
}

} // verus!
