use fund_commands::cmd10_harvest_restaking_yield::{
    check_commission_accounts, check_common_accounts, compound_vault_supported_token, compound_vault_supported_token_result,
    find_commission_accounts, find_common_accounts, find_vault_reward_token_account_candidates, get_reward_token_amount,
    prepare_decision, remaining_reward_token_mints, reward_token_account_signer, select_vault_reward_token_account,
    split_commission, HarvestRestakingYieldCommand, HarvestType, HarvestVaultInfo,
};
use fund_commands::cmd10_harvest_restaking_yield::{
    compound_reward_result, distribute_reward_result, net_harvest_amount, swap_reward_result, threshold_of_compounding_reward,
};
use fund_commands::cmd10_stake_sol::{marinade_deposit_is_skipped, StakeSOLCommand as OnePoolStakeSOLCommand};
use fund_commands::cmd11_stake_sol::{
    apply_stake, marinade_deposit_is_consistent, spl_fee_is_consistent, StakeBook, StakeDeposit, StakeSOLCommandItem,
};
use fund_commands::cmd12_normalize_st::{apply_normalize, NormalizeSTCommandItem};
use fund_commands::errors::ErrorCode;
use fund_commands::iteration::StepDecision;
use fund_commands::operation_command::OperationCommandAccountMeta;
use fund_commands::pricing::{TokenPricingSource, VaultKind};
use fund_commands::programs::{
    associated_token_program_id, get_associated_token_address_with_program_id, system_program_id, token_2022_program_id,
    token_program_id,
};
use fund_commands::pubkey::Pubkey;

fn key(n: u64) -> Pubkey {
    Pubkey::new(n, 6, 6, n)
}

#[test]
fn commission_split() {
    assert_eq!(split_commission(10_000, 250), Ok((250, 9_750)));
    assert_eq!(split_commission(999, 1), Ok((0, 999)));
    assert_eq!(split_commission(77, 0), Ok((0, 77)));
    assert_eq!(split_commission(77, 10_000), Ok((77, 0)));
}

#[test]
fn reward_amounts_and_signers() {
    let fund = key(1);
    let m = key(40);
    assert_eq!(get_reward_token_amount(m, m, 50, fund, None, 0, fund), Ok(50));
    assert_eq!(get_reward_token_amount(m, m, 50, key(2), Some(fund), 30, fund), Ok(30));
    assert_eq!(get_reward_token_amount(m, m, 20, key(2), Some(fund), 30, fund), Ok(20));
    assert_eq!(get_reward_token_amount(m, m, 50, key(2), Some(key(3)), 30, fund), Ok(0));
    assert_eq!(get_reward_token_amount(key(41), m, 50, fund, None, 0, fund), Err(ErrorCode::RequireKeysEqViolated));
    assert_eq!(reward_token_account_signer(VaultKind::Jito, fund, key(9)), fund);
    assert_eq!(reward_token_account_signer(VaultKind::Virtual, fund, key(9)), key(9));
}

#[test]
fn yield_harvest_search() {
    let jito = |n| Some(TokenPricingSource::JitoRestakingVault { address: key(n) });
    let vaults = vec![
        HarvestVaultInfo { vault: key(1), receipt_token_pricing_source: jito(1), compounding_reward_token_mints: vec![], distributing_reward_token_mints: vec![key(50)] },
        HarvestVaultInfo {
            vault: key(2),
            receipt_token_pricing_source: Some(TokenPricingSource::VirtualVault { address: key(2) }),
            compounding_reward_token_mints: vec![key(60)],
            distributing_reward_token_mints: vec![],
        },
    ];
    assert_eq!(HarvestRestakingYieldCommand::execute_new_command(&vaults, HarvestType::CompoundReward, None), Ok(Some((HarvestType::CompoundReward, 1))));
    assert_eq!(
        HarvestRestakingYieldCommand::execute_new_command(&vaults, HarvestType::CompoundReward, Some(key(2))),
        Ok(Some((HarvestType::DistributeReward, 0)))
    );
    assert_eq!(
        HarvestRestakingYieldCommand::execute_new_command(&vaults, HarvestType::DistributeReward, Some(key(1))),
        Ok(Some((HarvestType::CompoundVaultSupportedToken, 0)))
    );
    assert_eq!(
        HarvestRestakingYieldCommand::execute_new_command(&vaults, HarvestType::CompoundVaultSupportedToken, Some(key(1))),
        Ok(None)
    );
    assert_eq!(prepare_decision(&None, HarvestType::CompoundVaultSupportedToken, 0), StepDecision::Fail);
    assert_eq!(prepare_decision(&jito(1), HarvestType::DistributeReward, 0), StepDecision::Skip);
}

#[test]
fn yield_harvest_accounts() {
    let vault = key(2);
    let mint = key(60);
    let candidates = find_vault_reward_token_account_candidates(vault, mint).unwrap();
    assert_eq!(candidates.len(), 3);
    assert_eq!(candidates[1].pubkey, get_associated_token_address_with_program_id(&vault, &mint, &token_program_id()).unwrap());
    assert_eq!(candidates[2].pubkey, get_associated_token_address_with_program_id(&vault, &mint, &token_2022_program_id()).unwrap());
    assert_eq!(select_vault_reward_token_account(mint, mint, token_2022_program_id()), Ok(1));
    let common = find_common_accounts(mint, token_program_id(), key(70), key(71));
    assert_eq!(common[0], OperationCommandAccountMeta::new(token_program_id(), false));
    assert_eq!(common[2], OperationCommandAccountMeta::new(key(70), true));
    let revenue = key(90);
    let commission = find_commission_accounts(revenue, mint, token_program_id()).unwrap();
    assert_eq!(commission[2], OperationCommandAccountMeta::new(system_program_id(), false));
    assert_eq!(commission[3], OperationCommandAccountMeta::new(associated_token_program_id(), false));
    assert_eq!(check_common_accounts(4, mint, mint), Ok(()));
    assert_eq!(check_common_accounts(4, key(61), mint), Err(ErrorCode::RequireKeysEqViolated));
    assert_eq!(check_common_accounts(3, mint, mint), Err(ErrorCode::AccountNotEnoughKeys));
    let keys = vec![revenue, commission[1].pubkey, system_program_id(), associated_token_program_id()];
    assert_eq!(check_commission_accounts(&keys, revenue, mint, token_program_id()), Ok(()));
    assert_eq!(check_commission_accounts(&keys, revenue, mint, token_2022_program_id()), Err(ErrorCode::RequireKeysEqViolated));
    assert_eq!(check_commission_accounts(&keys[..3].to_vec(), revenue, mint, token_program_id()), Err(ErrorCode::AccountNotEnoughKeys));
}

#[test]
fn vault_supported_token_compounding() {
    assert_eq!(compound_vault_supported_token(VaultKind::Jito, 7, 100), (7, 100, 0));
    assert_eq!(compound_vault_supported_token(VaultKind::Virtual, 7, 100), (0, 0, 100));
    assert!(compound_vault_supported_token_result(key(2), key(3), 7, 0).is_none());
    assert_eq!(compound_vault_supported_token_result(key(2), key(3), 7, -5).unwrap().vault_supported_token_compounded_amount, -5);
    assert_eq!(remaining_reward_token_mints(&vec![key(1), key(2)]), vec![key(2)]);
}

#[test]
fn stake_bookkeeping() {
    let book = StakeBook {
        sol_operation_reserved_amount: 100,
        sol_operation_receivable_amount: 1,
        token_operation_reserved_amount: 10,
        token_other_reserved_amount: 5,
    };
    let item = StakeSOLCommandItem { token_mint: key(1), allocated_sol_amount: 40 };
    let d = StakeDeposit {
        to_pool_token_account_amount: 53,
        minted_pool_token_amount: 38,
        deducted_sol_fee_amount: 2,
    };
    let (nb, result) = apply_stake(book, item, d).unwrap();
    assert_eq!(nb.sol_operation_reserved_amount, 60);
    assert_eq!(nb.sol_operation_receivable_amount, 3);
    assert_eq!(nb.token_operation_reserved_amount, 48);
    assert_eq!(result.staked_sol_amount, 40);
    let short = StakeDeposit { to_pool_token_account_amount: 52, ..d };
    assert!(matches!(apply_stake(book, item, short), Err(ErrorCode::RequireGteViolated)));
    assert!(marinade_deposit_is_consistent(100, 99));
    assert!(!marinade_deposit_is_consistent(100, 98));
    assert!(spl_fee_is_consistent(100, 90, 10));
    assert!(!spl_fee_is_consistent(100, 90, 12));
    assert!(marinade_deposit_is_skipped(5, 10));
    assert!(!marinade_deposit_is_skipped(10, 10));
}

#[test]
fn one_pool_staking() {
    let shares = vec![(key(1), 0), (key(2), 5)];
    let items = OnePoolStakeSOLCommand::plan_items(10, &shares).unwrap();
    assert_eq!(items.len(), 1);
    assert_eq!(items[0].token_mint, key(2));
    assert!(OnePoolStakeSOLCommand::check_supported_token(&Some(TokenPricingSource::PeggedToken { address: key(1) })).is_err());
    let next = OnePoolStakeSOLCommand::next_command(items, Some(TokenPricingSource::SPLStakePool { address: key(40) })).unwrap();
    let (_, accounts) = next.unwrap();
    assert_eq!(accounts[0].pubkey, key(40));
}

#[test]
fn normalize_bookkeeping() {
    let item = NormalizeSTCommandItem { supported_token_mint: key(1), allocated_token_amount: 30 };
    let (st, nt, result) = apply_normalize(100, 10, item, 29, 39).unwrap();
    assert_eq!((st, nt), (70, 39));
    assert_eq!(result.minted_token_amount, 29);
    assert!(matches!(apply_normalize(100, 10, item, 29, 38), Err(ErrorCode::RequireGteViolated)));
}

#[test]
fn reward_harvest_settlement() {
    let jito = Some(TokenPricingSource::JitoRestakingVault { address: key(1) });
    let virtual_vault = Some(TokenPricingSource::VirtualVault { address: key(2) });
    // 2.5% commission on 1000 reward tokens
    assert_eq!(net_harvest_amount(&jito, 1000, 250), Ok(975));
    assert_eq!(net_harvest_amount(&virtual_vault, 1000, 0), Ok(1000));
    assert_eq!(
        net_harvest_amount(&Some(TokenPricingSource::SPLStakePool { address: key(3) }), 1000, 250),
        Err(ErrorCode::FundOperationCommandExecutionFailedException)
    );

    assert_eq!(compound_reward_result(key(1), key(5), 0, 40, 7, 100), (40, 7, None));
    let (reserved, harvested_at, result) = compound_reward_result(key(1), key(5), 975, 40, 7, 100);
    assert_eq!(harvested_at, 100);
    assert_eq!(reserved, 1015);
    let result = result.unwrap();
    assert_eq!(result.yield_token_amount, 975);
    assert_eq!(result.fund_supported_token_compounded_token_amount, 975);
    assert_eq!(result.swapped_token_mint, None);

    let (reserved, harvested_at, result) = swap_reward_result(key(1), key(5), key(6), 975, 300, 40, 7, 100);
    assert_eq!(harvested_at, 100);
    assert_eq!(reserved, 340);
    let result = result.unwrap();
    assert_eq!(result.yield_token_amount, 975);
    assert_eq!(result.swapped_token_mint, Some(key(6)));
    assert_eq!(result.fund_supported_token_compounded_token_amount, 300);
    assert_eq!(swap_reward_result(key(1), key(5), key(6), 975, 0, 40, 7, 100), (40, 7, None));

    assert_eq!(distribute_reward_result(key(1), key(5), 0, key(9), 7, 100), (7, None));
    let (harvested_at, result) = distribute_reward_result(key(1), key(5), 975, key(9), 7, 100);
    assert_eq!(harvested_at, 100);
    let result = result.unwrap();
    assert_eq!(result.reward_token_distributed_token_amount, 975);
    assert_eq!(result.updated_reward_account, Some(key(9)));

    assert_eq!(threshold_of_compounding_reward(HarvestType::CompoundReward), Ok(true));
    assert_eq!(threshold_of_compounding_reward(HarvestType::DistributeReward), Ok(false));
    assert_eq!(
        threshold_of_compounding_reward(HarvestType::CompoundVaultSupportedToken),
        Err(ErrorCode::FundOperationCommandExecutionFailedException)
    );
}
