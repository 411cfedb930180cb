use fund_commands::cmd10_harvest_restaking_yield::HarvestVaultInfo;
use fund_commands::cmd10_harvest_reward::{
    apply_compound, check_prepare_swap_accounts, compound_route, compound_swap_entry, compound_transfer_entry, decision,
    distribute_check, distribute_entry, harvestable_amount, select_vault_ata, swap_result, transfer_result, CompoundRoute,
    HarvestRewardCommand, HarvestRewardCommandState, HarvestType, RewardTokenAccountState,
};
use fund_commands::cmd7_harvest_reward as compounding;
use fund_commands::errors::ErrorCode;
use fund_commands::iteration::StepDecision;
use fund_commands::operation_command::OperationCommandAccountMeta;
use fund_commands::pricing::TokenPricingSource;
use fund_commands::programs::{get_associated_token_address_with_program_id, token_2022_program_id, token_program_id};
use fund_commands::pubkey::Pubkey;

fn key(n: u64) -> Pubkey {
    Pubkey::new(n, 9, 9, n)
}

fn vault(n: u64, source: Option<TokenPricingSource>, compounding: Vec<Pubkey>, distributing: Vec<Pubkey>) -> HarvestVaultInfo {
    HarvestVaultInfo {
        vault: key(n),
        receipt_token_pricing_source: source,
        compounding_reward_token_mints: compounding,
        distributing_reward_token_mints: distributing,
    }
}

#[test]
fn reward_decisions() {
    let jito = Some(TokenPricingSource::JitoRestakingVault { address: key(1) });
    let solv = Some(TokenPricingSource::SolvBTCVault { address: key(1) });
    assert_eq!(decision(&jito, HarvestType::Compound, 1), StepDecision::Take);
    assert_eq!(decision(&solv, HarvestType::Compound, 1), StepDecision::Skip);
    assert_eq!(decision(&solv, HarvestType::Distribute, 1), StepDecision::Take);
    assert_eq!(decision(&None, HarvestType::Distribute, 1), StepDecision::Fail);
    assert_eq!(decision(&None, HarvestType::Distribute, 0), StepDecision::Skip);
}

#[test]
fn reward_harvest_goes_vault_by_vault() {
    let jito = |n| Some(TokenPricingSource::JitoRestakingVault { address: key(n) });
    let vaults = vec![
        vault(1, jito(1), vec![], vec![key(50)]),
        vault(2, jito(2), vec![key(60)], vec![]),
        vault(3, Some(TokenPricingSource::SolvBTCVault { address: key(3) }), vec![key(70)], vec![key(71)]),
    ];
    assert_eq!(HarvestRewardCommand::execute_new_command(&vaults, HarvestType::Compound, None), Ok(Some((HarvestType::Compound, 1))));
    assert_eq!(
        HarvestRewardCommand::execute_new_command(&vaults, HarvestType::Compound, Some(key(2))),
        Ok(Some((HarvestType::Distribute, 0)))
    );
    assert_eq!(
        HarvestRewardCommand::execute_new_command(&vaults, HarvestType::Distribute, Some(key(1))),
        Ok(Some((HarvestType::Distribute, 2)))
    );
    assert_eq!(HarvestRewardCommand::execute_new_command(&vaults, HarvestType::Distribute, Some(key(3))), Ok(None));
    let broken = vec![vault(1, None, vec![key(50)], vec![])];
    assert_eq!(
        HarvestRewardCommand::execute_new_command(&broken, HarvestType::Compound, None),
        Err(ErrorCode::FundOperationCommandExecutionFailedException)
    );
    match HarvestRewardCommand::create_prepare_command(HarvestType::Compound, key(2), vec![key(60), key(61)], jito(2)) {
        Ok(Some(HarvestRewardCommandState::PrepareCompound { vault, reward_token_mints })) => {
            assert_eq!(vault, key(2));
            assert_eq!(reward_token_mints, vec![key(60), key(61)]);
        },
        _ => panic!("expected prepare"),
    }
    assert!(matches!(HarvestRewardCommand::create_prepare_command(HarvestType::Compound, key(2), vec![], jito(2)), Ok(None)));
}

#[test]
fn vault_reward_account_checks() {
    let mint = key(60);
    let token = token_program_id();
    assert_eq!(select_vault_ata(3, mint, mint, token), Ok(0));
    assert_eq!(select_vault_ata(3, mint, mint, token_2022_program_id()), Ok(1));
    assert_eq!(select_vault_ata(3, mint, mint, key(5)), Err(ErrorCode::InvalidProgramId));
    assert_eq!(select_vault_ata(3, key(61), mint, token), Err(ErrorCode::RequireKeysEqViolated));
    assert_eq!(select_vault_ata(2, mint, mint, token), Err(ErrorCode::AccountNotEnoughKeys));
    let fund = key(999);
    let acc = RewardTokenAccountState {
        initialized: true,
        owner_program: token,
        mint,
        owner: key(2),
        delegate: Some(fund),
        amount: 50,
        delegated_amount: 30,
    };
    assert_eq!(harvestable_amount(acc, mint, token, key(2), fund), Ok(Some(30)));
    assert_eq!(harvestable_amount(RewardTokenAccountState { initialized: false, ..acc }, mint, token, key(2), fund), Ok(None));
    assert_eq!(harvestable_amount(RewardTokenAccountState { delegate: None, ..acc }, mint, token, key(2), fund), Ok(None));
    assert_eq!(harvestable_amount(RewardTokenAccountState { amount: 0, ..acc }, mint, token, key(2), fund), Ok(None));
    assert_eq!(harvestable_amount(acc, mint, token, key(3), fund), Err(ErrorCode::RequireKeysEqViolated));
}

#[test]
fn reward_entries() {
    let (state, accounts) = compound_swap_entry(key(2), vec![key(60)], key(80), key(81), key(82));
    assert!(matches!(state, HarvestRewardCommandState::PrepareSwap { .. }));
    assert_eq!(accounts[0], OperationCommandAccountMeta::new(key(80), false));
    assert_eq!(accounts[3], OperationCommandAccountMeta::new(key(82), false));
    let (state, accounts) = compound_transfer_entry(key(2), vec![key(60)], key(81), key(83), token_program_id());
    assert!(matches!(state, HarvestRewardCommandState::ExecuteCompound { .. }));
    assert_eq!(accounts[1], OperationCommandAccountMeta::new(key(81), true));
    let keys = vec![key(60), key(81), key(84), key(90)];
    match distribute_entry(key(2), vec![key(60)], key(81), &keys, key(90), Some(key(91)), token_program_id()) {
        Ok(Some((HarvestRewardCommandState::ExecuteDistribute { .. }, accounts))) => {
            assert_eq!(accounts.len(), 5);
            assert_eq!(accounts[2], OperationCommandAccountMeta::new(key(91), true));
            assert_eq!(accounts[4], OperationCommandAccountMeta::new(key(90), true));
        },
        _ => panic!("expected distribution"),
    }
    assert!(matches!(distribute_entry(key(2), vec![key(60)], key(81), &keys, key(90), None, token_program_id()), Ok(None)));
    assert!(matches!(
        distribute_entry(key(2), vec![key(60)], key(81), &keys, key(92), None, token_program_id()),
        Err(ErrorCode::RequireKeysEqViolated)
    ));
    assert!(matches!(
        distribute_entry(key(2), vec![key(60)], key(81), &keys[..3].to_vec(), key(90), None, token_program_id()),
        Err(ErrorCode::AccountNotEnoughKeys)
    ));
    assert_eq!(check_prepare_swap_accounts(&vec![key(80), key(60), key(81), key(82)], key(80), key(60), key(82)), Ok(()));
    assert_eq!(check_prepare_swap_accounts(&vec![key(80), key(60), key(81), key(83)], key(80), key(60), key(82)), Err(ErrorCode::RequireKeysEqViolated));
}

#[test]
fn compounding_results() {
    let jito = Some(TokenPricingSource::JitoRestakingVault { address: key(2) });
    assert_eq!(compound_route(false, None), Ok(CompoundRoute::Swap));
    assert_eq!(compound_route(true, jito), Ok(CompoundRoute::Transfer));
    assert_eq!(compound_route(true, Some(TokenPricingSource::SolvBTCVault { address: key(2) })), Ok(CompoundRoute::Skip));
    assert_eq!(compound_route(true, None), Err(ErrorCode::FundOperationCommandExecutionFailedException));
    assert_eq!(swap_result(key(2), key(60), key(70), 10, 0), None);
    let swapped = swap_result(key(2), key(60), key(70), 10, 8).unwrap();
    assert_eq!(swapped.compounded_token_amount, 8);
    assert_eq!(apply_compound(swapped, 100), (key(70), 108));
    let moved = transfer_result(key(2), key(60), 5, None).unwrap();
    assert_eq!(moved.compounded_token_amount, 5);
    assert_eq!(moved.distributed_token_amount, 0);
    assert_eq!(apply_compound(moved, 1), (key(60), 6));
    let distributed = transfer_result(key(2), key(60), 5, Some(key(90))).unwrap();
    assert_eq!(distributed.distributed_token_amount, 5);
    assert_eq!(distributed.compounded_token_amount, 0);
    assert_eq!(distributed.updated_reward_account, Some(key(90)));
    assert_eq!(transfer_result(key(2), key(60), 0, None), None);
}

#[test]
fn distribution_checks() {
    assert_eq!(distribute_check(5, key(60), key(60), key(60), Some(key(91)), key(91), 10, 4), Ok(Some(4)));
    assert_eq!(distribute_check(5, key(60), key(60), key(60), None, key(91), 10, 4), Ok(None));
    assert_eq!(distribute_check(5, key(60), key(60), key(60), Some(key(91)), key(92), 10, 4), Err(ErrorCode::RequireKeysEqViolated));
    assert_eq!(distribute_check(5, key(61), key(60), key(60), Some(key(91)), key(91), 10, 4), Err(ErrorCode::RequireKeysEqViolated));
    assert_eq!(distribute_check(4, key(60), key(60), key(60), Some(key(91)), key(91), 10, 4), Err(ErrorCode::AccountNotEnoughKeys));
    assert_eq!(distribute_check(5, key(60), key(60), key(60), Some(key(91)), key(91), 0, 4), Ok(None));
}

#[test]
fn compounding_harvest_items_by_vault() {
    let item = |m: u64| compounding::HarvestRewardCommandItem { reward_token_mint: key(m), harvest_type: compounding::HarvestType::Transfer };
    let vaults = vec![
        compounding::CompoundingVaultInfo { vault: key(1), items: vec![] },
        compounding::CompoundingVaultInfo { vault: key(2), items: vec![item(60), item(61)] },
        compounding::CompoundingVaultInfo { vault: key(3), items: vec![item(62)] },
    ];
    let (vs, items) = compounding::find_command_items(&vaults);
    assert_eq!(vs, vec![key(2), key(3)]);
    assert_eq!(items, vec![item(60), item(61)]);
    let (vs, items) = compounding::find_command_items(&vaults[..1].to_vec());
    assert!(vs.is_empty() && items.is_empty());
    let (command, accounts) = compounding::create_prepare_command_with_items(vec![key(2)], vec![item(60)]).unwrap().unwrap();
    assert!(matches!(command.state, compounding::HarvestRewardCommandState::Prepare { .. }));
    assert_eq!(accounts[0], OperationCommandAccountMeta::new(key(60), false));
    assert_eq!(
        accounts[1].pubkey,
        get_associated_token_address_with_program_id(&key(2), &key(60), &token_program_id()).unwrap()
    );
    assert!(matches!(compounding::create_prepare_command_with_items(vec![], vec![item(60)]), Ok(None)));
    match compounding::after_item(vec![key(2), key(3)], &vec![item(60), item(61)]) {
        compounding::AfterItem::NextItem { items, .. } => assert_eq!(items, vec![item(61)]),
        _ => panic!("expected the next item"),
    }
    match compounding::after_item(vec![key(2), key(3)], &vec![item(61)]) {
        compounding::AfterItem::NextVaults { vaults } => assert_eq!(vaults, vec![key(3)]),
        _ => panic!("expected the next vaults"),
    }
}

#[test]
fn compounding_harvest_checks() {
    assert_eq!(compounding::select_candidate(3, token_program_id()), Ok(0));
    assert_eq!(compounding::select_candidate(3, token_2022_program_id()), Ok(1));
    assert_eq!(compounding::select_candidate(3, key(1)), Err(ErrorCode::InvalidProgramId));
    assert_eq!(compounding::select_candidate(1, key(1)), Err(ErrorCode::AccountNotEnoughKeys));
    let swap = compounding::HarvestRewardCommandItem { reward_token_mint: key(60), harvest_type: compounding::HarvestType::Swap(key(70)) };
    assert_eq!(compounding::check_prepare_swap_accounts(swap, &vec![key(80), key(60), key(70)], key(80)), Ok(()));
    assert_eq!(compounding::check_prepare_swap_accounts(swap, &vec![key(80), key(60), key(71)], key(80)), Err(ErrorCode::RequireKeysEqViolated));
    let transfer = compounding::HarvestRewardCommandItem { reward_token_mint: key(60), harvest_type: compounding::HarvestType::Transfer };
    assert_eq!(
        compounding::check_prepare_swap_accounts(transfer, &vec![key(80), key(60), key(71)], key(80)),
        Err(ErrorCode::FundOperationCommandExecutionFailedException)
    );
    let token = token_program_id();
    let ata = get_associated_token_address_with_program_id(&key(2), &key(60), &token).unwrap();
    assert_eq!(compounding::check_transfer_accounts(key(2), transfer, &vec![key(60), ata, key(85), token], token, key(85)), Ok(()));
    assert_eq!(
        compounding::check_transfer_accounts(key(2), transfer, &vec![key(60), key(2), key(85), token], token, key(85)),
        Err(ErrorCode::RequireKeysEqViolated)
    );
    assert_eq!(
        compounding::check_transfer_accounts(key(2), transfer, &vec![key(60)], token, key(85)),
        Err(ErrorCode::FundOperationCommandExecutionFailedException)
    );
    assert_eq!(compounding::settle_compound(100, 20, 5, 125), Ok(105));
    assert_eq!(compounding::settle_compound(100, 20, 5, 124), Err(ErrorCode::RequireGteViolated));
    assert_eq!(compounding::harvest_result(key(60), 0, None, 0), None);
    let r = compounding::harvest_result(key(60), 10, Some(key(70)), 9).unwrap();
    assert_eq!(r.compounded_token_amount, 9);
    assert_eq!(r.swapped_token_mint, Some(key(70)));
}
