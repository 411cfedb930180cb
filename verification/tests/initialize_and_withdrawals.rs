use fund_commands::cmd1_initialize::{
    execute_wrapped_token_update_check, prepare_wrapped_token_update, restaking_vault_updated, update_decision,
    wrapped_token_update_order, wrapped_token_updated, DelegationState, InitializeCommand, InitializeCommandResult,
    InitializeCommandRestakingVaultDelegationUpdateItem, InitializeCommandResultWrappedTokenHolderUpdate, InitializeCommandState,
};
use fund_commands::cmd2_enqueue_withdrawal_batch::{enqueue_result, EnqueueWithdrawalBatchCommand, EnqueueWithdrawalBatchCommandResult};
use fund_commands::cmd6_unrestake_vrt::{
    add_allotments_by_position, allotted_items, create_prepare_command_with_items, execute_check, execute_prepare,
    reserve_deficit, reserve_surplus, unallotted_reserve, UnrestakeVRTCommand, UnrestakeVRTCommandState, UnrestakeVSTCommandItem,
};
use fund_commands::cmd8_unstake_lst::{
    check_withdrawal_accounts, execute_prepare as unstake_prepare, stake_account_metas, UnstakeLSTCommand, UnstakeLSTCommandItem,
    UnstakeLSTCommandState, WithdrawStakeItem,
};
use fund_commands::errors::ErrorCode;
use fund_commands::iteration::StepDecision;
use fund_commands::operation_command::OperationCommandAccountMeta;
use fund_commands::pricing::TokenPricingSource;
use fund_commands::pubkey::Pubkey;

fn key(n: u64) -> Pubkey {
    Pubkey::new(n, 3, 3, n)
}

fn jito(n: u64) -> Option<TokenPricingSource> {
    Some(TokenPricingSource::JitoRestakingVault { address: key(n) })
}

#[test]
fn vault_update_walks_jito_vaults() {
    let vaults = vec![key(1), key(2), key(3)];
    let ds = vec![
        update_decision(&jito(1)),
        update_decision(&Some(TokenPricingSource::SolvBTCVault { address: key(2) })),
        update_decision(&jito(3)),
    ];
    assert_eq!(ds, vec![StepDecision::Take, StepDecision::Skip, StepDecision::Take]);
    assert_eq!(InitializeCommand::next_restaking_vault_to_update(&vaults, &ds, None), Ok(Some(key(1))));
    assert_eq!(InitializeCommand::next_restaking_vault_to_update(&vaults, &ds, Some(key(1))), Ok(Some(key(3))));
    assert_eq!(InitializeCommand::next_restaking_vault_to_update(&vaults, &ds, Some(key(3))), Ok(None));
    let bad = vec![StepDecision::Take, update_decision(&None), StepDecision::Take];
    assert_eq!(
        InitializeCommand::next_restaking_vault_to_update(&vaults, &bad, Some(key(1))),
        Err(ErrorCode::FundOperationCommandExecutionFailedException)
    );
}

#[test]
fn vault_update_prepare_and_batches() {
    let accounts = vec![key(10), key(11), key(1)];
    assert_eq!(InitializeCommand::prepare_restaking_vault_update(jito(1), &accounts), Ok(true));
    assert_eq!(InitializeCommand::prepare_restaking_vault_update(jito(2), &accounts), Err(ErrorCode::RequireKeysEqViolated));
    assert_eq!(InitializeCommand::prepare_restaking_vault_update(jito(1), &vec![key(10)]), Err(ErrorCode::AccountNotEnoughKeys));
    assert_eq!(
        InitializeCommand::prepare_restaking_vault_update(Some(TokenPricingSource::VirtualVault { address: key(1) }), &accounts),
        Ok(false)
    );
    let operators: Vec<Pubkey> = (0..10).map(|i| key(100 + i)).collect();
    let indices: Vec<u64> = vec![9, 8, 7, 6, 5, 4, 3, 2];
    match InitializeCommand::create_next_restaking_vault_update_command(key(1), &operators, &indices) {
        Ok(InitializeCommand { state: InitializeCommandState::ExecuteRestakingVaultUpdate { vault, items, next_item_indices } }) => {
            assert_eq!(vault, key(1));
            assert_eq!(items.len(), 6);
            assert_eq!(items[0], InitializeCommandRestakingVaultDelegationUpdateItem { operator: key(109), index: 9 });
            assert_eq!(next_item_indices, vec![3, 2]);
        },
        _ => panic!("expected an update batch"),
    }
    assert!(matches!(
        InitializeCommand::create_next_restaking_vault_update_command(key(1), &operators, &vec![10]),
        Err(ErrorCode::RestakingVaultDelegationNotFound)
    ));
}

#[test]
fn vault_update_checks_and_result() {
    let items = vec![InitializeCommandRestakingVaultDelegationUpdateItem { operator: key(100), index: 0 }];
    let accounts = vec![key(10), key(11), key(1), key(12), key(200), key(100)];
    assert_eq!(InitializeCommand::execute_restaking_vault_update_check(jito(1), &items, &accounts), Ok(true));
    let mut wrong = accounts.clone();
    wrong[5] = key(101);
    assert_eq!(InitializeCommand::execute_restaking_vault_update_check(jito(1), &items, &wrong), Err(ErrorCode::RequireKeysEqViolated));
    assert_eq!(
        InitializeCommand::execute_restaking_vault_update_check(jito(1), &items, &accounts[..5].to_vec()),
        Err(ErrorCode::AccountNotEnoughKeys)
    );
    let states = vec![DelegationState { delegated_amount: 40, undelegation_requested_amount: 5, undelegating_amount: 7 }];
    let r = restaking_vault_updated(key(1), 600, key(50), &items, &states, &vec![]);
    assert!(r.finalized);
    assert_eq!(r.epoch, 600);
    assert_eq!(r.delegations[0].delegated_amount, 40);
    assert_eq!(r.delegations[0].undelegating_amount, 12);
    assert!(!restaking_vault_updated(key(1), 600, key(50), &items, &states, &vec![4]).finalized);
    let wrapped = InitializeCommandResult::from_restaking_vault_updated(r);
    assert!(wrapped.restaking_vault_updated.is_some() && wrapped.wrapped_token_updated.is_none());
}

#[test]
fn wrapped_token_holders_rotate() {
    let holders = vec![key(1), key(2), key(3), key(4)];
    assert_eq!(wrapped_token_update_order(Some(holders.clone()), 6), Some(vec![key(3), key(4), key(1), key(2)]));
    assert_eq!(wrapped_token_update_order(Some(holders.clone()), 4), Some(holders.clone()));
    assert_eq!(wrapped_token_update_order(Some(vec![]), 5), Some(vec![]));
    assert_eq!(wrapped_token_update_order(None, 5), None);
    let mut rotated = wrapped_token_update_order(Some(holders.clone()), 3).unwrap();
    rotated.sort_by_key(|k| k.w0);
    assert_eq!(rotated, holders);
}

#[test]
fn wrapped_token_update_batches() {
    let holders: Vec<Pubkey> = (0..14).map(|i| key(100 + i)).collect();
    let rewards: Vec<Pubkey> = (0..14).map(|i| key(300 + i)).collect();
    let (command, accounts) = prepare_wrapped_token_update(holders.clone(), key(1), key(2), key(3), &rewards).unwrap();
    assert!(matches!(command.state, InitializeCommandState::ExecuteWrappedTokenUpdate { .. }));
    assert_eq!(accounts.len(), 3 + 24);
    assert_eq!(accounts[0], OperationCommandAccountMeta::new(key(1), true));
    assert_eq!(accounts[1], OperationCommandAccountMeta::new(key(2), false));
    assert_eq!(accounts[3], OperationCommandAccountMeta::new(key(100), false));
    assert_eq!(accounts[4], OperationCommandAccountMeta::new(key(300), true));
    assert!(prepare_wrapped_token_update(vec![], key(1), key(2), key(3), &vec![]).is_none());

    let mut keys = vec![key(1), key(2), key(3)];
    for i in 0..12 {
        keys.push(holders[i]);
        keys.push(rewards[i]);
    }
    assert_eq!(execute_wrapped_token_update_check(&holders, &keys), Ok(12));
    assert_eq!(execute_wrapped_token_update_check(&holders, &keys[..26].to_vec()), Err(ErrorCode::AccountNotEnoughKeys));
    let mut wrong = keys.clone();
    wrong[5] = key(999);
    assert_eq!(execute_wrapped_token_update_check(&holders, &wrong), Err(ErrorCode::RequireKeysEqViolated));
    assert_eq!(execute_wrapped_token_update_check(&vec![], &keys), Ok(0));
    let updates = vec![InitializeCommandResultWrappedTokenHolderUpdate { wrapped_token_account: holders[0], wrapped_token_amount: 5 }];
    let (result, rest) = wrapped_token_updated(key(9), &holders, 12, updates.clone());
    assert!(!result.finalized);
    assert_eq!(result.wrapped_token_holders, updates);
    assert_eq!(rest, holders[12..].to_vec());
    let (result, rest) = wrapped_token_updated(key(9), &holders[12..].to_vec(), 2, vec![]);
    assert!(result.finalized && rest.is_empty());
}

#[test]
fn enqueue_reports_only_what_was_enqueued() {
    assert_eq!(enqueue_result(0, 10), None);
    assert_eq!(
        enqueue_result(4, 10),
        Some(EnqueueWithdrawalBatchCommandResult { enqueued_receipt_token_amount: 4, total_queued_receipt_token_amount: 10 })
    );
    assert!(!EnqueueWithdrawalBatchCommand::default().forced);
}

fn unrestake_item(vault: u64, amount: u64) -> UnrestakeVSTCommandItem {
    UnrestakeVSTCommandItem { vault: key(vault), receipt_token_mint: key(vault + 1), supported_token_mint: key(vault + 2), allocated_receipt_token_amount: amount }
}

#[test]
fn unrestake_reserve_parts() {
    assert_eq!(reserve_surplus(-5), Ok(0));
    assert_eq!(reserve_surplus(7), Ok(7));
    assert_eq!(reserve_surplus(u64::MAX as i128 + 1), Err(ErrorCode::CalculationArithmeticException));
    assert_eq!(reserve_deficit(5), Ok(0));
    assert_eq!(reserve_deficit(-7), Ok(7));
    assert_eq!(reserve_deficit(-(u64::MAX as i128) - 1), Err(ErrorCode::CalculationArithmeticException));
    assert_eq!(unallotted_reserve(10, &unrestake_item(1, 4)), 6);
}

#[test]
fn unrestake_allotments() {
    let mut items = vec![unrestake_item(1, 0), unrestake_item(10, 5), unrestake_item(20, 0)];
    add_allotments_by_position(&mut items, &vec![3, 4]);
    assert_eq!(items[0].allocated_receipt_token_amount, 3);
    assert_eq!(items[1].allocated_receipt_token_amount, 9);
    assert_eq!(items[2].allocated_receipt_token_amount, 0);
    assert_eq!(allotted_items(&items), vec![unrestake_item(1, 3), unrestake_item(10, 9)]);
}

#[test]
fn unrestake_steps() {
    let items = vec![unrestake_item(1, 3)];
    assert!(matches!(create_prepare_command_with_items(vec![], None), Ok(None)));
    assert!(matches!(
        create_prepare_command_with_items(items.clone(), jito(1)),
        Ok(Some(UnrestakeVRTCommand { state: UnrestakeVRTCommandState::Prepare { .. } }))
    ));
    assert!(matches!(
        create_prepare_command_with_items(items.clone(), Some(TokenPricingSource::SolvBTCVault { address: key(1) })),
        Err(ErrorCode::FundOperationCommandExecutionFailedException)
    ));
    assert!(matches!(
        execute_prepare(items.clone(), jito(1), 3),
        Ok(Some(UnrestakeVRTCommand { state: UnrestakeVRTCommandState::Execute { .. } }))
    ));
    assert!(matches!(execute_prepare(items.clone(), jito(2), 3), Err(ErrorCode::RequireKeysEqViolated)));
    assert!(matches!(execute_prepare(items.clone(), jito(1), 2), Err(ErrorCode::AccountNotEnoughKeys)));
    let tickets = vec![true, true, false, false, true];
    assert_eq!(execute_check(&items, jito(1), 25, &tickets), Ok(Some(2)));
    assert_eq!(execute_check(&items, jito(1), 25, &vec![true; 5]), Ok(None));
    assert_eq!(execute_check(&items, jito(1), 24, &tickets), Err(ErrorCode::AccountNotEnoughKeys));
}

#[test]
fn unstake_prepare_by_pool_kind() {
    let items = vec![UnstakeLSTCommandItem { token_mint: key(5), allocated_token_amount: 10 }];
    let accounts = vec![key(1), key(40)];
    let spl = Some(TokenPricingSource::SPLStakePool { address: key(40) });
    match unstake_prepare(items.clone(), spl, &accounts) {
        Ok(Some(UnstakeLSTCommand { items: it, state: UnstakeLSTCommandState::GetAvailableWithdrawals })) => assert_eq!(it, items),
        _ => panic!("expected a withdrawal search"),
    }
    let marinade = Some(TokenPricingSource::MarinadeStakePool { address: key(40) });
    assert!(matches!(
        unstake_prepare(items.clone(), marinade, &accounts),
        Ok(Some(UnstakeLSTCommand { state: UnstakeLSTCommandState::Execute { .. }, .. }))
    ));
    assert!(matches!(
        unstake_prepare(items.clone(), Some(TokenPricingSource::SPLStakePool { address: key(41) }), &accounts),
        Err(ErrorCode::FundOperationCommandExecutionFailedException)
    ));
    assert!(matches!(unstake_prepare(vec![], None, &accounts), Ok(None)));
}

#[test]
fn unstake_withdrawal_accounts() {
    let item = UnstakeLSTCommandItem { token_mint: key(5), allocated_token_amount: 10 };
    let expected: Vec<Pubkey> = (0..5).map(|i| key(60 + i)).collect();
    let mut accounts = vec![key(0), key(40), key(5), key(1), key(2), key(3)];
    accounts.extend(expected.iter().copied());
    let spl = Some(TokenPricingSource::SPLStakePool { address: key(40) });
    assert_eq!(check_withdrawal_accounts(item, spl, &accounts, &expected), Ok(()));
    let mut wrong = accounts.clone();
    wrong[8] = key(99);
    assert_eq!(check_withdrawal_accounts(item, spl, &wrong, &expected), Err(ErrorCode::RequireKeysEqViolated));
    assert_eq!(check_withdrawal_accounts(item, spl, &accounts[..10].to_vec(), &expected), Err(ErrorCode::AccountNotEnoughKeys));
    let ws = vec![
        WithdrawStakeItem { validator_stake_account: key(70), fund_stake_account: key(60), fund_stake_account_index: 0 },
        WithdrawStakeItem { validator_stake_account: key(71), fund_stake_account: key(62), fund_stake_account_index: 2 },
    ];
    assert_eq!(
        stake_account_metas(&ws),
        vec![
            OperationCommandAccountMeta::new(key(60), true),
            OperationCommandAccountMeta::new(key(62), true),
            OperationCommandAccountMeta::new(key(70), true),
            OperationCommandAccountMeta::new(key(71), true),
        ]
    );
}
