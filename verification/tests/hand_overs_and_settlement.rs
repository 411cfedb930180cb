use fund_commands::cmd10_harvest_performance_fee::{
    check_state, next_after_step as after_performance_fee_step, performance_fee_last_harvested_at, HarvestPerformanceFeeCommand,
    HarvestPerformanceFeeState, PerformanceFeeNext,
};
use fund_commands::cmd10_harvest_restaking_yield::{
    next_after_step as after_restaking_yield_step, HarvestRestakingYieldCommand, HarvestRestakingYieldState,
    RestakingYieldNext,
};
use fund_commands::cmd11_stake_sol::StakeSOLCommandState;
use fund_commands::cmd3_claim_unrestaked_vst::{jito_claim_result, ClaimBook, WithdrawalTotals};
use fund_commands::cmd9_process_withdrawal_batch::{capacities_after_batch, capacity_offered_to_tokens, prepare_accounts};
use fund_commands::errors::ErrorCode;
use fund_commands::operation_command::{OperationCommand, OperationCommandAccountMeta};
use fund_commands::pricing::TokenPricingSource;
use fund_commands::programs::{get_associated_token_address_with_program_id, token_program_id};
use fund_commands::pubkey::Pubkey;

fn key(n: u64) -> Pubkey {
    Pubkey::new(n, 9, 9, n)
}

#[test]
fn performance_fee_hands_over_to_the_yield_harvest() {
    match after_performance_fee_step(None) {
        PerformanceFeeNext::HarvestRestakingYield(c) => assert!(matches!(c.state, HarvestRestakingYieldState::New)),
        _ => panic!("the yield harvest follows"),
    }
    let step = HarvestPerformanceFeeCommand { state: HarvestPerformanceFeeState::Execute };
    match after_performance_fee_step(Some((step, vec![OperationCommandAccountMeta::new(key(1), true)]))) {
        PerformanceFeeNext::Continue(c, accounts) => {
            assert_eq!(c.state, HarvestPerformanceFeeState::Execute);
            assert_eq!(accounts.len(), 1);
        }
        _ => panic!("the harvest's own step comes first"),
    }
    assert_eq!(check_state(HarvestPerformanceFeeState::Unused { unused: true }), Err(ErrorCode::FundOperationCommandExecutionFailedException));
    assert_eq!(check_state(HarvestPerformanceFeeState::New), Ok(()));
    assert_eq!(performance_fee_last_harvested_at(1, 5, 50), 50);
    assert_eq!(performance_fee_last_harvested_at(0, 5, 50), 5);
}

#[test]
fn yield_harvest_hands_over_to_staking() {
    match after_restaking_yield_step(None) {
        RestakingYieldNext::StakeSOL(e) => {
            assert!(e.required_accounts.is_empty());
            match e.command {
                OperationCommand::StakeSOL(c) => assert!(matches!(c.state, StakeSOLCommandState::New)),
                _ => panic!("staking follows"),
            }
        }
        _ => panic!("staking follows"),
    }
    let step = HarvestRestakingYieldCommand { state: HarvestRestakingYieldState::NewDistributeReward };
    assert!(matches!(after_restaking_yield_step(Some((step, vec![]))), RestakingYieldNext::Continue(..)));
}

#[test]
fn batch_capacities_grow_by_the_processed_amount() {
    assert_eq!(capacity_offered_to_tokens(101, true), 51);
    assert_eq!(capacity_offered_to_tokens(101, false), 101);
    // 101 processed: 51 offered to the tokens, 10 of it not placed; SOL gets 50 + 10
    let (sol, tokens) = capacities_after_batch(101, true, 1000, &vec![5, u64::MAX - 1], &vec![20, 9], 10);
    assert_eq!(sol, 1060);
    assert_eq!(tokens, vec![25, u64::MAX]);
    let (sol, tokens) = capacities_after_batch(0, true, 1000, &vec![5], &vec![20], 0);
    assert_eq!((sol, tokens), (1000, vec![5]));
    let (sol, _) = capacities_after_batch(101, false, 1000, &vec![], &vec![], 1);
    assert_eq!(sol, 1000);
}

#[test]
fn prepare_accounts_owes_success_for_a_token_asset() {
    let supported = vec![Some(TokenPricingSource::SPLStakePool { address: key(1) })];
    let vaults = vec![Some(TokenPricingSource::JitoRestakingVault { address: key(2) })];
    let accounts = prepare_accounts(key(3), Some((key(4), token_program_id())), vec![], &supported, &vaults).unwrap();
    assert_eq!(accounts.len(), 5);
    assert_eq!(accounts[1].pubkey, get_associated_token_address_with_program_id(&key(3), &key(4), &token_program_id()).unwrap());
    let pegged = vec![Some(TokenPricingSource::PeggedToken { address: key(1) })];
    assert_eq!(
        prepare_accounts(key(3), Some((key(4), token_program_id())), vec![], &pegged, &vaults).err(),
        Some(ErrorCode::FundOperationCommandExecutionFailedException)
    );
}

#[test]
fn jito_claim_result_reports_the_claim() {
    let totals = WithdrawalTotals {
        claimed_supported_token_amount: 90,
        unrestaked_receipt_token_amount: 100,
        deducted_receipt_token_fee_amount: 10,
        last_to_vault_supported_token_amount: 500,
    };
    let book = ClaimBook {
        vault_receipt_token_operation_receivable_amount: 7,
        token_operation_reserved_amount: 400,
        token_operation_receivable_amount: 3,
        sol_operation_receivable_amount: 0,
    };
    assert!(jito_claim_result(key(1), key(2), key(3), 0, totals, book, 3).is_none());
    let result = jito_claim_result(key(1), key(2), key(3), 2, totals, book, 3).unwrap();
    assert_eq!(result.total_unrestaking_receipt_token_amount, 7);
    assert_eq!(result.unrestaked_receipt_token_amount, 100);
    assert_eq!(result.claimed_supported_token_amount, 90);
    assert_eq!(result.operation_reserved_supported_token_amount, 400);
    assert_eq!(result.operation_receivable_supported_token_amount, 3);
    assert!(result.offsetted_asset_receivables.is_empty());
}
