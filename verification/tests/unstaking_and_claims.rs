use fund_commands::cmd7_unstake_lst::{execute_route, resumed_withdraw_accounts, UnstakeRoute};
use fund_commands::operation_command::OperationCommandAccountMeta;
use fund_commands::cmd3_claim_unrestaked_vst::ticket_accounts;
use fund_commands::cmd9_unrestake_vrt::request_ticket_accounts;
use fund_commands::programs::{get_associated_token_address_with_program_id, token_program_id};
use fund_commands::cmd5_claim_unstaked_sol::{marinade_claim_plan, settle_claim, total_claimed, ClaimUnstakedSOLCommand};
use fund_commands::cmd7_claim_unstaked_sol::{
    apply_claim, total_claims, ClaimUnstakedSOLCommand as ItemClaimCommand, ClaimUnstakedSOLCommandItem,
};
use fund_commands::cmd7_unstake_lst::{
    next_withdraw_action, record_withdraw_stake, start_withdraw, withdraw_stake_items, UnstakeLSTCommand, WithdrawAction,
    WithdrawStakeItem,
};
use fund_commands::errors::ErrorCode;
use fund_commands::pricing::TokenPricingSource;
use fund_commands::pubkey::Pubkey;

fn key(n: u64) -> Pubkey {
    Pubkey::new(n, 4, 4, n)
}

#[test]
fn unstake_obligation() {
    assert_eq!(UnstakeLSTCommand::obligation_to_cut(0, 5), None);
    assert_eq!(UnstakeLSTCommand::obligation_to_cut(10, 4), Some(6));
    assert_eq!(UnstakeLSTCommand::obligation_to_cut(10, 40), Some(0));
    assert_eq!(UnstakeLSTCommand::participates_in_unstaking(&Some(TokenPricingSource::PeggedToken { address: key(1) })), Ok(false));
    assert_eq!(
        UnstakeLSTCommand::participates_in_unstaking(&None),
        Err(ErrorCode::FundOperationCommandExecutionFailedException)
    );
}

#[test]
fn stake_withdrawals_pair_free_slots() {
    let initialized = vec![true, false, true, false, false];
    let fund_accounts: Vec<Pubkey> = (0..5).map(|i| key(10 + i)).collect();
    let validators = vec![key(20), key(21)];
    assert_eq!(
        withdraw_stake_items(&initialized, &fund_accounts, &validators),
        vec![
            WithdrawStakeItem { validator_stake_account: key(20), fund_stake_account: key(11), fund_stake_account_index: 1 },
            WithdrawStakeItem { validator_stake_account: key(21), fund_stake_account: key(13), fund_stake_account_index: 3 },
        ]
    );
    assert!(withdraw_stake_items(&vec![true; 5], &fund_accounts, &validators).is_empty());
}

#[test]
fn withdraw_progress_steps() {
    let p = start_withdraw(100, Some((30, 29, 1)));
    assert_eq!(p.total_token_amount_to_burn, 70);
    assert_eq!(p.total_unstaked_sol_amount, 29);
    assert_eq!(next_withdraw_action(&p, 3), WithdrawAction::WithdrawStake(0));
    let p = record_withdraw_stake(p, 40, 39, 1);
    let p = record_withdraw_stake(p, 0, 0, 0);
    assert_eq!(p.withdraw_stake_count, 1);
    assert_eq!(p.total_token_amount_to_burn, 30);
    assert_eq!(p.total_unstaking_sol_amount, 39);
    assert_eq!(p.allocated_token_amount - p.total_token_amount_to_burn, 70);
    let p = record_withdraw_stake(p, 10, 9, 0);
    assert_eq!(next_withdraw_action(&p, 5), WithdrawAction::Pause(3));
    assert_eq!(next_withdraw_action(&p, 3), WithdrawAction::Finish);
    let none = start_withdraw(50, None);
    assert_eq!(none.total_token_amount_to_burn, 50);
}

#[test]
fn claim_settlement() {
    assert_eq!(total_claimed(&vec![3, 4, 5]), 12);
    assert_eq!(settle_claim(0, 10, 0, 0), Ok(None));
    assert_eq!(settle_claim(5, 10, 100, 101), Err(ErrorCode::RequireGteViolated));
    assert_eq!(marinade_claim_plan(&vec![false, true, false, true]), (Some(1), true));
    assert_eq!(marinade_claim_plan(&vec![false, true, false]), (Some(1), false));
    assert_eq!(marinade_claim_plan(&vec![false, false]), (None, false));
    assert_eq!(ClaimUnstakedSOLCommand::unstaking_mints(&vec![(key(1), 0), (key(2), 5)]), vec![key(2)]);
    assert_eq!(ClaimUnstakedSOLCommand::next_pool_token_mints(&vec![key(1), key(2)], true), vec![key(1), key(2)]);
    assert_eq!(ClaimUnstakedSOLCommand::next_pool_token_mints(&vec![key(1), key(2)], false), vec![key(2)]);
}

#[test]
fn item_claims() {
    assert_eq!(
        ItemClaimCommand::execute_init(&vec![key(1), key(2)]),
        vec![ClaimUnstakedSOLCommandItem { token_mint: key(1) }, ClaimUnstakedSOLCommandItem { token_mint: key(2) }]
    );
    assert_eq!(total_claims(&vec![true, false, true], &vec![3, 100, 4]), Some(7));
    assert_eq!(total_claims(&vec![false, false], &vec![3, 4]), None);
    let r = apply_claim(10, 20, 7, key(1));
    assert_eq!(r.operation_reserved_sol_amount, 17);
    assert_eq!(r.operation_receivable_sol_amount, 13);
    assert!(matches!(ItemClaimCommand::prepare(vec![], None, &vec![]), Ok(None)));
}

#[test]
fn unstake_execute_route_and_resumed_accounts() {
    let marinade = Some(TokenPricingSource::MarinadeStakePool { address: key(1) });
    let spl = Some(TokenPricingSource::SPLStakePool { address: key(2) });
    assert_eq!(execute_route(&marinade, 0), Ok(UnstakeRoute::OrderUnstake));
    assert_eq!(execute_route(&marinade, 1), Err(ErrorCode::RequireEqViolated));
    assert_eq!(execute_route(&spl, 3), Ok(UnstakeRoute::WithdrawSolOrStake));
    assert_eq!(
        execute_route(&Some(TokenPricingSource::PeggedToken { address: key(3) }), 0),
        Err(ErrorCode::FundOperationCommandExecutionFailedException)
    );

    // thirteen fixed accounts, three fund stake accounts, three validator stake accounts
    let given: Vec<OperationCommandAccountMeta> =
        (0..19u64).map(|i| OperationCommandAccountMeta::new(key(100 + i), i % 2 == 0)).collect();
    let resumed = resumed_withdraw_accounts(&given, 3, 2);
    let mut expected = given[..13].to_vec();
    expected.push(given[15]);
    expected.push(given[18]);
    assert_eq!(resumed, expected);
    assert_eq!(resumed_withdraw_accounts(&given, 3, 3), given[..13].to_vec());
}

#[test]
fn jito_ticket_account_lists() {
    let mint = key(50);
    let listed = ticket_accounts(&vec![key(1), key(2)], mint).unwrap();
    assert_eq!(listed.len(), 4);
    assert_eq!(listed[2].pubkey, key(2));
    assert_eq!(listed[3].pubkey, get_associated_token_address_with_program_id(&key(2), &mint, &token_program_id()).unwrap());
    let requested = request_ticket_accounts(&vec![(key(1), key(9))], mint).unwrap();
    assert_eq!(requested.len(), 3);
    assert_eq!(requested[1].pubkey, get_associated_token_address_with_program_id(&key(1), &mint, &token_program_id()).unwrap());
    assert_eq!(requested[2], fund_commands::operation_command::OperationCommandAccountMeta::new(key(9), false));
}
