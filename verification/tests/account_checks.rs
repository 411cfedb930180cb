use fund_commands::cmd10_harvest_performance_fee::{check_execute_accounts as check_performance_fee_accounts, execute_new};
use fund_commands::cmd10_harvest_restaking_yield::{check_prepare_swap_accounts, check_swap_accounts, check_transfer_account};
use fund_commands::cmd10_stake_sol::StakeSOLCommand as EarlyStakeSOLCommand;
use fund_commands::cmd11_stake_sol::StakeSOLCommand;
use fund_commands::cmd12_normalize_st::NormalizeSTCommand;
use fund_commands::cmd3_claim_unrestaked_vst::check_vault_accounts as check_claim_vault_accounts;
use fund_commands::cmd5_claim_unstaked_sol::{looked_at_tickets, ClaimUnstakedSOLCommand, ClaimUnstakedSOLCommandState};
use fund_commands::cmd7_claim_unstaked_sol::{ClaimUnstakedSOLCommand as ItemClaimCommand, ClaimUnstakedSOLCommandItem};
use fund_commands::cmd7_unstake_lst::{UnstakeLSTCommand, UnstakeLSTCommandItem, UnstakeLSTCommandState, WithdrawStakeItem};
use fund_commands::cmd9_process_withdrawal_batch::check_execute_accounts as check_batch_accounts;
use fund_commands::cmd9_unrestake_vrt::UnrestakeVRTCommand;
use fund_commands::errors::ErrorCode;
use fund_commands::iteration::keys_match_from;
use fund_commands::pricing::{TokenPricingSource, VaultKind};
use fund_commands::pubkey::Pubkey;

fn key(n: u64) -> Pubkey {
    Pubkey::new(n, 7, 7, n)
}

/// `n` accounts numbered from 100, with the given ones put in place.
fn accounts(n: usize, placed: &[(usize, Pubkey)]) -> Vec<Pubkey> {
    let mut v: Vec<Pubkey> = (0..n as u64).map(|i| key(100 + i)).collect();
    for (i, k) in placed {
        v[*i] = *k;
    }
    v
}

#[test]
fn keys_match_from_compares_a_window() {
    let keys = vec![key(1), key(2), key(3), key(4)];
    assert!(keys_match_from(&keys, 1, &vec![key(2), key(3), key(9)], 2));
    assert!(!keys_match_from(&keys, 1, &vec![key(2), key(9)], 2));
    assert!(keys_match_from(&keys, 4, &vec![], 0));
}

#[test]
fn early_stake_pool_accounts() {
    let spl = Some(TokenPricingSource::SPLStakePool { address: key(1) });
    let marinade = Some(TokenPricingSource::MarinadeStakePool { address: key(2) });
    assert_eq!(EarlyStakeSOLCommand::check_pool_accounts(&spl, &vec![], false), Err(ErrorCode::AccountNotEnoughKeys));
    assert_eq!(EarlyStakeSOLCommand::check_pool_accounts(&spl, &vec![key(1)], false), Ok(()));
    assert_eq!(EarlyStakeSOLCommand::check_pool_accounts(&spl, &vec![key(3)], false), Err(ErrorCode::RequireKeysEqViolated));
    assert_eq!(EarlyStakeSOLCommand::check_pool_accounts(&spl, &accounts(9, &[(3, key(1))]), true), Ok(()));
    assert_eq!(EarlyStakeSOLCommand::check_pool_accounts(&spl, &accounts(8, &[(3, key(1))]), true), Err(ErrorCode::AccountNotEnoughKeys));
    assert_eq!(
        EarlyStakeSOLCommand::check_pool_accounts(&marinade, &accounts(11, &[(3, key(2))]), true),
        Err(ErrorCode::AccountNotEnoughKeys)
    );
    assert_eq!(EarlyStakeSOLCommand::check_pool_accounts(&marinade, &accounts(12, &[(3, key(2))]), true), Ok(()));
    assert_eq!(
        EarlyStakeSOLCommand::check_pool_accounts(&marinade, &accounts(12, &[(0, key(2))]), true),
        Err(ErrorCode::RequireKeysEqViolated)
    );
    assert_eq!(
        EarlyStakeSOLCommand::check_pool_accounts(&None, &vec![key(1)], false),
        Err(ErrorCode::FundOperationCommandExecutionFailedException)
    );
}

#[test]
fn stake_deposit_accounts() {
    let spl = Some(TokenPricingSource::SanctumSingleValidatorSPLStakePool { address: key(1) });
    let mint = key(5);
    assert_eq!(StakeSOLCommand::check_deposit_accounts(&spl, mint, &accounts(11, &[(3, key(1)), (4, mint)])), Ok(()));
    assert_eq!(
        StakeSOLCommand::check_deposit_accounts(&spl, mint, &accounts(10, &[(3, key(1)), (4, mint)])),
        Err(ErrorCode::AccountNotEnoughKeys)
    );
    assert_eq!(
        StakeSOLCommand::check_deposit_accounts(&spl, mint, &accounts(11, &[(3, key(1))])),
        Err(ErrorCode::RequireKeysEqViolated)
    );
    let pegged = Some(TokenPricingSource::PeggedToken { address: key(1) });
    assert_eq!(
        StakeSOLCommand::check_deposit_accounts(&pegged, mint, &accounts(11, &[(3, key(1)), (4, mint)])),
        Err(ErrorCode::FundOperationCommandExecutionFailedException)
    );
}

#[test]
fn normalize_execute_accounts() {
    assert_eq!(NormalizeSTCommand::check_execute_accounts(&accounts(8, &[])), Err(ErrorCode::AccountNotEnoughKeys));
    assert_eq!(NormalizeSTCommand::check_execute_accounts(&accounts(9, &[])), Ok(()));
}

#[test]
fn claim_unrestaked_vault_accounts() {
    let jito = Some(TokenPricingSource::JitoRestakingVault { address: key(1) });
    let solv = Some(TokenPricingSource::SolvBTCVault { address: key(2) });
    let virtual_vault = Some(TokenPricingSource::VirtualVault { address: key(3) });
    assert_eq!(check_claim_vault_accounts(&jito, &accounts(3, &[(2, key(1))]), false), Ok(VaultKind::Jito));
    assert_eq!(check_claim_vault_accounts(&jito, &accounts(2, &[]), false), Err(ErrorCode::AccountNotEnoughKeys));
    assert_eq!(check_claim_vault_accounts(&jito, &accounts(3, &[]), false), Err(ErrorCode::RequireKeysEqViolated));
    // eleven accounts, but not the ten withdrawal ticket candidates after them
    assert_eq!(check_claim_vault_accounts(&jito, &accounts(11, &[(2, key(1))]), true), Err(ErrorCode::AccountNotEnoughKeys));
    assert_eq!(check_claim_vault_accounts(&jito, &accounts(11, &[]), true), Err(ErrorCode::RequireKeysEqViolated));
    assert_eq!(check_claim_vault_accounts(&jito, &accounts(21, &[(2, key(1))]), true), Ok(VaultKind::Jito));
    assert_eq!(check_claim_vault_accounts(&solv, &accounts(2, &[(1, key(2))]), false), Ok(VaultKind::SolvBTC));
    assert_eq!(check_claim_vault_accounts(&solv, &accounts(11, &[(1, key(2))]), true), Err(ErrorCode::AccountNotEnoughKeys));
    assert_eq!(check_claim_vault_accounts(&solv, &accounts(12, &[(1, key(2))]), true), Ok(VaultKind::SolvBTC));
    assert_eq!(check_claim_vault_accounts(&virtual_vault, &vec![], true), Ok(VaultKind::Virtual));
    assert_eq!(
        check_claim_vault_accounts(&None, &vec![], true),
        Err(ErrorCode::FundOperationCommandExecutionFailedException)
    );
}

#[test]
fn claim_unstaked_sol_prepare_needs_the_pool_account() {
    let spl = Some(TokenPricingSource::SPLStakePool { address: key(1) });
    let marinade = Some(TokenPricingSource::MarinadeStakePool { address: key(2) });
    assert!(matches!(ClaimUnstakedSOLCommand::prepare(vec![], spl, &vec![]), Ok(None)));
    assert_eq!(
        ClaimUnstakedSOLCommand::prepare(vec![key(9)], spl, &vec![key(3)]).err(),
        Some(ErrorCode::FundOperationCommandExecutionFailedException)
    );
    match ClaimUnstakedSOLCommand::prepare(vec![key(9)], spl, &vec![key(3), key(1)]) {
        Ok(Some(c)) => assert!(matches!(c.state, ClaimUnstakedSOLCommandState::GetClaimableStakeAccounts { .. })),
        _ => panic!("an SPL pool looks for claimable stake accounts"),
    }
    match ClaimUnstakedSOLCommand::prepare(vec![key(9)], marinade, &vec![key(2)]) {
        Ok(Some(c)) => assert!(matches!(
            c.state,
            ClaimUnstakedSOLCommandState::Execute { ref claimable_stake_account_indices, .. }
                if claimable_stake_account_indices.is_empty()
        )),
        _ => panic!("a Marinade pool claims at once"),
    }
}

#[test]
fn claim_unstaked_sol_account_checks() {
    let stakes = vec![key(11), key(12), key(13), key(14), key(15)];
    let given = accounts(7, &[(2, key(11)), (3, key(12)), (4, key(13)), (5, key(14)), (6, key(15))]);
    assert_eq!(ClaimUnstakedSOLCommand::check_claimable_stake_accounts(&given, &stakes), Ok(()));
    assert_eq!(
        ClaimUnstakedSOLCommand::check_claimable_stake_accounts(&given[..6].to_vec(), &stakes),
        Err(ErrorCode::AccountNotEnoughKeys)
    );
    let swapped = accounts(7, &[(2, key(12)), (3, key(11)), (4, key(13)), (5, key(14)), (6, key(15))]);
    assert_eq!(ClaimUnstakedSOLCommand::check_claimable_stake_accounts(&swapped, &stakes), Err(ErrorCode::RequireKeysEqViolated));

    let claimable = vec![key(12), key(14)];
    assert_eq!(ClaimUnstakedSOLCommand::check_spl_claim_accounts(&accounts(7, &[(5, key(12)), (6, key(14))]), &claimable), Ok(()));
    assert_eq!(
        ClaimUnstakedSOLCommand::check_spl_claim_accounts(&accounts(6, &[(5, key(12))]), &claimable),
        Err(ErrorCode::AccountNotEnoughKeys)
    );
    assert_eq!(
        ClaimUnstakedSOLCommand::check_spl_claim_accounts(&accounts(7, &[(5, key(14)), (6, key(12))]), &claimable),
        Err(ErrorCode::RequireKeysEqViolated)
    );
}

#[test]
fn marinade_claim_looks_at_tickets_until_the_second_initialized() {
    assert_eq!(looked_at_tickets(&vec![false, true, false, true, false]), 4);
    assert_eq!(looked_at_tickets(&vec![true, false, false, false, false]), 5);
    assert_eq!(looked_at_tickets(&vec![true, true, true, false, false]), 2);
    assert_eq!(looked_at_tickets(&vec![false; 5]), 5);

    let tickets = vec![key(21), key(22), key(23), key(24), key(25)];
    let pool = key(2);
    let mint = key(3);
    // the fourth and fifth ticket accounts are wrong, but the claim stops at the second ticket
    let given = accounts(13, &[(3, pool), (4, mint), (8, key(21)), (9, key(22))]);
    let initialized = vec![true, true, false, false, false];
    assert_eq!(ClaimUnstakedSOLCommand::check_marinade_claim_accounts(&given, pool, mint, &tickets, &initialized), Ok(()));
    let all_looked_at = vec![true, false, false, false, false];
    assert_eq!(
        ClaimUnstakedSOLCommand::check_marinade_claim_accounts(&given, pool, mint, &tickets, &all_looked_at),
        Err(ErrorCode::RequireKeysEqViolated)
    );
    assert_eq!(
        ClaimUnstakedSOLCommand::check_marinade_claim_accounts(&given[..12].to_vec(), pool, mint, &tickets, &initialized),
        Err(ErrorCode::AccountNotEnoughKeys)
    );
    assert_eq!(
        ClaimUnstakedSOLCommand::check_marinade_claim_accounts(&given, key(9), mint, &tickets, &initialized),
        Err(ErrorCode::RequireKeysEqViolated)
    );
}

#[test]
fn item_claim_account_checks() {
    let spl = Some(TokenPricingSource::SPLStakePool { address: key(1) });
    let item = ClaimUnstakedSOLCommandItem { token_mint: key(5) };
    assert_eq!(
        ItemClaimCommand::prepare(vec![item], spl, &vec![key(4)]).err(),
        Some(ErrorCode::FundOperationCommandExecutionFailedException)
    );
    assert!(matches!(ItemClaimCommand::prepare(vec![item], spl, &vec![key(1)]), Ok(Some(_))));

    let stakes = vec![key(11), key(12), key(13), key(14), key(15)];
    let given = accounts(9, &[(4, key(11)), (5, key(12)), (6, key(13)), (7, key(14)), (8, key(15))]);
    assert_eq!(ItemClaimCommand::check_spl_claim_accounts(&given, &stakes), Ok(()));
    assert_eq!(ItemClaimCommand::check_spl_claim_accounts(&given[..8].to_vec(), &stakes), Err(ErrorCode::AccountNotEnoughKeys));
    assert_eq!(ItemClaimCommand::check_spl_claim_accounts(&accounts(9, &[]), &stakes), Err(ErrorCode::RequireKeysEqViolated));

    let tickets = vec![key(21), key(22), key(23), key(24), key(25)];
    let given = accounts(13, &[(3, key(2)), (4, key(5)), (8, key(21)), (9, key(22)), (10, key(23)), (11, key(24)), (12, key(25))]);
    assert_eq!(ItemClaimCommand::check_marinade_claim_accounts(&given, key(2), key(5), &tickets), Ok(()));
    assert_eq!(
        ItemClaimCommand::check_marinade_claim_accounts(&given, key(2), key(6), &tickets),
        Err(ErrorCode::RequireKeysEqViolated)
    );
    let mut wrong_ticket = given.clone();
    wrong_ticket[12] = key(99);
    assert_eq!(
        ItemClaimCommand::check_marinade_claim_accounts(&wrong_ticket, key(2), key(5), &tickets),
        Err(ErrorCode::RequireKeysEqViolated)
    );
}

#[test]
fn unstake_account_checks() {
    let item = UnstakeLSTCommandItem { token_mint: key(5), allocated_token_amount: 10 };
    let sanctum = Some(TokenPricingSource::SanctumMultiValidatorSPLStakePool { address: key(1) });
    match UnstakeLSTCommand::prepare(vec![item], sanctum, &vec![key(1)]) {
        Ok(Some(c)) => assert!(matches!(c.state, UnstakeLSTCommandState::GetWithdrawStakeItems { .. })),
        _ => panic!("a Sanctum pool looks for stake to withdraw"),
    }
    assert_eq!(
        UnstakeLSTCommand::prepare(vec![item], sanctum, &vec![]).err(),
        Some(ErrorCode::FundOperationCommandExecutionFailedException)
    );

    let stakes = vec![key(11), key(12), key(13), key(14), key(15)];
    let given = accounts(10, &[(1, key(1)), (2, key(5)), (5, key(11)), (6, key(12)), (7, key(13)), (8, key(14)), (9, key(15))]);
    assert_eq!(UnstakeLSTCommand::check_get_withdraw_stake_accounts(&given, key(1), key(5), &stakes), Ok(()));
    assert_eq!(
        UnstakeLSTCommand::check_get_withdraw_stake_accounts(&given[..9].to_vec(), key(1), key(5), &stakes),
        Err(ErrorCode::AccountNotEnoughKeys)
    );
    assert_eq!(
        UnstakeLSTCommand::check_get_withdraw_stake_accounts(&given, key(2), key(5), &stakes),
        Err(ErrorCode::RequireKeysEqViolated)
    );

    let withdrawals = vec![
        WithdrawStakeItem { validator_stake_account: key(31), fund_stake_account: key(11), fund_stake_account_index: 0 },
        WithdrawStakeItem { validator_stake_account: key(32), fund_stake_account: key(12), fund_stake_account_index: 1 },
    ];
    let given = accounts(17, &[(3, key(1)), (4, key(5)), (13, key(11)), (14, key(12)), (15, key(31)), (16, key(32))]);
    assert_eq!(UnstakeLSTCommand::check_withdraw_accounts(&given, key(1), key(5), &withdrawals), Ok(()));
    assert_eq!(
        UnstakeLSTCommand::check_withdraw_accounts(&given[..16].to_vec(), key(1), key(5), &withdrawals),
        Err(ErrorCode::AccountNotEnoughKeys)
    );
    let mut swapped = given.clone();
    swapped.swap(15, 16);
    assert_eq!(
        UnstakeLSTCommand::check_withdraw_accounts(&swapped, key(1), key(5), &withdrawals),
        Err(ErrorCode::RequireKeysEqViolated)
    );
    assert_eq!(UnstakeLSTCommand::check_withdraw_accounts(&accounts(13, &[(3, key(1)), (4, key(5))]), key(1), key(5), &vec![]), Ok(()));

    let tickets = vec![key(21), key(22), key(23), key(24), key(25)];
    let given = accounts(13, &[(3, key(1)), (4, key(5)), (8, key(21)), (9, key(22)), (10, key(23)), (11, key(24)), (12, key(25))]);
    assert_eq!(UnstakeLSTCommand::check_order_unstake_accounts(&given, key(1), key(5), &tickets), Ok(()));
    assert_eq!(
        UnstakeLSTCommand::check_order_unstake_accounts(&given[..12].to_vec(), key(1), key(5), &tickets),
        Err(ErrorCode::AccountNotEnoughKeys)
    );
    assert_eq!(
        UnstakeLSTCommand::check_order_unstake_accounts(&accounts(13, &[(3, key(1)), (4, key(5))]), key(1), key(5), &tickets),
        Err(ErrorCode::RequireKeysEqViolated)
    );
}

#[test]
fn unrestake_vault_checks() {
    let jito = Some(TokenPricingSource::JitoRestakingVault { address: key(1) });
    assert_eq!(UnrestakeVRTCommand::check_vault_accounts(&jito, key(1), &accounts(3, &[]), false), Ok(VaultKind::Jito));
    assert_eq!(
        UnrestakeVRTCommand::check_vault_accounts(&jito, key(2), &accounts(3, &[]), false),
        Err(ErrorCode::RequireKeysEqViolated)
    );
    assert_eq!(
        UnrestakeVRTCommand::check_vault_accounts(&jito, key(1), &accounts(23, &[]), true),
        Err(ErrorCode::AccountNotEnoughKeys)
    );
    assert_eq!(UnrestakeVRTCommand::check_vault_accounts(&jito, key(1), &accounts(24, &[]), true), Ok(VaultKind::Jito));
    let solv = Some(TokenPricingSource::SolvBTCVault { address: key(2) });
    assert_eq!(UnrestakeVRTCommand::check_vault_accounts(&solv, key(9), &vec![], true), Ok(VaultKind::SolvBTC));
    let virtual_vault = Some(TokenPricingSource::VirtualVault { address: key(3) });
    assert_eq!(
        UnrestakeVRTCommand::check_vault_accounts(&virtual_vault, key(3), &vec![], false),
        Err(ErrorCode::FundOperationCommandExecutionFailedException)
    );
}

#[test]
fn performance_fee_execute_accounts() {
    let (_, metas) = execute_new(true, key(1), key(2), key(3), key(4)).unwrap().unwrap();
    let given: Vec<Pubkey> = metas.iter().map(|m| m.pubkey).collect();
    assert_eq!(check_performance_fee_accounts(&given, key(1), key(2), key(3), key(4)), Ok(()));
    assert_eq!(
        check_performance_fee_accounts(&given[..6].to_vec(), key(1), key(2), key(3), key(4)),
        Err(ErrorCode::AccountNotEnoughKeys)
    );
    // the receipt token account of the program revenue depends on the receipt token mint
    assert_eq!(check_performance_fee_accounts(&given, key(1), key(9), key(3), key(4)), Err(ErrorCode::RequireKeysEqViolated));
    assert_eq!(check_performance_fee_accounts(&given, key(1), key(2), key(3), key(8)), Err(ErrorCode::RequireKeysEqViolated));
    // the last two accounts are not checked
    let mut loose = given.clone();
    loose[5] = key(77);
    loose[6] = key(78);
    assert_eq!(check_performance_fee_accounts(&loose, key(1), key(2), key(3), key(4)), Ok(()));
}

#[test]
fn process_withdrawal_batch_execute_accounts() {
    let supported = vec![
        Some(TokenPricingSource::SPLStakePool { address: key(1) }),
        Some(TokenPricingSource::MarinadeStakePool { address: key(2) }),
    ];
    let vaults = vec![Some(TokenPricingSource::JitoRestakingVault { address: key(3) })];
    // eleven fixed accounts, one batch account, two pools, one vault
    let given = accounts(15, &[(12, key(1)), (13, key(2)), (14, key(3))]);
    assert_eq!(check_batch_accounts(&given, 1, &supported, &vaults), Ok(()));
    assert_eq!(check_batch_accounts(&given[..14].to_vec(), 1, &supported, &vaults), Err(ErrorCode::AccountNotEnoughKeys));
    assert_eq!(check_batch_accounts(&given[..10].to_vec(), 0, &vec![], &vec![]), Err(ErrorCode::AccountNotEnoughKeys));
    assert_eq!(check_batch_accounts(&given, 0, &supported, &vaults), Err(ErrorCode::RequireKeysEqViolated));
    let pegged = vec![Some(TokenPricingSource::PeggedToken { address: key(1) })];
    assert_eq!(
        check_batch_accounts(&given, 1, &pegged, &vaults),
        Err(ErrorCode::FundOperationCommandExecutionFailedException)
    );
}

#[test]
fn restaking_yield_swap_and_transfer_accounts() {
    let given = accounts(5, &[(0, key(1)), (1, key(2)), (3, key(4))]);
    assert_eq!(check_prepare_swap_accounts(&given, key(1), key(2), key(4)), Ok(()));
    assert_eq!(check_prepare_swap_accounts(&given[..4].to_vec(), key(1), key(2), key(4)), Err(ErrorCode::AccountNotEnoughKeys));
    assert_eq!(check_prepare_swap_accounts(&given, key(1), key(2), key(5)), Err(ErrorCode::RequireKeysEqViolated));
    assert_eq!(check_transfer_account(&vec![], key(1)), Err(ErrorCode::AccountNotEnoughKeys));
    assert_eq!(check_transfer_account(&vec![key(1), key(2)], key(1)), Ok(()));
    assert_eq!(check_transfer_account(&vec![key(2)], key(1)), Err(ErrorCode::RequireKeysEqViolated));
    let swap = accounts(14, &[(0, key(8)), (2, key(9))]);
    assert_eq!(check_swap_accounts(&swap, key(9), key(8)), Ok(()));
    assert_eq!(check_swap_accounts(&swap[..13].to_vec(), key(9), key(8)), Err(ErrorCode::AccountNotEnoughKeys));
    assert_eq!(check_swap_accounts(&swap, key(8), key(8)), Err(ErrorCode::RequireKeysEqViolated));
}
