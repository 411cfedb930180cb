use fund_commands::cmd10_harvest_performance_fee::high_water_mark_after_harvest;
use fund_commands::cmd10_harvest_performance_fee::{
    execute_new as performance_fee_execute_new, harvest_result, performance_fee_to_harvest, HarvestPerformanceFeeCommand,
};
use fund_commands::cmd11_stake_sol::{StakeSOLCommand, StakeSOLCommandItem};
use fund_commands::cmd12_normalize_st::{NormalizeCandidate, NormalizeSTCommand, NormalizeSTCommandItem};
use fund_commands::cmd13_restake_vst::{restakable_tokens, restakable_vaults};
use fund_commands::cmd13_restake_vst::{
    apply_deposit, RestakeAllocation, RestakeBook, RestakeDeposit, RestakeVSTCommand, RestakeVSTCommandItem,
};
use fund_commands::cmd3_claim_unrestaked_vst::{
    apply_jito_claim, sum_withdrawals, ClaimBook, ClaimFeePrices, ClaimUnrestakedVSTCommand, ClaimUnrestakedVSTCommandState,
    ClaimVaultInfo, TicketWithdrawal, WithdrawalTotals,
};
use fund_commands::cmd4_denormalize_nt::{
    apply_denormalize, DenormalizeBook, DenormalizeCandidate, DenormalizeNTCommand, DenormalizeNTCommandItem,
};
use fund_commands::cmd9_process_withdrawal_batch::{
    capacity_increase, grown_capacity, max_cycle_fee, split_execute_accounts, CapacityIncrease, ProcessWithdrawalBatchCommand,
    ProcessWithdrawalBatchCommandState,
};
use fund_commands::cmd9_unrestake_vrt::{initial_items, unrestakable_vaults};
use fund_commands::cmd9_unrestake_vrt::{
    apply_request, extra_obligation, first_free_ticket, UnrestakeVRTCommand, UnrestakeVSTCommandItem, VaultReceiptBook,
    WithdrawalRequest,
};
use fund_commands::errors::ErrorCode;
use fund_commands::pricing::{TokenPricingSource, VaultKind};
use fund_commands::pubkey::Pubkey;

const SOL: u64 = 1_000_000_000;

fn key(n: u64) -> Pubkey {
    Pubkey::new(n, 5, 5, n)
}

#[test]
fn performance_fee_values() {
    // 1000 receipt tokens (9 decimals) gained 0.1 SOL each: a 100 SOL gain; 10% of it.
    assert_eq!(performance_fee_to_harvest(1000 * SOL, 1_100_000_000, SOL, 1000), Ok(Some(10 * SOL)));
    assert_eq!(performance_fee_to_harvest(SOL, SOL + 10, SOL, 1000), Ok(None));
    let (harvestable, mark) = HarvestPerformanceFeeCommand::is_performance_fee_harvestable(true, false, 0, 12, 10);
    assert!(!harvestable);
    assert_eq!(mark, 12);
    assert_eq!(HarvestPerformanceFeeCommand::is_performance_fee_harvestable(false, false, 100, 12, 10), (false, 10));
    assert_eq!(HarvestPerformanceFeeCommand::is_performance_fee_harvestable(false, true, 100, 12, 10), (true, 10));
    assert!(matches!(performance_fee_execute_new(false, key(1), key(2), key(3), key(4)), Ok(None)));
    let (_, accounts) = performance_fee_execute_new(true, key(1), key(2), key(3), key(4)).unwrap().unwrap();
    assert_eq!(accounts.len(), 7);
    assert!(harvest_result(key(2), 5, 10, 11).is_err());
    assert_eq!(harvest_result(key(2), 5, 11, 10).unwrap().receipt_token_minted_amount, 5);
}

#[test]
fn stake_items_and_prepare() {
    let shares = vec![(key(1), 2 * SOL), (key(2), SOL - 1), (key(3), SOL)];
    let items = StakeSOLCommand::plan_items(10 * SOL as i128, &shares).unwrap();
    assert_eq!(
        items,
        vec![
            StakeSOLCommandItem { token_mint: key(1), allocated_sol_amount: 2 * SOL },
            StakeSOLCommandItem { token_mint: key(3), allocated_sol_amount: SOL },
        ]
    );
    assert!(StakeSOLCommand::plan_items(0, &shares).unwrap().is_empty());
    assert!(matches!(StakeSOLCommand::plan_items(u64::MAX as i128 + 1, &shares), Err(ErrorCode::CalculationArithmeticException)));
    assert!(matches!(StakeSOLCommand::prepare(vec![], None), Ok(None)));
    assert!(matches!(
        StakeSOLCommand::prepare(items.clone(), Some(TokenPricingSource::OrcaDEXLiquidityPool { address: key(9) })),
        Err(ErrorCode::FundOperationCommandExecutionFailedException)
    ));
    assert!(matches!(StakeSOLCommand::prepare(items, Some(TokenPricingSource::SPLStakePool { address: key(9) })), Ok(Some(_))));
}

#[test]
fn normalize_items() {
    let c = NormalizeCandidate {
        supported_token_mint: key(1),
        pool_has_supported_token: true,
        restakable_amount_as_sol: 5 * SOL,
        vault_shares: vec![(true, SOL / 2), (false, 3 * SOL), (true, SOL / 2)],
        operation_reserved_amount: 4,
        normalized_share_as_token: 7,
    };
    assert_eq!(NormalizeSTCommand::normalized_share(&c.vault_shares), SOL);
    assert_eq!(
        NormalizeSTCommand::normalize_item(&c),
        Some(NormalizeSTCommandItem { supported_token_mint: key(1), allocated_token_amount: 4 })
    );
    let small = NormalizeCandidate { vault_shares: vec![(true, SOL - 1)], ..c.clone() };
    assert_eq!(NormalizeSTCommand::normalize_item(&small), None);
    let outside = NormalizeCandidate { pool_has_supported_token: false, ..c.clone() };
    assert_eq!(NormalizeSTCommand::normalize_item(&outside), None);
    assert!(NormalizeSTCommand::has_normalized_token_vault(Some(key(7)), &vec![key(1), key(7)]));
    assert!(!NormalizeSTCommand::has_normalized_token_vault(None, &vec![key(7)]));
}

#[test]
fn restake_items_merge_by_vault() {
    let a = |vault: u64, mint: u64, sol: u64, as_token: u64, amount: u64| RestakeAllocation {
        vault: key(vault),
        supported_token_mint: key(mint),
        token_amount: amount,
        allocated_sol_amount: sol,
        allocated_sol_amount_as_token: as_token,
    };
    let allocs = vec![a(100, 1, 2 * SOL, 10, 100), a(101, 2, SOL - 1, 10, 100), a(100, 3, SOL, 99, 100), a(102, 4, SOL, 5, 5)];
    let items = RestakeVSTCommand::plan_items(&allocs);
    assert_eq!(
        items,
        vec![
            RestakeVSTCommandItem { vault: key(100), supported_token_mint: key(1), allocated_token_amount: 11 + 100 },
            RestakeVSTCommandItem { vault: key(102), supported_token_mint: key(4), allocated_token_amount: 5 },
        ]
    );
}

#[test]
fn restake_deposit_bookkeeping() {
    let book = RestakeBook {
        token_operation_reserved_amount: 100,
        token_operation_receivable_amount: 0,
        sol_operation_receivable_amount: 0,
        vault_receipt_token_operation_reserved_amount: 10,
    };
    let d = RestakeDeposit {
        deposited_supported_token_amount: 40,
        deducted_supported_token_fee_amount: 2,
        deducted_fee_as_sol: 3,
        minted_vault_receipt_token_amount: 38,
        to_vault_receipt_token_account_amount: 48,
    };
    let (nb, result) = apply_deposit(book, d, false, key(1)).unwrap();
    assert_eq!(nb.token_operation_reserved_amount, 60);
    assert_eq!(nb.token_operation_receivable_amount, 2);
    assert_eq!(nb.vault_receipt_token_operation_reserved_amount, 48);
    assert_eq!(result.operation_reserved_token_amount, 48);
    let (nb, _) = apply_deposit(book, d, true, key(1)).unwrap();
    assert_eq!(nb.sol_operation_receivable_amount, 3);
    assert_eq!(nb.token_operation_receivable_amount, 0);
    let short = RestakeDeposit { to_vault_receipt_token_account_amount: 47, ..d };
    assert!(matches!(apply_deposit(book, short, false, key(1)), Err(ErrorCode::RequireGteViolated)));
    assert!(matches!(RestakeVSTCommand::next_command(vec![], None), Ok(None)));
    let item = RestakeVSTCommandItem { vault: key(100), supported_token_mint: key(1), allocated_token_amount: 5 };
    assert!(matches!(
        RestakeVSTCommand::next_command(vec![item], Some(TokenPricingSource::SolvBTCVault { address: key(100) })),
        Ok(Some(_))
    ));
    assert!(matches!(
        RestakeVSTCommand::next_command(vec![item], Some(TokenPricingSource::SPLStakePool { address: key(100) })),
        Err(ErrorCode::FundOperationCommandExecutionFailedException)
    ));
    let jito = Some(TokenPricingSource::JitoRestakingVault { address: key(100) });
    let solv = Some(TokenPricingSource::SolvBTCVault { address: key(100) });
    let three = vec![key(1), key(100), key(100)];
    assert_eq!(RestakeVSTCommand::check_vault_accounts(jito, &three, false), Ok(VaultKind::Jito));
    assert_eq!(RestakeVSTCommand::check_vault_accounts(jito, &three, true), Err(ErrorCode::AccountNotEnoughKeys));
    assert_eq!(RestakeVSTCommand::check_vault_accounts(solv, &three[..2].to_vec(), false), Ok(VaultKind::SolvBTC));
    assert_eq!(RestakeVSTCommand::check_vault_accounts(jito, &vec![key(1), key(2), key(3)], false), Err(ErrorCode::RequireKeysEqViolated));
    assert_eq!(RestakeVSTCommand::check_vault_accounts(Some(TokenPricingSource::VirtualVault { address: key(100) }), &vec![], true), Ok(VaultKind::Virtual));
    assert!(RestakeVSTCommand::prepare_next_state(&vec![], VaultKind::Jito).is_err());
}

#[test]
fn claim_search_and_totals() {
    let jito = |n| Some(TokenPricingSource::JitoRestakingVault { address: key(n) });
    let vaults = vec![
        ClaimVaultInfo { vault: key(1), receipt_token_pricing_source: jito(1), receipt_token_operation_receivable_amount: 0 },
        ClaimVaultInfo { vault: key(2), receipt_token_pricing_source: jito(2), receipt_token_operation_receivable_amount: 5 },
    ];
    match ClaimUnrestakedVSTCommand::execute_new(&vaults, None) {
        Ok(Some(ClaimUnrestakedVSTCommand { state: ClaimUnrestakedVSTCommandState::Prepare { vault } })) => assert_eq!(vault, key(2)),
        _ => panic!("expected the vault with receivables"),
    }
    assert!(matches!(ClaimUnrestakedVSTCommand::execute_new(&vaults, Some(key(2))), Ok(None)));
    let w = |claimed: u64, unrestaked: u64, lamports: u64| TicketWithdrawal {
        to_vault_supported_token_amount: 500 + claimed,
        unrestaked_receipt_token_amount: unrestaked,
        claimed_supported_token_amount: claimed,
        deducted_program_fee_receipt_token_amount: 1,
        deducted_vault_fee_receipt_token_amount: 2,
        fund_reserve_lamports: lamports,
    };
    let totals = sum_withdrawals(&vec![w(10, 11, 100), w(20, 22, 100)], 100).unwrap();
    assert_eq!(
        totals,
        WithdrawalTotals {
            claimed_supported_token_amount: 30,
            unrestaked_receipt_token_amount: 33,
            deducted_receipt_token_fee_amount: 6,
            last_to_vault_supported_token_amount: 520,
        }
    );
    assert_eq!(sum_withdrawals(&vec![w(10, 11, 99)], 100), Err(ErrorCode::RequireGteViolated));
    let book = ClaimBook {
        vault_receipt_token_operation_receivable_amount: 40,
        token_operation_reserved_amount: 100,
        token_operation_receivable_amount: 0,
        sol_operation_receivable_amount: 0,
    };
    let prices = ClaimFeePrices { fee_as_sol: 7, fee_as_supported_token: 6 };
    let nb = apply_jito_claim(book, totals, false, prices).unwrap();
    assert_eq!(nb.vault_receipt_token_operation_receivable_amount + totals.unrestaked_receipt_token_amount, 40);
    assert_eq!(nb.token_operation_reserved_amount, 130);
    assert_eq!(nb.token_operation_receivable_amount, 6);
    let low = WithdrawalTotals { last_to_vault_supported_token_amount: 129, ..totals };
    assert_eq!(apply_jito_claim(book, low, false, prices), Err(ErrorCode::RequireGteViolated));
}

#[test]
fn denormalize_items() {
    let c = |mint: u64, locked: u64, net: i128, alloc: u64| DenormalizeCandidate {
        supported_token_mint: key(mint),
        locked_amount: locked,
        net_operation_reserved_amount: net,
        allocation_as_normalized_token: alloc,
    };
    let (items, remaining) = DenormalizeNTCommand::first_pass(&vec![c(1, 10, -5, 30), c(2, 10, 3, 30), c(3, 10, -20, 30)], 50).unwrap();
    assert_eq!(items[0].allocated_normalized_token_amount, 30);
    assert_eq!(items[1].allocated_normalized_token_amount, 0);
    assert_eq!(items[2].allocated_normalized_token_amount, 20);
    assert_eq!(remaining, 0);
    assert!(matches!(
        DenormalizeNTCommand::first_pass(&vec![c(1, 10, -(u64::MAX as i128) - 1, 30)], 50),
        Err(ErrorCode::CalculationArithmeticException)
    ));
    let kept = DenormalizeNTCommand::second_pass(&items, &vec![0, 0, 5], 0, 3).unwrap();
    assert_eq!(kept.len(), 2);
    assert_eq!(kept[1].allocated_normalized_token_amount, 25);
    assert!(matches!(DenormalizeNTCommand::second_pass(&items, &vec![0, 0, 0], 4, 3), Err(ErrorCode::RequireGteViolated)));
    assert_eq!(
        DenormalizeNTCommand::check_pool(Some(TokenPricingSource::FragmetricNormalizedTokenPool { address: key(9) }), key(8)),
        Err(ErrorCode::RequireKeysEqViolated)
    );
    let book = DenormalizeBook {
        supported_token_operation_reserved_amount: 10,
        supported_token_other_reserved_amount: 5,
        normalized_token_operation_reserved_amount: 30,
    };
    let item = DenormalizeNTCommandItem { supported_token_mint: key(1), allocated_normalized_token_amount: 30 };
    let (nb, result) = apply_denormalize(book, item, 28, 28, 43).unwrap();
    assert_eq!(nb.supported_token_operation_reserved_amount, 38);
    assert_eq!(nb.normalized_token_operation_reserved_amount, 0);
    assert_eq!(result.burnt_normalized_token_amount, 30);
    assert!(matches!(apply_denormalize(book, item, 28, 27, 43), Err(ErrorCode::RequireGteViolated)));
    assert!(matches!(apply_denormalize(book, item, 28, 28, 42), Err(ErrorCode::RequireGteViolated)));
}

#[test]
fn withdrawal_processing() {
    let targets = vec![None, Some(key(1)), Some(key(2))];
    assert_eq!(ProcessWithdrawalBatchCommand::next_asset(&targets, ProcessWithdrawalBatchCommandState::New), Some(None));
    assert_eq!(
        ProcessWithdrawalBatchCommand::next_asset(&targets, ProcessWithdrawalBatchCommandState::Prepare { asset_token_mint: Some(key(1)) }),
        Some(Some(key(2)))
    );
    assert_eq!(
        ProcessWithdrawalBatchCommand::next_asset(&targets, ProcessWithdrawalBatchCommandState::Prepare { asset_token_mint: Some(key(2)) }),
        None
    );
    assert_eq!(
        ProcessWithdrawalBatchCommand::next_asset(&targets, ProcessWithdrawalBatchCommandState::Prepare { asset_token_mint: Some(key(9)) }),
        Some(None)
    );
    assert!(ProcessWithdrawalBatchCommand::next_command(None).is_none());
    assert_eq!(split_execute_accounts(10, 2, 3, 4), Ok((2, 5, 9)));
    assert_eq!(split_execute_accounts(8, 2, 3, 4), Err(ErrorCode::AccountNotEnoughKeys));
    assert_eq!(max_cycle_fee(&vec![(1, 100), (3, 1000)]), (1, 100));
    assert_eq!(max_cycle_fee(&vec![(1, 2), (1, 10)]), (1, 2));
    assert_eq!(max_cycle_fee(&vec![(1, 10), (1, 2), (2, 4)]), (1, 2));
    // a zero denominator reads as one
    assert_eq!(max_cycle_fee(&vec![(1, 2), (0, 0), (1, 0)]), (1, 0));
    assert_eq!(max_cycle_fee(&vec![]), (0, 0));
    assert_eq!(
        capacity_increase(101, true, 10),
        CapacityIncrease { supported_token_increasing_capacity_as_sol: 41, sol_increasing_capacity: 60 }
    );
    assert_eq!(
        capacity_increase(101, false, 1),
        CapacityIncrease { supported_token_increasing_capacity_as_sol: 100, sol_increasing_capacity: 0 }
    );
    assert_eq!(grown_capacity(u64::MAX - 1, 5), u64::MAX);
}

#[test]
fn unrestake_requests() {
    assert_eq!(extra_obligation(100, &vec![30, 50]), 20);
    assert_eq!(extra_obligation(100, &vec![130, 50]), 0);
    assert_eq!(first_free_ticket(&vec![true, false, false]), Some(1));
    assert_eq!(first_free_ticket(&vec![true, true]), None);
    let item = UnrestakeVSTCommandItem { vault: key(1), receipt_token_mint: key(2), supported_token_mint: key(3), allocated_receipt_token_amount: 20 };
    let book = VaultReceiptBook { receipt_token_operation_reserved_amount: 50, receipt_token_operation_receivable_amount: 5 };
    let req = WithdrawalRequest { from_vault_receipt_token_account_amount: 30, enqueued_vault_receipt_token_amount: 20, fund_reserve_lamports: 10 };
    let (nb, result) = apply_request(book, req, 10, item).unwrap();
    assert_eq!(nb.receipt_token_operation_reserved_amount, 30);
    assert_eq!(nb.receipt_token_operation_receivable_amount, 25);
    assert_eq!(nb.receipt_token_operation_reserved_amount + nb.receipt_token_operation_receivable_amount, 55);
    assert_eq!(result.total_unrestaking_token_amount, 25);
    assert!(matches!(apply_request(book, req, 11, item), Err(ErrorCode::RequireGteViolated)));
    let finalized = UnrestakeVRTCommand::finalize_items(&vec![UnrestakeVSTCommandItem { allocated_receipt_token_amount: 3 * SOL, ..item }], &vec![SOL]);
    assert_eq!(finalized[0].allocated_receipt_token_amount, 2 * SOL);
    assert!(UnrestakeVRTCommand::finalize_items(&vec![item], &vec![0]).is_empty());
}

#[test]
fn unrestakable_vaults_of_a_token() {
    let token = key(1);
    let nt = key(2);
    // vault 0 restakes the token, vault 1 another token, vaults 2 and 3 the normalized token
    let mints = vec![token, key(3), nt, nt, token];
    assert_eq!(
        unrestakable_vaults(token, &mints, Some((nt, true)), 10),
        vec![(0, false), (2, true), (3, true), (4, false)]
    );
    assert_eq!(unrestakable_vaults(token, &mints, Some((nt, true)), 2), vec![(0, false), (2, true)]);
    // the pool does not hold the token: only the direct vaults
    assert_eq!(unrestakable_vaults(token, &mints, Some((nt, false)), 10), vec![(0, false), (4, false)]);
    assert_eq!(unrestakable_vaults(token, &mints, None, 10), vec![(0, false), (4, false)]);
    // a token no vault restakes directly: only through the pool, if the pool holds it
    assert_eq!(unrestakable_vaults(key(9), &mints, Some((nt, true)), 4), vec![(2, true), (3, true)]);
    assert_eq!(unrestakable_vaults(key(9), &mints, Some((nt, false)), 4), vec![]);

    let items = initial_items(&vec![(key(10), key(11), key(12)), (key(20), key(21), key(22))]);
    assert_eq!(items.len(), 2);
    assert_eq!(items[1].vault, key(20));
    assert_eq!(items[1].receipt_token_mint, key(21));
    assert_eq!(items[1].supported_token_mint, key(22));
    assert_eq!(items[0].allocated_receipt_token_amount, 0);
}

#[test]
fn restakable_tokens_and_vaults() {
    let tokens = restakable_tokens(&vec![(key(1), 500), (key(2), -30), (key(3), 0)], Some((key(9), 70))).unwrap();
    assert_eq!(tokens, vec![(key(1), 500), (key(2), 0), (key(3), 0), (key(9), 70)]);
    assert_eq!(restakable_tokens(&vec![(key(1), 5)], None), Ok(vec![(key(1), 5)]));
    assert_eq!(
        restakable_tokens(&vec![(key(1), u64::MAX as i128 + 1)], None),
        Err(ErrorCode::CalculationArithmeticException)
    );
    assert_eq!(restakable_vaults(key(1), &vec![key(1), key(2), key(1)]), vec![0, 2]);
    assert_eq!(restakable_vaults(key(3), &vec![key(1), key(2)]), Vec::<usize>::new());
}

#[test]
fn high_water_mark_moves_when_a_fee_is_minted() {
    assert_eq!(high_water_mark_after_harvest(5, 1_100_000_000, SOL), 1_100_000_000);
    assert_eq!(high_water_mark_after_harvest(0, 1_100_000_000, SOL), SOL);
}
