use fund_commands::cmd10_undelegate_vst::{
    apply_undelegation, undelegation_amount, UndelegateStep, UndelegateVSTCommand, UndelegateVSTCommandItem,
    UndelegateVSTCommandState, UndelegationBook,
};
use fund_commands::cmd13_delegate_vst::{
    apply_delegation, DelegateVSTCommand as EvenDelegateVSTCommand, DelegateVSTCommandItem as EvenDelegateVSTCommandItem,
    DelegateVSTCommandState as EvenDelegateVSTCommandState, DelegationBook, DelegationVaultInfo,
};
use fund_commands::cmd14_delegate_vst::{
    finish_execute, plan_execute, DelegateStep, DelegateVSTCommand, DelegateVSTCommandItem, DelegateVSTCommandState,
};
use fund_commands::errors::ErrorCode;
use fund_commands::pricing::TokenPricingSource;
use fund_commands::pubkey::Pubkey;

const SOL: u64 = 1_000_000_000;

fn key(n: u64) -> Pubkey {
    Pubkey::new(n, 7, 7, n)
}

fn jito(n: u64) -> Option<TokenPricingSource> {
    Some(TokenPricingSource::JitoRestakingVault { address: key(n) })
}

fn item(op: u64, amount: u64) -> DelegateVSTCommandItem {
    DelegateVSTCommandItem { operator: key(op), allocated_supported_token_amount: amount }
}

#[test]
fn delegation_items_keep_worthwhile_puts() {
    let items = DelegateVSTCommand::plan_items(&vec![key(1), key(2), key(3)], &vec![2 * SOL, SOL - 1, SOL]);
    assert_eq!(items, vec![item(1, 2 * SOL), item(3, SOL)]);
    assert!(DelegateVSTCommand::plan_items(&vec![], &vec![]).is_empty());
}

#[test]
fn delegation_prepare_hands_over() {
    match DelegateVSTCommand::create_prepare_command(vec![key(100), key(101)], jito(100)) {
        Ok(Some(DelegateVSTCommand { state: DelegateVSTCommandState::Prepare { vaults } })) => assert_eq!(vaults, vec![key(100), key(101)]),
        _ => panic!("expected prepare"),
    }
    assert!(matches!(DelegateVSTCommand::create_prepare_command(vec![], None), Ok(None)));
    assert!(matches!(
        DelegateVSTCommand::create_prepare_command(vec![key(1)], Some(TokenPricingSource::SPLStakePool { address: key(1) })),
        Err(ErrorCode::FundOperationCommandExecutionFailedException)
    ));
}

#[test]
fn delegation_prepare_step() {
    let vaults = vec![key(100), key(101)];
    let accounts = vec![key(50), key(51), key(100)];
    match DelegateVSTCommand::execute_prepare(&vaults, jito(100), &accounts, vec![item(1, SOL)], jito(101)) {
        Ok(Some(DelegateVSTCommand { state: DelegateVSTCommandState::Execute { vaults: v, items } })) => {
            assert_eq!(v, vaults);
            assert_eq!(items, vec![item(1, SOL)]);
        },
        _ => panic!("expected execute"),
    }
    match DelegateVSTCommand::execute_prepare(&vaults, jito(100), &accounts, vec![], jito(101)) {
        Ok(Some(DelegateVSTCommand { state: DelegateVSTCommandState::Prepare { vaults: v } })) => assert_eq!(v, vec![key(101)]),
        _ => panic!("expected the next vault"),
    }
    assert!(matches!(
        DelegateVSTCommand::execute_prepare(&vaults, jito(100), &vec![key(50)], vec![], jito(101)),
        Err(ErrorCode::AccountNotEnoughKeys)
    ));
    assert!(matches!(
        DelegateVSTCommand::execute_prepare(&vaults, jito(100), &vec![key(50), key(51), key(99)], vec![], jito(101)),
        Err(ErrorCode::RequireKeysEqViolated)
    ));
    let solv = Some(TokenPricingSource::SolvBTCVault { address: key(100) });
    assert!(matches!(DelegateVSTCommand::execute_prepare(&vec![key(100)], solv, &accounts, vec![], None), Ok(None)));
}

#[test]
fn delegation_batches_of_six() {
    let vaults = vec![key(100)];
    let items: Vec<DelegateVSTCommandItem> = (1..=8).map(|i| item(i, SOL)).collect();
    let mut accounts = vec![key(50), key(51), key(100)];
    for i in 1..=6 {
        accounts.push(key(200 + i));
        accounts.push(key(i));
    }
    assert_eq!(plan_execute(&vaults, &items, jito(100), &accounts), Ok(DelegateStep::Delegate { batch_size: 6 }));
    let mut wrong = accounts.clone();
    wrong[4] = key(99);
    assert_eq!(plan_execute(&vaults, &items, jito(100), &wrong), Err(ErrorCode::RequireKeysEqViolated));
    assert_eq!(plan_execute(&vaults, &items, jito(100), &accounts[..14].to_vec()), Err(ErrorCode::AccountNotEnoughKeys));
    assert_eq!(plan_execute(&vec![], &items, jito(100), &accounts), Ok(DelegateStep::Done));
    assert_eq!(plan_execute(&vaults, &vec![], jito(100), &accounts), Ok(DelegateStep::MoveOn));
    assert_eq!(
        plan_execute(&vaults, &items, Some(TokenPricingSource::VirtualVault { address: key(100) }), &accounts),
        Ok(DelegateStep::MoveOn)
    );

    let before = vec![10u64; 6];
    let (result, next) = finish_execute(&vaults, &items, 6, &before, None).unwrap();
    assert_eq!(result.vault, key(100));
    assert_eq!(result.delegations.len(), 6);
    assert_eq!(result.delegations[0].total_delegated_token_amount, SOL + 10);
    match next {
        Some(DelegateVSTCommand { state: DelegateVSTCommandState::Execute { items: rest, .. } }) => {
            assert_eq!(rest, vec![item(7, SOL), item(8, SOL)]);
        },
        _ => panic!("expected the rest of the items"),
    }
    let last = vec![item(7, SOL), item(8, SOL)];
    let (_, done) = finish_execute(&vaults, &last, 2, &vec![0, 0], None).unwrap();
    assert!(done.is_none());
}

#[test]
fn even_shares_per_operator() {
    let vaults = vec![
        DelegationVaultInfo { vault: key(100), receipt_token_operation_reserved_amount: 10, operators: vec![key(1), key(2), key(3)] },
        DelegationVaultInfo { vault: key(101), receipt_token_operation_reserved_amount: 5, operators: vec![] },
        DelegationVaultInfo { vault: key(102), receipt_token_operation_reserved_amount: 7, operators: vec![key(4)] },
    ];
    let items = EvenDelegateVSTCommand::plan_items(&vaults);
    assert_eq!(items.len(), 4);
    assert_eq!(items[0], EvenDelegateVSTCommandItem { vault: key(100), operator: key(1), delegation_amount: 3 });
    assert_eq!(items[2].delegation_amount, 3);
    assert_eq!(items[3], EvenDelegateVSTCommandItem { vault: key(102), operator: key(4), delegation_amount: 7 });
    let total: u64 = items[..3].iter().map(|i| i.delegation_amount).sum();
    assert!(total <= 10 && 10 - total < 3);
}

#[test]
fn even_delegation_steps() {
    let items = vec![EvenDelegateVSTCommandItem { vault: key(100), operator: key(1), delegation_amount: 3 }];
    assert!(matches!(EvenDelegateVSTCommand::execute_new(vec![], None), Ok(None)));
    match EvenDelegateVSTCommand::execute_new(items.clone(), jito(100)) {
        Ok(Some(EvenDelegateVSTCommand { state: EvenDelegateVSTCommandState::Prepare { items: p } })) => assert_eq!(p, items),
        _ => panic!("expected prepare"),
    }
    assert!(matches!(
        EvenDelegateVSTCommand::execute_new(items.clone(), Some(TokenPricingSource::SolvBTCVault { address: key(100) })),
        Err(ErrorCode::FundOperationCommandExecutionFailedException)
    ));
    let fund = key(999);
    let accounts = vec![key(50), key(51), key(100), key(1), key(60), fund];
    assert_eq!(EvenDelegateVSTCommand::execute_check(&items, jito(100), &accounts, fund), Ok(Some(items[0])));
    assert_eq!(EvenDelegateVSTCommand::execute_check(&items, jito(100), &accounts, key(998)), Err(ErrorCode::RequireKeysEqViolated));
    assert_eq!(EvenDelegateVSTCommand::execute_check(&items, jito(100), &accounts[..5].to_vec(), fund), Err(ErrorCode::AccountNotEnoughKeys));
    let (book, result) = apply_delegation(
        DelegationBook { receipt_token_operation_reserved_amount: 10, supported_token_delegated_amount: 4 },
        items[0],
        key(77),
    );
    assert_eq!(book, DelegationBook { receipt_token_operation_reserved_amount: 7, supported_token_delegated_amount: 7 });
    assert_eq!(result.total_delegated_token_amount, 7);
    assert_eq!(result.vault_supported_token_mint, key(77));
}

#[test]
fn undelegation_amount_saturates() {
    assert_eq!(undelegation_amount(10 * SOL, 3 * SOL, 2 * SOL), 5 * SOL);
    assert_eq!(undelegation_amount(SOL, 3 * SOL, 0), 0);
    assert_eq!(undelegation_amount(5, 1, 10), 0);
}

#[test]
fn undelegation_steps() {
    let it = |op: u64, a: u64| UndelegateVSTCommandItem { operator: key(op), undelegation_amount: a };
    assert_eq!(UndelegateVSTCommand::plan_items(&vec![key(1), key(2)], &vec![SOL, 5]), vec![it(1, SOL)]);
    match UndelegateVSTCommand::execute_new(vec![key(100)]).state {
        UndelegateVSTCommandState::PrepareItems { vaults } => assert_eq!(vaults, vec![key(100)]),
        _ => panic!("expected item planning"),
    }
    let accounts = vec![key(50), key(51), key(100)];
    assert!(matches!(
        UndelegateVSTCommand::execute_prepare_items(vec![key(100)], jito(100), &accounts, vec![it(1, SOL)]),
        Ok(UndelegateVSTCommand { state: UndelegateVSTCommandState::Prepare { .. } })
    ));
    assert!(matches!(
        UndelegateVSTCommand::execute_prepare_items(vec![key(100)], None, &accounts, vec![]),
        Err(ErrorCode::FundOperationCommandExecutionFailedException)
    ));
    assert!(matches!(UndelegateVSTCommand::execute_prepare(vec![key(100)], vec![], jito(100), &accounts), Ok(None)));
    match UndelegateVSTCommand::execute_prepare(vec![key(100), key(101)], vec![], jito(100), &accounts) {
        Ok(Some(UndelegateVSTCommand { state: UndelegateVSTCommandState::PrepareItems { vaults } })) => assert_eq!(vaults, vec![key(101)]),
        _ => panic!("expected the next vault"),
    }
    let fund = key(999);
    let six = vec![key(50), key(51), key(100), key(1), key(60), fund];
    assert_eq!(
        UndelegateVSTCommand::execute_check(&vec![key(100)], &vec![it(1, SOL)], jito(100), &six, fund),
        Ok(UndelegateStep::Undelegate { item: it(1, SOL) })
    );
    assert_eq!(UndelegateVSTCommand::execute_check(&vec![key(100)], &vec![], jito(100), &six, fund), Ok(UndelegateStep::MoveOn));
    match UndelegateVSTCommand::after_undelegation(vec![key(100)], &vec![it(1, 1), it(2, 2), it(3, 3), it(4, 4)]) {
        UndelegateVSTCommandState::Prepare { items, .. } => assert_eq!(items, vec![it(3, 3), it(4, 4)]),
        _ => panic!("expected prepare"),
    }
    assert!(matches!(
        UndelegateVSTCommand::after_undelegation(vec![key(100)], &vec![it(1, 1)]),
        UndelegateVSTCommandState::PrepareItems { .. }
    ));
}

#[test]
fn undelegation_bookkeeping() {
    let book = UndelegationBook {
        receipt_token_operation_reserved_amount: 100,
        supported_token_delegated_amount: 50,
        supported_token_undelegating_amount: 5,
    };
    let (after, result) = apply_undelegation(book, UndelegateVSTCommandItem { operator: key(1), undelegation_amount: 20 }, key(77));
    assert_eq!(after.receipt_token_operation_reserved_amount, 120);
    assert_eq!(after.supported_token_delegated_amount, 30);
    assert_eq!(after.supported_token_undelegating_amount, 25);
    assert_eq!(
        after.supported_token_delegated_amount + after.supported_token_undelegating_amount,
        book.supported_token_delegated_amount + book.supported_token_undelegating_amount
    );
    assert_eq!(result.total_delegated_token_amount, 30);
    assert_eq!(result.total_undelegating_token_amount, 25);
}
