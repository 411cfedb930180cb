use vstd::prelude::*;
use crate::errors::ErrorCode;
use crate::operation_command::OperationCommandAccountMeta;
use crate::pricing::TokenPricingSource;
use crate::pubkey::Pubkey;
pub use crate::cmd7_unstake_lst::{UnstakeLSTCommandItem, WithdrawStakeItem};

verus! {

/// Where the unstaking command stands.
#[derive(Clone, Debug)]
pub enum UnstakeLSTCommandState {
    Init,
    Prepare,
    GetAvailableWithdrawals,
    Execute { withdraw_stake_items: Vec<WithdrawStakeItem> },
}

/// Unstakes liquid staking tokens, item by item (the first item is the current one).
#[derive(Clone, Debug)]
pub struct UnstakeLSTCommand {
    pub items: Vec<UnstakeLSTCommandItem>,
    pub state: UnstakeLSTCommandState,
}

/// What one unstaking did.
#[derive(Clone, Copy, PartialEq, Eq, Structural, Debug)]
pub struct UnstakeLSTCommandResult {
    pub token_mint: Pubkey,
    pub burnt_token_amount: u64,
    pub deducted_sol_fee_amount: u64,
    pub unstaking_sol_amount: u64,
    pub unstaked_sol_amount: u64,
    pub operation_reserved_sol_amount: u64,
    pub operation_receivable_sol_amount: u64,
}

/// The pool address of a pricing source this command unstakes from (SPL,
/// Marinade and single-validator Sanctum pools).
pub open spec fn unstaking_pool(source: Option<TokenPricingSource>) -> Option<Pubkey> {
    match source {
        Some(TokenPricingSource::SPLStakePool { address }) => Some(address),
        Some(TokenPricingSource::MarinadeStakePool { address }) => Some(address),
        Some(TokenPricingSource::SanctumSingleValidatorSPLStakePool { address }) => Some(address),
        _ => None,
    }
}

/// The `Init` and `Prepare` steps on the first item, whose token is priced by
/// `first_pricing_source`: its pool account must be among the accounts handed
/// over; SPL and Sanctum pools then look for stake to withdraw, a Marinade
/// pool goes to `Execute` with no stake withdrawal. None when no item is left.
pub fn execute_prepare(items: Vec<UnstakeLSTCommandItem>, first_pricing_source: Option<TokenPricingSource>, account_keys: &Vec<Pubkey>)
    -> (r: Result<Option<UnstakeLSTCommand>, ErrorCode>)
    ensures
        items.len() == 0 ==> r == Ok::<Option<UnstakeLSTCommand>, ErrorCode>(None),
        items.len() > 0 && (unstaking_pool(first_pricing_source) is None
            || !account_keys@.contains(unstaking_pool(first_pricing_source)->0)) ==>
            r == Err::<Option<UnstakeLSTCommand>, ErrorCode>(ErrorCode::FundOperationCommandExecutionFailedException),
        items.len() > 0 && unstaking_pool(first_pricing_source) is Some
            && account_keys@.contains(unstaking_pool(first_pricing_source)->0) ==> (r matches Ok(Some(c)) && c.items@ == items@
            && if first_pricing_source matches Some(TokenPricingSource::MarinadeStakePool { .. }) {
                c.state matches UnstakeLSTCommandState::Execute { withdraw_stake_items } && withdraw_stake_items.len() == 0
            } else {
                c.state is GetAvailableWithdrawals
            }),
{
    if items.len() == 0 {
        return Ok(None);
    }
    let pool = match first_pricing_source {
        Some(TokenPricingSource::SPLStakePool { address })
        | Some(TokenPricingSource::MarinadeStakePool { address })
        | Some(TokenPricingSource::SanctumSingleValidatorSPLStakePool { address }) => address,
        _ => return Err(ErrorCode::FundOperationCommandExecutionFailedException),
    };
    if !crate::iteration::contains_key(account_keys, pool) {
        return Err(ErrorCode::FundOperationCommandExecutionFailedException);
    }
    match first_pricing_source {
        Some(TokenPricingSource::MarinadeStakePool { .. }) => Ok(Some(UnstakeLSTCommand {
            items,
            state: UnstakeLSTCommandState::Execute { withdraw_stake_items: Vec::new() },
        })),
        _ => Ok(Some(UnstakeLSTCommand { items, state: UnstakeLSTCommandState::GetAvailableWithdrawals })),
    }
}

/// The `GetAvailableWithdrawals` step's checks on the first item, of an SPL
/// or single-validator Sanctum pool: six pool accounts (the pool account
/// second, the pool token mint third) and the fund's five stake accounts,
/// each at its expected address, must be handed over.
pub fn check_withdrawal_accounts(item: UnstakeLSTCommandItem, first_pricing_source: Option<TokenPricingSource>,
    account_keys: &Vec<Pubkey>, expected_fund_stake_accounts: &Vec<Pubkey>)
    -> (r: Result<(), ErrorCode>)
    requires
        expected_fund_stake_accounts.len() == 5,
    ensures
        match first_pricing_source {
            Some(TokenPricingSource::SPLStakePool { address }) | Some(TokenPricingSource::SanctumSingleValidatorSPLStakePool { address }) =>
                if account_keys.len() < 11 {
                    r == Err::<(), ErrorCode>(ErrorCode::AccountNotEnoughKeys)
                } else if account_keys@[1] != address || account_keys@[2] != item.token_mint
                    || exists|i: int| 0 <= i < 5 && account_keys@[6 + i] != #[trigger] expected_fund_stake_accounts@[i] {
                    r == Err::<(), ErrorCode>(ErrorCode::RequireKeysEqViolated)
                } else {
                    r == Ok::<(), ErrorCode>(())
                },
            _ => r == Err::<(), ErrorCode>(ErrorCode::FundOperationCommandExecutionFailedException),
        },
{
    match first_pricing_source {
        Some(TokenPricingSource::SPLStakePool { address }) | Some(TokenPricingSource::SanctumSingleValidatorSPLStakePool { address }) => {
            if account_keys.len() < 11 {
                return Err(ErrorCode::AccountNotEnoughKeys);
            }
            if account_keys[1] != address || account_keys[2] != item.token_mint {
                return Err(ErrorCode::RequireKeysEqViolated);
            }
            let mut i: usize = 0;
            while i < 5
                invariant
                    i <= 5,
                    account_keys.len() >= 11,
                    expected_fund_stake_accounts.len() == 5,
                    account_keys@[1] == address,
                    account_keys@[2] == item.token_mint,
                    first_pricing_source == Some(TokenPricingSource::SPLStakePool { address })
                        || first_pricing_source == Some(TokenPricingSource::SanctumSingleValidatorSPLStakePool { address }),
                    forall|j: int| 0 <= j < i ==> account_keys@[6 + j] == #[trigger] expected_fund_stake_accounts@[j],
                decreases 5 - i,
            {
                if account_keys[6 + i] != expected_fund_stake_accounts[i] {
                    assert(account_keys@[6 + i] != expected_fund_stake_accounts@[i as int]);
                    return Err(ErrorCode::RequireKeysEqViolated);
                }
                i += 1;
            }
            Ok(())
        },
        _ => Err(ErrorCode::FundOperationCommandExecutionFailedException),
    }
}

/// The stake accounts the `Execute` step needs, both writable: the fund's
/// stake account of each withdrawal, then each withdrawal's validator stake account.
pub open spec fn spec_stake_account_metas(items: Seq<WithdrawStakeItem>) -> Seq<OperationCommandAccountMeta> {
    Seq::new(items.len(), |i: int| OperationCommandAccountMeta { pubkey: items[i].fund_stake_account, is_writable: true })
        + Seq::new(items.len(), |i: int| OperationCommandAccountMeta { pubkey: items[i].validator_stake_account, is_writable: true })
}

/// Lists the stake accounts of the stake withdrawals.
pub fn stake_account_metas(items: &Vec<WithdrawStakeItem>) -> (r: Vec<OperationCommandAccountMeta>)
    ensures
        r@ == spec_stake_account_metas(items@),
{
    let mut r: Vec<OperationCommandAccountMeta> = Vec::new();
    let mut i: usize = 0;
    while i < items.len()
        invariant
            i <= items.len(),
            r@ == Seq::new(i as nat, |k: int| OperationCommandAccountMeta { pubkey: items@[k].fund_stake_account, is_writable: true }),
        decreases items.len() - i,
    {
        r.push(OperationCommandAccountMeta { pubkey: items[i].fund_stake_account, is_writable: true });
        i += 1;
        assert(r@ =~= Seq::new(i as nat, |k: int| OperationCommandAccountMeta { pubkey: items@[k].fund_stake_account, is_writable: true }));
    }
    let ghost head = r@;
    let mut j: usize = 0;
    while j < items.len()
        invariant
            j <= items.len(),
            head.len() == items.len(),
            r@ == head + Seq::new(j as nat, |k: int| OperationCommandAccountMeta { pubkey: items@[k].validator_stake_account, is_writable: true }),
        decreases items.len() - j,
    {
        r.push(OperationCommandAccountMeta { pubkey: items[j].validator_stake_account, is_writable: true });
        j += 1;
        assert(r@ =~= head + Seq::new(j as nat, |k: int| OperationCommandAccountMeta { pubkey: items@[k].validator_stake_account, is_writable: true }));
    }
    r
}

} // verus!
