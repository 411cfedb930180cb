use vstd::prelude::*;
use crate::errors::ErrorCode;
use crate::iteration::skip_first;
use crate::operation_command::OperationCommandAccountMeta;
use crate::pricing::TokenPricingSource;
use crate::pubkey::Pubkey;

verus! {

/// One deposit to make: `allocated_sol_amount` lamports into the pool of `token_mint`.
#[derive(Clone, Copy, PartialEq, Eq, Structural, Debug)]
pub struct StakeSOLCommandItem {
    pub token_mint: Pubkey,
    pub allocated_sol_amount: u64,
}

/// Where the staking command stands.
#[derive(Clone, Debug)]
pub enum StakeSOLCommandState {
    New,
    Prepare { items: Vec<StakeSOLCommandItem> },
    Execute { items: Vec<StakeSOLCommandItem> },
}

/// Stakes the fund's reserved SOL into the stake pools of its supported tokens
/// (the earlier form of the command, which deposits every positive share).
#[derive(Clone, Debug)]
pub struct StakeSOLCommand {
    pub state: StakeSOLCommandState,
}

impl Default for StakeSOLCommand {
    fn default() -> (r: Self)
        ensures
            r.state is New,
    {
        StakeSOLCommand { state: StakeSOLCommandState::New }
    }
}

/// What one deposit did.
#[derive(Clone, Copy, PartialEq, Eq, Structural, Debug)]
pub struct StakeSOLCommandResult {
    pub token_mint: Pubkey,
    pub staked_sol_amount: u64,
    pub deducted_sol_fee_amount: u64,
    pub minted_token_amount: u64,
    pub operation_reserved_token_amount: u64,
}

/// A pool this command deposits SOL into: SPL, Marinade and single-validator Sanctum pools.
pub open spec fn is_sol_depositable_pool(s: Option<TokenPricingSource>) -> bool {
    match s {
        Some(TokenPricingSource::SPLStakePool { .. }) => true,
        Some(TokenPricingSource::MarinadeStakePool { .. }) => true,
        Some(TokenPricingSource::SanctumSingleValidatorSPLStakePool { .. }) => true,
        _ => false,
    }
}

/// The pool address of a stake pool pricing source.
pub open spec fn pool_address(s: Option<TokenPricingSource>) -> Pubkey {
    match s {
        Some(TokenPricingSource::SPLStakePool { address }) => address,
        Some(TokenPricingSource::MarinadeStakePool { address }) => address,
        Some(TokenPricingSource::SanctumSingleValidatorSPLStakePool { address }) => address,
        _ => Pubkey::spec_zero(),
    }
}

/// The items of the `New` step: every supported token with a positive share.
pub open spec fn spec_plan_items(shares: Seq<(Pubkey, u64)>) -> Seq<StakeSOLCommandItem>
    decreases shares.len(),
{
    if shares.len() == 0 {
        Seq::empty()
    } else {
        let prev = spec_plan_items(shares.drop_last());
        if shares.last().1 > 0 {
            prev.push(StakeSOLCommandItem { token_mint: shares.last().0, allocated_sol_amount: shares.last().1 })
        } else {
            prev
        }
    }
}

/// The planned items are the supported tokens with a positive share, each
/// staking its own share, in the order of the supported tokens: the returned
/// positions pick, for each item, the share it was made from; they increase;
/// and every positive share is picked.
pub proof fn lemma_plan_items_keep_each_token_with_its_share(shares: Seq<(Pubkey, u64)>) -> (positions: Seq<int>)
    ensures
        ({
            let items = spec_plan_items(shares);
            &&& positions.len() == items.len()
            &&& forall|k: int| 0 <= k < positions.len() ==> {
                &&& 0 <= #[trigger] positions[k] < shares.len()
                &&& items[k].token_mint == shares[positions[k]].0
                &&& items[k].allocated_sol_amount == shares[positions[k]].1
            }
            &&& forall|k1: int, k2: int| 0 <= k1 < k2 < positions.len() ==> #[trigger] positions[k1] < #[trigger] positions[k2]
            &&& forall|j: int| 0 <= j < shares.len() ==>
                (shares[j].1 > 0 <==> exists|k: int| 0 <= k < positions.len() && positions[k] == j)
        }),
    decreases shares.len(),
{
    if shares.len() == 0 {
        Seq::empty()
    } else {
        let n = shares.len() - 1;
        let rest = shares.drop_last();
        let prev_positions = lemma_plan_items_keep_each_token_with_its_share(rest);
        let prev = spec_plan_items(rest);
        let items = spec_plan_items(shares);
        assert forall|i: int| 0 <= i < n implies rest[i] == shares[i] by {}
        if shares[n].1 > 0 {
            let positions = prev_positions.push(n);
            assert(items == prev.push(StakeSOLCommandItem { token_mint: shares.last().0, allocated_sol_amount: shares.last().1 }));
            assert forall|k: int| 0 <= k < positions.len() implies {
                &&& 0 <= #[trigger] positions[k] < shares.len()
                &&& items[k].token_mint == shares[positions[k]].0
                &&& items[k].allocated_sol_amount == shares[positions[k]].1
            } by {
                if k < prev_positions.len() {
                    assert(positions[k] == prev_positions[k]);
                    assert(items[k] == prev[k]);
                }
            }
            assert forall|j: int| 0 <= j < shares.len() implies
                (shares[j].1 > 0 <==> exists|k: int| 0 <= k < positions.len() && positions[k] == j) by {
                if j < n {
                    if shares[j].1 > 0 {
                        assert(rest[j].1 > 0);
                        let k = choose|k: int| 0 <= k < prev_positions.len() && prev_positions[k] == j;
                        assert(positions[k] == j);
                    }
                    if exists|k: int| 0 <= k < positions.len() && positions[k] == j {
                        let k = choose|k: int| 0 <= k < positions.len() && positions[k] == j;
                        assert(k < prev_positions.len());
                        assert(prev_positions[k] == j);
                        assert(rest[j].1 > 0);
                    }
                } else {
                    assert(positions[prev_positions.len() as int] == j);
                }
            }
            positions
        } else {
            assert(items == prev);
            assert forall|j: int| 0 <= j < shares.len() implies
                (shares[j].1 > 0 <==> exists|k: int| 0 <= k < prev_positions.len() && prev_positions[k] == j) by {
                if j < n {
                    assert(rest[j] == shares[j]);
                } else {
                    if exists|k: int| 0 <= k < prev_positions.len() && prev_positions[k] == j {
                        let k = choose|k: int| 0 <= k < prev_positions.len() && prev_positions[k] == j;
                        assert(prev_positions[k] < rest.len());
                    }
                }
            }
            prev_positions
        }
    }
}

impl StakeSOLCommand {
    /// Every supported token takes part in the strategy; one that is not from a
    /// pool SOL can be deposited into makes the step fail.
    pub fn check_supported_token(s: &Option<TokenPricingSource>) -> (r: Result<(), ErrorCode>)
        ensures
            is_sol_depositable_pool(*s) <==> r is Ok,
            r is Err ==> r == Err::<(), ErrorCode>(ErrorCode::FundOperationCommandExecutionFailedException),
    {
        match s {
            Some(TokenPricingSource::SPLStakePool { .. })
            | Some(TokenPricingSource::MarinadeStakePool { .. })
            | Some(TokenPricingSource::SanctumSingleValidatorSPLStakePool { .. }) => Ok(()),
            _ => Err(ErrorCode::FundOperationCommandExecutionFailedException),
        }
    }

    /// The `New` step: no items unless the net reserved SOL is positive; then
    /// one item per token the strategy gave a positive share.
    pub fn plan_items(sol_net_operation_reserved_amount: i128, shares: &Vec<(Pubkey, u64)>) -> (r: Result<Vec<StakeSOLCommandItem>, ErrorCode>)
        ensures
            sol_net_operation_reserved_amount <= 0 ==> (r matches Ok(items) && items@ == Seq::<StakeSOLCommandItem>::empty()),
            sol_net_operation_reserved_amount > u64::MAX ==> r == Err::<Vec<StakeSOLCommandItem>, ErrorCode>(ErrorCode::CalculationArithmeticException),
            0 < sol_net_operation_reserved_amount <= u64::MAX ==> (r matches Ok(items) && items@ == spec_plan_items(shares@)),
    {
        let mut items: Vec<StakeSOLCommandItem> = Vec::new();
        if sol_net_operation_reserved_amount <= 0 {
            return Ok(items);
        }
        if sol_net_operation_reserved_amount > u64::MAX as i128 {
            return Err(ErrorCode::CalculationArithmeticException);
        }
        let mut i: usize = 0;
        while i < shares.len()
            invariant
                i <= shares.len(),
                items@ == spec_plan_items(shares@.take(i as int)),
            decreases shares.len() - i,
        {
            let (mint, amount) = shares[i];
            assert(shares@.take(i as int + 1).drop_last() =~= shares@.take(i as int));
            if amount > 0 {
                items.push(StakeSOLCommandItem { token_mint: mint, allocated_sol_amount: amount });
            }
            i += 1;
        }
        assert(shares@.take(shares.len() as int) =~= shares@);
        Ok(items)
    }

    /// Hands over after the `New` or `Execute` step: while items remain, the
    /// `Prepare` step of the first one, which needs its pool's account (a
    /// token not from a depositable pool makes the step fail); otherwise none
    /// (normalization comes next).
    pub fn next_command(remaining_items: Vec<StakeSOLCommandItem>, first_pricing_source: Option<TokenPricingSource>)
        -> (r: Result<Option<(StakeSOLCommand, Vec<OperationCommandAccountMeta>)>, ErrorCode>)
        ensures
            remaining_items.len() == 0 ==> r == Ok::<Option<(StakeSOLCommand, Vec<OperationCommandAccountMeta>)>, ErrorCode>(None),
            remaining_items.len() > 0 && !is_sol_depositable_pool(first_pricing_source) ==>
                r == Err::<Option<(StakeSOLCommand, Vec<OperationCommandAccountMeta>)>, ErrorCode>(
                    ErrorCode::FundOperationCommandExecutionFailedException),
            remaining_items.len() > 0 && is_sol_depositable_pool(first_pricing_source) ==>
                (r matches Ok(Some((c, accounts)))
                    && (c.state matches StakeSOLCommandState::Prepare { items } && items@ == remaining_items@)
                    && accounts@ == seq![OperationCommandAccountMeta { pubkey: pool_address(first_pricing_source), is_writable: false }]),
    {
        if remaining_items.len() == 0 {
            return Ok(None);
        }
        let address = match first_pricing_source {
            Some(TokenPricingSource::SPLStakePool { address })
            | Some(TokenPricingSource::MarinadeStakePool { address })
            | Some(TokenPricingSource::SanctumSingleValidatorSPLStakePool { address }) => address,
            _ => return Err(ErrorCode::FundOperationCommandExecutionFailedException),
        };
        let mut accounts: Vec<OperationCommandAccountMeta> = Vec::new();
        accounts.push(OperationCommandAccountMeta { pubkey: address, is_writable: false });
        assert(accounts@ =~= seq![OperationCommandAccountMeta { pubkey: address, is_writable: false }]);
        Ok(Some((StakeSOLCommand { state: StakeSOLCommandState::Prepare { items: remaining_items } }, accounts)))
    }

    /// The `Prepare` step: moves on to `Execute` with the same items; no items,
    /// nothing more to stake; a token not from a depositable pool fails.
    pub fn prepare(items: Vec<StakeSOLCommandItem>, first_pricing_source: Option<TokenPricingSource>)
        -> (r: Result<Option<StakeSOLCommand>, ErrorCode>)
        ensures
            items.len() == 0 ==> r == Ok::<Option<StakeSOLCommand>, ErrorCode>(None),
            items.len() > 0 && !is_sol_depositable_pool(first_pricing_source) ==>
                r == Err::<Option<StakeSOLCommand>, ErrorCode>(ErrorCode::FundOperationCommandExecutionFailedException),
            items.len() > 0 && is_sol_depositable_pool(first_pricing_source) ==>
                (r matches Ok(Some(c)) && c.state matches StakeSOLCommandState::Execute { items: e } && e@ == items@),
    {
        if items.len() == 0 {
            return Ok(None);
        }
        match first_pricing_source {
            Some(TokenPricingSource::SPLStakePool { .. })
            | Some(TokenPricingSource::MarinadeStakePool { .. })
            | Some(TokenPricingSource::SanctumSingleValidatorSPLStakePool { .. }) => {
                Ok(Some(StakeSOLCommand { state: StakeSOLCommandState::Execute { items } }))
            },
            _ => Err(ErrorCode::FundOperationCommandExecutionFailedException),
        }
    }

    /// The account checks of the `Prepare` step (`executing` false) and the
    /// `Execute` step (`executing` true) on the first item's pool: the pool
    /// account comes first among at least one account to prepare, and fourth
    /// among at least nine (SPL and Sanctum pools) or twelve (Marinade) to
    /// execute. A token not from a depositable pool fails.
    pub fn check_pool_accounts(source: &Option<TokenPricingSource>, account_keys: &Vec<Pubkey>, executing: bool)
        -> (r: Result<(), ErrorCode>)
        ensures
            r == (if !is_sol_depositable_pool(*source) {
                Err(ErrorCode::FundOperationCommandExecutionFailedException)
            } else if account_keys.len() < (if !executing { 1int } else if source matches Some(TokenPricingSource::MarinadeStakePool { .. }) { 12int } else { 9int }) {
                Err(ErrorCode::AccountNotEnoughKeys)
            } else if account_keys@[if executing { 3int } else { 0int }] != pool_address(*source) {
                Err(ErrorCode::RequireKeysEqViolated)
            } else {
                Ok(())
            }),
    {
        let (address, execute_len) = match source {
            Some(TokenPricingSource::SPLStakePool { address }) => (*address, 9usize),
            Some(TokenPricingSource::MarinadeStakePool { address }) => (*address, 12usize),
            Some(TokenPricingSource::SanctumSingleValidatorSPLStakePool { address }) => (*address, 9usize),
            _ => return Err(ErrorCode::FundOperationCommandExecutionFailedException),
        };
        let needed: usize = if executing { execute_len } else { 1 };
        if account_keys.len() < needed {
            return Err(ErrorCode::AccountNotEnoughKeys);
        }
        let position: usize = if executing { 3 } else { 0 };
        if account_keys[position] != address {
            return Err(ErrorCode::RequireKeysEqViolated);
        }
        Ok(())
    }

    /// The items left after the `Execute` step.
    pub fn remaining_items(items: &Vec<StakeSOLCommandItem>) -> (r: Vec<StakeSOLCommandItem>)
        ensures
            items.len() > 0 ==> r@ == items@.drop_first(),
            items.len() == 0 ==> r@ == Seq::<StakeSOLCommandItem>::empty(),
    {
        skip_first(items)
    }
}

/// The fund's bookkeeping that a deposit changes.
#[derive(Clone, Copy, PartialEq, Eq, Structural, Debug)]
pub struct StakeBook {
    pub sol_operation_reserved_amount: u64,
    pub sol_operation_receivable_amount: u64,
    pub token_operation_reserved_amount: u64,
    /// The rest of the token's total reserved amount.
    pub token_other_reserved_amount: u64,
}

/// What the pool reported for one deposit.
#[derive(Clone, Copy, PartialEq, Eq, Structural, Debug)]
pub struct StakeDeposit {
    pub to_pool_token_account_amount: u64,
    pub minted_pool_token_amount: u64,
    pub deducted_sol_fee_amount: u64,
    /// The staked SOL net of the fee, converted to pool tokens at the current price.
    pub expected_minted_pool_token_amount: u64,
}

/// The bookkeeping after a deposit.
pub open spec fn spec_apply_stake(book: StakeBook, allocated: u64, d: StakeDeposit) -> StakeBook {
    StakeBook {
        sol_operation_reserved_amount: (book.sol_operation_reserved_amount - allocated) as u64,
        sol_operation_receivable_amount: (book.sol_operation_receivable_amount + d.deducted_sol_fee_amount) as u64,
        token_operation_reserved_amount: (book.token_operation_reserved_amount + d.minted_pool_token_amount) as u64,
        token_other_reserved_amount: book.token_other_reserved_amount,
    }
}

/// The `Execute` step's bookkeeping for one deposit; refused when the pool
/// minted less than the price says, or when the fund's pool token account
/// holds less than the token's total reserved amount.
pub fn apply_stake(book: StakeBook, item: StakeSOLCommandItem, d: StakeDeposit)
    -> (r: Result<(StakeBook, StakeSOLCommandResult), ErrorCode>)
    requires
        item.allocated_sol_amount <= book.sol_operation_reserved_amount,
        book.sol_operation_receivable_amount + d.deducted_sol_fee_amount <= u64::MAX,
        book.token_operation_reserved_amount + d.minted_pool_token_amount + book.token_other_reserved_amount <= u64::MAX,
    ensures
        ({
            let nb = spec_apply_stake(book, item.allocated_sol_amount, d);
            let ok = d.minted_pool_token_amount >= d.expected_minted_pool_token_amount
                && d.to_pool_token_account_amount >= nb.token_operation_reserved_amount + nb.token_other_reserved_amount;
            &&& ok ==> r == Ok::<(StakeBook, StakeSOLCommandResult), ErrorCode>((nb, StakeSOLCommandResult {
                    token_mint: item.token_mint,
                    staked_sol_amount: item.allocated_sol_amount,
                    deducted_sol_fee_amount: d.deducted_sol_fee_amount,
                    minted_token_amount: d.minted_pool_token_amount,
                    operation_reserved_token_amount: nb.token_operation_reserved_amount,
                }))
            &&& !ok ==> r == Err::<(StakeBook, StakeSOLCommandResult), ErrorCode>(ErrorCode::RequireGteViolated)
        }),
        r matches Ok((nb, res)) ==> {
            &&& nb.sol_operation_reserved_amount + item.allocated_sol_amount == book.sol_operation_reserved_amount
            &&& nb.sol_operation_receivable_amount == book.sol_operation_receivable_amount + d.deducted_sol_fee_amount
            &&& nb.token_operation_reserved_amount == book.token_operation_reserved_amount + d.minted_pool_token_amount
            &&& nb.token_other_reserved_amount == book.token_other_reserved_amount
            &&& res.staked_sol_amount == item.allocated_sol_amount
            &&& res.operation_reserved_token_amount == nb.token_operation_reserved_amount
        },
{
    let nb = StakeBook {
        sol_operation_reserved_amount: book.sol_operation_reserved_amount - item.allocated_sol_amount,
        sol_operation_receivable_amount: book.sol_operation_receivable_amount + d.deducted_sol_fee_amount,
        token_operation_reserved_amount: book.token_operation_reserved_amount + d.minted_pool_token_amount,
        token_other_reserved_amount: book.token_other_reserved_amount,
    };
    if d.minted_pool_token_amount < d.expected_minted_pool_token_amount {
        return Err(ErrorCode::RequireGteViolated);
    }
    if d.to_pool_token_account_amount < nb.token_operation_reserved_amount + nb.token_other_reserved_amount {
        return Err(ErrorCode::RequireGteViolated);
    }
    Ok((nb, StakeSOLCommandResult {
        token_mint: item.token_mint,
        staked_sol_amount: item.allocated_sol_amount,
        deducted_sol_fee_amount: d.deducted_sol_fee_amount,
        minted_token_amount: d.minted_pool_token_amount,
        operation_reserved_token_amount: nb.token_operation_reserved_amount,
    }))
}

/// A deposit moves the staked SOL out of the fund's SOL reserve, makes the
/// pool's SOL fee receivable, and adds the minted pool tokens to the token's
/// reserve; the rest of the token's reserve is untouched.
pub proof fn lemma_stake_conserves(book: StakeBook, allocated: u64, d: StakeDeposit)
    requires
        allocated <= book.sol_operation_reserved_amount,
        book.sol_operation_receivable_amount + d.deducted_sol_fee_amount <= u64::MAX,
        book.token_operation_reserved_amount + d.minted_pool_token_amount <= u64::MAX,
    ensures
        ({
            let nb = spec_apply_stake(book, allocated, d);
            &&& nb.sol_operation_reserved_amount + allocated == book.sol_operation_reserved_amount
            &&& nb.sol_operation_receivable_amount == book.sol_operation_receivable_amount + d.deducted_sol_fee_amount
            &&& nb.token_operation_reserved_amount == book.token_operation_reserved_amount + d.minted_pool_token_amount
            &&& nb.token_other_reserved_amount == book.token_other_reserved_amount
        }),
{
}

/// A Marinade deposit below the pool's minimum is skipped: no deposit, no result.
pub fn marinade_deposit_is_skipped(allocated_sol_amount: u64, min_deposit_sol_amount: u64) -> (r: bool)
    ensures
        r == (allocated_sol_amount < min_deposit_sol_amount),
{
    allocated_sol_amount < min_deposit_sol_amount
}

} // verus!
