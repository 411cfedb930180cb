use vstd::prelude::*;
use crate::errors::ErrorCode;
use crate::iteration::skip_first;
use crate::pricing::TokenPricingSource;
use crate::pubkey::Pubkey;

verus! {

/// Staking less than one SOL into a pool is not worth a transaction.
pub const STAKE_SOL_MINIMUM_LAMPORTS: u64 = 1_000_000_000;

/// One deposit to make: `allocated_sol_amount` lamports into the pool of `token_mint`.
#[derive(Clone, Copy, PartialEq, Eq, Structural, Debug)]
pub struct StakeSOLCommandItem {
    pub token_mint: Pubkey,
    pub allocated_sol_amount: u64,
}

/// Where the staking command stands.
#[derive(Clone, Debug)]
pub enum StakeSOLCommandState {
    /// Decides where and how much to stake.
    New,
    /// Prepares the deposit of the first item.
    Prepare { items: Vec<StakeSOLCommandItem> },
    /// Deposits the first item, then prepares the next one.
    Execute { items: Vec<StakeSOLCommandItem> },
}

/// Stakes the fund's reserved SOL into the stake pools of its supported tokens.
#[derive(Clone, Debug)]
pub struct StakeSOLCommand {
    pub state: StakeSOLCommandState,
}

impl Default for StakeSOLCommand {
    fn default() -> (r: Self)
        ensures
            r.state is New,
    {
        StakeSOLCommand { state: StakeSOLCommandState::New }
    }
}

/// What one deposit did, and the fund's bookkeeping after it.
#[derive(Clone, Copy, PartialEq, Eq, Structural, Debug)]
pub struct StakeSOLCommandResult {
    pub token_mint: Pubkey,
    pub staked_sol_amount: u64,
    pub deducted_sol_fee_amount: u64,
    pub minted_token_amount: u64,
    pub operation_reserved_sol_amount: u64,
    pub operation_receivable_sol_amount: u64,
    pub operation_reserved_token_amount: u64,
}

/// A pool this command can deposit SOL into: SPL, Marinade and single-validator
/// Sanctum pools (multi-validator Sanctum pools are not deposited into).
pub open spec fn is_sol_depositable_pool(s: Option<TokenPricingSource>) -> bool {
    match s {
        Some(TokenPricingSource::SPLStakePool { .. }) => true,
        Some(TokenPricingSource::MarinadeStakePool { .. }) => true,
        Some(TokenPricingSource::SanctumSingleValidatorSPLStakePool { .. }) => true,
        _ => false,
    }
}

/// The items of the `New` step: the supported tokens whose share of the SOL
/// to stake (as the fund's strategy allotted it, in the order of the
/// supported tokens) is at least one SOL.
pub open spec fn spec_plan_items(shares: Seq<(Pubkey, u64)>) -> Seq<StakeSOLCommandItem>
    decreases shares.len(),
{
    if shares.len() == 0 {
        Seq::empty()
    } else {
        let prev = spec_plan_items(shares.drop_last());
        if shares.last().1 >= STAKE_SOL_MINIMUM_LAMPORTS {
            prev.push(StakeSOLCommandItem { token_mint: shares.last().0, allocated_sol_amount: shares.last().1 })
        } else {
            prev
        }
    }
}

impl StakeSOLCommand {
    /// Whether a supported token takes part in the staking strategy: yes for
    /// the pools SOL can be deposited into, no for tokens that cannot be
    /// staked (DEX pool and pegged tokens); any other source is a misconfigured fund.
    pub fn participates_in_staking(s: &Option<TokenPricingSource>) -> (r: Result<bool, ErrorCode>)
        ensures
            is_sol_depositable_pool(*s) ==> r == Ok::<bool, ErrorCode>(true),
            crate::pricing::is_unstakable_token(*s) ==> r == Ok::<bool, ErrorCode>(false),
            !is_sol_depositable_pool(*s) && !crate::pricing::is_unstakable_token(*s) ==>
                r == Err::<bool, ErrorCode>(ErrorCode::FundOperationCommandExecutionFailedException),
    {
        match s {
            Some(TokenPricingSource::SPLStakePool { .. })
            | Some(TokenPricingSource::MarinadeStakePool { .. })
            | Some(TokenPricingSource::SanctumSingleValidatorSPLStakePool { .. }) => Ok(true),
            Some(TokenPricingSource::OrcaDEXLiquidityPool { .. })
            | Some(TokenPricingSource::PeggedToken { .. }) => Ok(false),
            _ => Err(ErrorCode::FundOperationCommandExecutionFailedException),
        }
    }

    /// The `New` step: nothing to stake when the fund's net reserved SOL is not
    /// positive; otherwise one item per supported token whose share is at least one SOL.
    pub fn plan_items(sol_net_operation_reserved_amount: i128, shares: &Vec<(Pubkey, u64)>) -> (r: Result<Vec<StakeSOLCommandItem>, ErrorCode>)
        ensures
            sol_net_operation_reserved_amount <= 0 ==> (r matches Ok(items) && items@ == Seq::<StakeSOLCommandItem>::empty()),
            sol_net_operation_reserved_amount > u64::MAX ==> r == Err::<Vec<StakeSOLCommandItem>, ErrorCode>(ErrorCode::CalculationArithmeticException),
            0 < sol_net_operation_reserved_amount <= u64::MAX ==> (r matches Ok(items) && items@ == spec_plan_items(shares@)),
    {
        let mut items: Vec<StakeSOLCommandItem> = Vec::new();
        if sol_net_operation_reserved_amount <= 0 {
            return Ok(items);
        }
        if sol_net_operation_reserved_amount > u64::MAX as i128 {
            return Err(ErrorCode::CalculationArithmeticException);
        }
        let mut i: usize = 0;
        while i < shares.len()
            invariant
                i <= shares.len(),
                items@ == spec_plan_items(shares@.take(i as int)),
            decreases shares.len() - i,
        {
            let (mint, amount) = shares[i];
            assert(shares@.take(i as int + 1).drop_last() =~= shares@.take(i as int));
            if amount >= STAKE_SOL_MINIMUM_LAMPORTS {
                items.push(StakeSOLCommandItem { token_mint: mint, allocated_sol_amount: amount });
            }
            i += 1;
        }
        assert(shares@.take(shares.len() as int) =~= shares@);
        Ok(items)
    }

    /// The `Prepare` step: refused unless the first item's token comes from a
    /// pool SOL can be deposited into; moves on to `Execute` with the same items (the pool's
    /// accounts come with it). No items: nothing more to stake.
    pub fn prepare(items: Vec<StakeSOLCommandItem>, first_pricing_source: Option<TokenPricingSource>)
        -> (r: Result<Option<StakeSOLCommand>, ErrorCode>)
        ensures
            items.len() == 0 ==> r == Ok::<Option<StakeSOLCommand>, ErrorCode>(None),
            items.len() > 0 && !is_sol_depositable_pool(first_pricing_source) ==>
                r == Err::<Option<StakeSOLCommand>, ErrorCode>(ErrorCode::FundOperationCommandExecutionFailedException),
            items.len() > 0 && is_sol_depositable_pool(first_pricing_source) ==>
                (r matches Ok(Some(c)) && c.state matches StakeSOLCommandState::Execute { items: e } && e@ == items@),
    {
        if items.len() == 0 {
            return Ok(None);
        }
        match first_pricing_source {
            Some(TokenPricingSource::SPLStakePool { .. })
            | Some(TokenPricingSource::MarinadeStakePool { .. })
            | Some(TokenPricingSource::SanctumSingleValidatorSPLStakePool { .. }) => {
                Ok(Some(StakeSOLCommand { state: StakeSOLCommandState::Execute { items } }))
            },
            _ => Err(ErrorCode::FundOperationCommandExecutionFailedException),
        }
    }

    /// The account checks of the `Execute` step on the first item: at least
    /// eleven accounts, the pool account fourth and the item's token mint fifth.
    /// A token not from a depositable pool fails.
    pub fn check_deposit_accounts(source: &Option<TokenPricingSource>, token_mint: Pubkey, account_keys: &Vec<Pubkey>)
        -> (r: Result<(), ErrorCode>)
        ensures
            r == (match *source {
                Some(TokenPricingSource::SPLStakePool { address })
                | Some(TokenPricingSource::MarinadeStakePool { address })
                | Some(TokenPricingSource::SanctumSingleValidatorSPLStakePool { address }) =>
                    if account_keys.len() < 11 {
                        Err(ErrorCode::AccountNotEnoughKeys)
                    } else if account_keys@[3] != address || account_keys@[4] != token_mint {
                        Err(ErrorCode::RequireKeysEqViolated)
                    } else {
                        Ok(())
                    },
                _ => Err(ErrorCode::FundOperationCommandExecutionFailedException),
            }),
    {
        let address = match source {
            Some(TokenPricingSource::SPLStakePool { address })
            | Some(TokenPricingSource::MarinadeStakePool { address })
            | Some(TokenPricingSource::SanctumSingleValidatorSPLStakePool { address }) => *address,
            _ => return Err(ErrorCode::FundOperationCommandExecutionFailedException),
        };
        if account_keys.len() < 11 {
            return Err(ErrorCode::AccountNotEnoughKeys);
        }
        if account_keys[3] != address || account_keys[4] != token_mint {
            return Err(ErrorCode::RequireKeysEqViolated);
        }
        Ok(())
    }

    /// After executing the first item the command prepares the rest.
    pub fn remaining_items(items: &Vec<StakeSOLCommandItem>) -> (r: Vec<StakeSOLCommandItem>)
        ensures
            items.len() > 0 ==> r@ == items@.drop_first(),
            items.len() == 0 ==> r@ == Seq::<StakeSOLCommandItem>::empty(),
    {
        skip_first(items)
    }
}

/// The SPL pool's fee check: the pool tokens the deposit should have minted
/// before fees, less what it minted, is the fee it took, up to one unit of rounding.
pub open spec fn spec_spl_fee_is_consistent(allocated_sol_as_token: u64, minted: u64, deducted_fee: u64) -> bool {
    let expected = if allocated_sol_as_token > minted { allocated_sol_as_token - minted } else { 0 };
    (if expected > deducted_fee { expected - deducted_fee } else { deducted_fee - expected }) <= 1
}

/// Checks an SPL (or Sanctum) pool deposit's fee against the pool token price.
pub fn spl_fee_is_consistent(allocated_sol_as_token: u64, minted: u64, deducted_fee: u64) -> (r: bool)
    ensures
        r == spec_spl_fee_is_consistent(allocated_sol_as_token, minted, deducted_fee),
{
    let expected = allocated_sol_as_token.saturating_sub(minted);
    let diff = if expected > deducted_fee { expected - deducted_fee } else { deducted_fee - expected };
    diff <= 1
}

/// A Marinade deposit is skipped below the pool's minimum; above it the pool
/// takes no fee, so the minted amount must match the price up to one unit.
pub fn marinade_deposit_is_consistent(allocated_sol_as_token: u64, minted: u64) -> (r: bool)
    ensures
        r == ((if allocated_sol_as_token > minted { allocated_sol_as_token - minted } else { minted - allocated_sol_as_token }) <= 1),
{
    let diff = if allocated_sol_as_token > minted { allocated_sol_as_token - minted } else { minted - allocated_sol_as_token };
    diff <= 1
}

/// The fund's bookkeeping that a deposit changes.
#[derive(Clone, Copy, PartialEq, Eq, Structural, Debug)]
pub struct StakeBook {
    pub sol_operation_reserved_amount: u64,
    pub sol_operation_receivable_amount: u64,
    pub token_operation_reserved_amount: u64,
    /// The rest of the token's total reserved amount (reserved for other purposes than operation).
    pub token_other_reserved_amount: u64,
}

/// What the pool reported for one deposit.
#[derive(Clone, Copy, PartialEq, Eq, Structural, Debug)]
pub struct StakeDeposit {
    /// The balance of the fund's pool token reserve account after the deposit.
    pub to_pool_token_account_amount: u64,
    pub minted_pool_token_amount: u64,
    /// The pool's fee converted to lamports.
    pub deducted_sol_fee_amount: u64,
}

/// The bookkeeping after a deposit.
pub open spec fn spec_apply_stake(book: StakeBook, allocated: u64, d: StakeDeposit) -> StakeBook {
    StakeBook {
        sol_operation_reserved_amount: (book.sol_operation_reserved_amount - allocated) as u64,
        sol_operation_receivable_amount: (book.sol_operation_receivable_amount + d.deducted_sol_fee_amount) as u64,
        token_operation_reserved_amount: (book.token_operation_reserved_amount + d.minted_pool_token_amount) as u64,
        token_other_reserved_amount: book.token_other_reserved_amount,
    }
}

/// The `Execute` step's bookkeeping: the staked SOL leaves the reserve, the
/// fee becomes receivable, the minted pool tokens join the token's reserve;
/// refused when the fund's pool token account holds less than its total reserved amount.
pub fn apply_stake(book: StakeBook, item: StakeSOLCommandItem, d: StakeDeposit)
    -> (r: Result<(StakeBook, StakeSOLCommandResult), ErrorCode>)
    requires
        item.allocated_sol_amount <= book.sol_operation_reserved_amount,
        book.sol_operation_receivable_amount + d.deducted_sol_fee_amount <= u64::MAX,
        book.token_operation_reserved_amount + d.minted_pool_token_amount + book.token_other_reserved_amount <= u64::MAX,
    ensures
        ({
            let nb = spec_apply_stake(book, item.allocated_sol_amount, d);
            &&& d.to_pool_token_account_amount >= nb.token_operation_reserved_amount + nb.token_other_reserved_amount ==>
                r == Ok::<(StakeBook, StakeSOLCommandResult), ErrorCode>((nb, StakeSOLCommandResult {
                    token_mint: item.token_mint,
                    staked_sol_amount: item.allocated_sol_amount,
                    deducted_sol_fee_amount: d.deducted_sol_fee_amount,
                    minted_token_amount: d.minted_pool_token_amount,
                    operation_reserved_sol_amount: nb.sol_operation_reserved_amount,
                    operation_receivable_sol_amount: nb.sol_operation_receivable_amount,
                    operation_reserved_token_amount: nb.token_operation_reserved_amount,
                }))
            &&& d.to_pool_token_account_amount < nb.token_operation_reserved_amount + nb.token_other_reserved_amount ==>
                r == Err::<(StakeBook, StakeSOLCommandResult), ErrorCode>(ErrorCode::RequireGteViolated)
        }),
        r matches Ok((nb, res)) ==> {
            &&& nb.sol_operation_reserved_amount + item.allocated_sol_amount == book.sol_operation_reserved_amount
            &&& nb.sol_operation_receivable_amount == book.sol_operation_receivable_amount + d.deducted_sol_fee_amount
            &&& nb.token_operation_reserved_amount == book.token_operation_reserved_amount + d.minted_pool_token_amount
            &&& nb.token_other_reserved_amount == book.token_other_reserved_amount
            &&& res.staked_sol_amount == item.allocated_sol_amount
            &&& res.operation_reserved_sol_amount == nb.sol_operation_reserved_amount
            &&& res.operation_reserved_token_amount == nb.token_operation_reserved_amount
        },
{
    let nb = StakeBook {
        sol_operation_reserved_amount: book.sol_operation_reserved_amount - item.allocated_sol_amount,
        sol_operation_receivable_amount: book.sol_operation_receivable_amount + d.deducted_sol_fee_amount,
        token_operation_reserved_amount: book.token_operation_reserved_amount + d.minted_pool_token_amount,
        token_other_reserved_amount: book.token_other_reserved_amount,
    };
    if d.to_pool_token_account_amount < nb.token_operation_reserved_amount + nb.token_other_reserved_amount {
        return Err(ErrorCode::RequireGteViolated);
    }
    Ok((nb, StakeSOLCommandResult {
        token_mint: item.token_mint,
        staked_sol_amount: item.allocated_sol_amount,
        deducted_sol_fee_amount: d.deducted_sol_fee_amount,
        minted_token_amount: d.minted_pool_token_amount,
        operation_reserved_sol_amount: nb.sol_operation_reserved_amount,
        operation_receivable_sol_amount: nb.sol_operation_receivable_amount,
        operation_reserved_token_amount: nb.token_operation_reserved_amount,
    }))
}

/// Every planned item stakes at least one SOL, and the items follow the
/// order of the supported tokens.
pub proof fn lemma_plan_items_minimum(shares: Seq<(Pubkey, u64)>)
    ensures
        forall|i: int| 0 <= i < spec_plan_items(shares).len() ==>
            #[trigger] spec_plan_items(shares)[i].allocated_sol_amount >= STAKE_SOL_MINIMUM_LAMPORTS,
        spec_plan_items(shares).len() <= shares.len(),
    decreases shares.len(),
{
    if shares.len() > 0 {
        lemma_plan_items_minimum(shares.drop_last());
    }
}

/// The planned items are the supported tokens whose share reaches one SOL,
/// each staking its own share, in the order of the supported tokens: the
/// returned positions pick, for each item, the share it was made from; they
/// increase; and every share of at least one SOL is picked.
pub proof fn lemma_plan_items_keep_each_token_with_its_share(shares: Seq<(Pubkey, u64)>) -> (positions: Seq<int>)
    ensures
        ({
            let items = spec_plan_items(shares);
            &&& positions.len() == items.len()
            &&& forall|k: int| 0 <= k < positions.len() ==> {
                &&& 0 <= #[trigger] positions[k] < shares.len()
                &&& items[k].token_mint == shares[positions[k]].0
                &&& items[k].allocated_sol_amount == shares[positions[k]].1
            }
            &&& forall|k1: int, k2: int| 0 <= k1 < k2 < positions.len() ==> #[trigger] positions[k1] < #[trigger] positions[k2]
            &&& forall|j: int| 0 <= j < shares.len() ==>
                (shares[j].1 >= STAKE_SOL_MINIMUM_LAMPORTS <==> exists|k: int| 0 <= k < positions.len() && positions[k] == j)
        }),
    decreases shares.len(),
{
    if shares.len() == 0 {
        Seq::empty()
    } else {
        let n = shares.len() - 1;
        let rest = shares.drop_last();
        let prev_positions = lemma_plan_items_keep_each_token_with_its_share(rest);
        let prev = spec_plan_items(rest);
        let items = spec_plan_items(shares);
        assert forall|i: int| 0 <= i < n implies rest[i] == shares[i] by {}
        if shares[n].1 >= STAKE_SOL_MINIMUM_LAMPORTS {
            let positions = prev_positions.push(n);
            assert(items == prev.push(StakeSOLCommandItem { token_mint: shares.last().0, allocated_sol_amount: shares.last().1 }));
            assert forall|k: int| 0 <= k < positions.len() implies {
                &&& 0 <= #[trigger] positions[k] < shares.len()
                &&& items[k].token_mint == shares[positions[k]].0
                &&& items[k].allocated_sol_amount == shares[positions[k]].1
            } by {
                if k < prev_positions.len() {
                    assert(positions[k] == prev_positions[k]);
                    assert(items[k] == prev[k]);
                }
            }
            assert forall|j: int| 0 <= j < shares.len() implies
                (shares[j].1 >= STAKE_SOL_MINIMUM_LAMPORTS <==> exists|k: int| 0 <= k < positions.len() && positions[k] == j) by {
                if j < n {
                    if shares[j].1 >= STAKE_SOL_MINIMUM_LAMPORTS {
                        assert(rest[j].1 >= STAKE_SOL_MINIMUM_LAMPORTS);
                        let k = choose|k: int| 0 <= k < prev_positions.len() && prev_positions[k] == j;
                        assert(positions[k] == j);
                    }
                    if exists|k: int| 0 <= k < positions.len() && positions[k] == j {
                        let k = choose|k: int| 0 <= k < positions.len() && positions[k] == j;
                        assert(k < prev_positions.len());
                        assert(prev_positions[k] == j);
                        assert(rest[j].1 >= STAKE_SOL_MINIMUM_LAMPORTS);
                    }
                } else {
                    assert(positions[prev_positions.len() as int] == j);
                }
            }
            positions
        } else {
            assert(items == prev);
            assert forall|j: int| 0 <= j < shares.len() implies
                (shares[j].1 >= STAKE_SOL_MINIMUM_LAMPORTS <==> exists|k: int| 0 <= k < prev_positions.len() && prev_positions[k] == j) by {
                if j < n {
                    assert(rest[j] == shares[j]);
                } else {
                    if exists|k: int| 0 <= k < prev_positions.len() && prev_positions[k] == j {
                        let k = choose|k: int| 0 <= k < prev_positions.len() && prev_positions[k] == j;
                        assert(prev_positions[k] < rest.len());
                    }
                }
            }
            prev_positions
        }
    }
}

/// Staking moves SOL out of the reserve one for one, and what the SOL reserve
/// lost is what was staked: reserve plus staked amount is the reserve before.
pub proof fn lemma_stake_conserves_sol(book: StakeBook, allocated: u64, d: StakeDeposit)
    requires
        allocated <= book.sol_operation_reserved_amount,
        book.sol_operation_receivable_amount + d.deducted_sol_fee_amount <= u64::MAX,
    ensures
        spec_apply_stake(book, allocated, d).sol_operation_reserved_amount + allocated == book.sol_operation_reserved_amount,
        spec_apply_stake(book, allocated, d).sol_operation_receivable_amount
            == book.sol_operation_receivable_amount + d.deducted_sol_fee_amount,
        book.token_operation_reserved_amount + d.minted_pool_token_amount <= u64::MAX ==>
            spec_apply_stake(book, allocated, d).token_operation_reserved_amount
                == book.token_operation_reserved_amount + d.minted_pool_token_amount,
        spec_apply_stake(book, allocated, d).token_other_reserved_amount == book.token_other_reserved_amount,
{
}

} // verus!
