use vstd::prelude::*;
use crate::errors::ErrorCode;
use crate::iteration::{contains_key, keys_match_from, skip_first};
use crate::operation_command::OperationCommandAccountMeta;
use crate::pricing::{is_stake_pool, is_unstakable_token, stake_pool_address, TokenPricingSource};
use crate::pubkey::Pubkey;

verus! {

/// The stake program needs at least one SOL in a stake account, so shares
/// below this many tokens are not unstaked.
pub const SPL_STAKE_MINIMUM_DELEGATION_LAMPORTS: u64 = 1_000_000_000;

/// At most this many stake withdrawals fit in one transaction.
pub const WITHDRAW_STAKE_LIMIT: u64 = 2;

/// One unstaking to do: `allocated_token_amount` of `token_mint`.
#[derive(Clone, Copy, PartialEq, Eq, Structural, Debug)]
pub struct UnstakeLSTCommandItem {
    pub token_mint: Pubkey,
    pub allocated_token_amount: u64,
}

/// A validator stake account to withdraw stake from, into one of the fund's stake accounts.
#[derive(Clone, Copy, PartialEq, Eq, Structural, Debug)]
pub struct WithdrawStakeItem {
    pub validator_stake_account: Pubkey,
    pub fund_stake_account: Pubkey,
    pub fund_stake_account_index: u8,
}

/// Where the unstaking command stands.
#[derive(Clone, Debug)]
pub enum UnstakeLSTCommandState {
    New,
    Prepare { items: Vec<UnstakeLSTCommandItem> },
    GetWithdrawStakeItems { items: Vec<UnstakeLSTCommandItem> },
    Execute { items: Vec<UnstakeLSTCommandItem>, withdraw_sol: bool, withdraw_stake_items: Vec<WithdrawStakeItem> },
}

/// Unstakes liquid staking tokens to meet the fund's SOL withdrawal obligations.
#[derive(Clone, Debug)]
pub struct UnstakeLSTCommand {
    pub state: UnstakeLSTCommandState,
}

impl Default for UnstakeLSTCommand {
    fn default() -> (r: Self)
        ensures
            r.state is New,
    {
        UnstakeLSTCommand { state: UnstakeLSTCommandState::New }
    }
}

/// What one unstaking did, with the fund's bookkeeping after it.
#[derive(Clone, Copy, PartialEq, Eq, Structural, Debug)]
pub struct UnstakeLSTCommandResult {
    pub token_mint: Pubkey,
    pub burnt_token_amount: u64,
    pub deducted_sol_fee_amount: u64,
    pub unstaked_sol_amount: u64,
    pub unstaking_sol_amount: u64,
    pub total_unstaking_sol_amount: u64,
    pub operation_reserved_sol_amount: u64,
    pub operation_receivable_sol_amount: u64,
    pub operation_reserved_token_amount: u64,
}

/// One supported token's share of the SOL to unstake, as the fund's strategy
/// cut it and converted to the token (rounded down), with the token's net reserved amount.
#[derive(Clone, Copy, PartialEq, Eq, Structural, Debug)]
pub struct UnstakeShare {
    pub token_mint: Pubkey,
    pub allocated_token_amount: u64,
    pub net_operation_reserved_amount: u64,
}

/// The items of the `New` step: the tokens whose share is at least the
/// minimum delegation, each asking for one more token than its share (to
/// make up for rounding) but never more than is reserved.
pub open spec fn spec_plan_items(shares: Seq<UnstakeShare>) -> Seq<UnstakeLSTCommandItem>
    decreases shares.len(),
{
    if shares.len() == 0 {
        Seq::empty()
    } else {
        let prev = spec_plan_items(shares.drop_last());
        let s = shares.last();
        if s.allocated_token_amount >= SPL_STAKE_MINIMUM_DELEGATION_LAMPORTS {
            let want = s.allocated_token_amount + 1;
            prev.push(UnstakeLSTCommandItem {
                token_mint: s.token_mint,
                allocated_token_amount: (if want < s.net_operation_reserved_amount { want } else { s.net_operation_reserved_amount as int }) as u64,
            })
        } else {
            prev
        }
    }
}

/// The planned items are the tokens whose share reaches the minimum
/// delegation, in the order of the supported tokens, each asking for the
/// smaller of its share plus one and what it holds reserved: the returned
/// positions pick, for each item, the share it was made from; they increase;
/// and every share of at least the minimum is picked.
pub proof fn lemma_plan_items_ask_each_token_for_its_share(shares: Seq<UnstakeShare>) -> (positions: Seq<int>)
    ensures
        ({
            let items = spec_plan_items(shares);
            &&& positions.len() == items.len()
            &&& forall|k: int| 0 <= k < positions.len() ==> {
                &&& 0 <= #[trigger] positions[k] < shares.len()
                &&& items[k].token_mint == shares[positions[k]].token_mint
                &&& items[k].allocated_token_amount <= shares[positions[k]].allocated_token_amount + 1
                &&& items[k].allocated_token_amount <= shares[positions[k]].net_operation_reserved_amount
                &&& (items[k].allocated_token_amount == shares[positions[k]].allocated_token_amount + 1
                    || items[k].allocated_token_amount == shares[positions[k]].net_operation_reserved_amount)
            }
            &&& forall|k1: int, k2: int| 0 <= k1 < k2 < positions.len() ==> #[trigger] positions[k1] < #[trigger] positions[k2]
            &&& forall|j: int| 0 <= j < shares.len() ==>
                (shares[j].allocated_token_amount >= SPL_STAKE_MINIMUM_DELEGATION_LAMPORTS <==> exists|k: int| 0 <= k < positions.len() && positions[k] == j)
        }),
    decreases shares.len(),
{
    if shares.len() == 0 {
        Seq::empty()
    } else {
        let n = shares.len() - 1;
        let rest = shares.drop_last();
        let prev_positions = lemma_plan_items_ask_each_token_for_its_share(rest);
        let prev = spec_plan_items(rest);
        let items = spec_plan_items(shares);
        assert forall|i: int| 0 <= i < n implies rest[i] == shares[i] by {}
        if shares[n].allocated_token_amount >= SPL_STAKE_MINIMUM_DELEGATION_LAMPORTS {
            let positions = prev_positions.push(n);
            assert(items.len() == prev.len() + 1);
            assert forall|k: int| 0 <= k < positions.len() implies {
                &&& 0 <= #[trigger] positions[k] < shares.len()
                &&& items[k].token_mint == shares[positions[k]].token_mint
                &&& items[k].allocated_token_amount <= shares[positions[k]].allocated_token_amount + 1
                &&& items[k].allocated_token_amount <= shares[positions[k]].net_operation_reserved_amount
                &&& (items[k].allocated_token_amount == shares[positions[k]].allocated_token_amount + 1
                    || items[k].allocated_token_amount == shares[positions[k]].net_operation_reserved_amount)
            } by {
                if k < prev_positions.len() {
                    assert(positions[k] == prev_positions[k]);
                    assert(items[k] == prev[k]);
                } else {
                    assert(positions[k] == n);
                }
            }
            assert forall|j: int| 0 <= j < shares.len() implies
                (shares[j].allocated_token_amount >= SPL_STAKE_MINIMUM_DELEGATION_LAMPORTS <==> exists|k: int| 0 <= k < positions.len() && positions[k] == j) by {
                if j < n {
                    if shares[j].allocated_token_amount >= SPL_STAKE_MINIMUM_DELEGATION_LAMPORTS {
                        assert(rest[j].allocated_token_amount >= SPL_STAKE_MINIMUM_DELEGATION_LAMPORTS);
                        let k = choose|k: int| 0 <= k < prev_positions.len() && prev_positions[k] == j;
                        assert(positions[k] == j);
                    }
                    if exists|k: int| 0 <= k < positions.len() && positions[k] == j {
                        let k = choose|k: int| 0 <= k < positions.len() && positions[k] == j;
                        assert(k < prev_positions.len());
                        assert(prev_positions[k] == j);
                        assert(rest[j].allocated_token_amount >= SPL_STAKE_MINIMUM_DELEGATION_LAMPORTS);
                    }
                } else {
                    assert(positions[prev_positions.len() as int] == j);
                }
            }
            positions
        } else {
            assert(items == prev);
            assert forall|j: int| 0 <= j < shares.len() implies
                (shares[j].allocated_token_amount >= SPL_STAKE_MINIMUM_DELEGATION_LAMPORTS <==> exists|k: int| 0 <= k < prev_positions.len() && prev_positions[k] == j) by {
                if j < n {
                    assert(rest[j] == shares[j]);
                } else {
                    if exists|k: int| 0 <= k < prev_positions.len() && prev_positions[k] == j {
                        let k = choose|k: int| 0 <= k < prev_positions.len() && prev_positions[k] == j;
                        assert(prev_positions[k] < rest.len());
                    }
                }
            }
            prev_positions
        }
    }
}

impl UnstakeLSTCommand {
    /// Whether a supported token takes part in the unstaking strategy: stake
    /// pool tokens do, tokens that cannot be staked join with nothing to give,
    /// any other token is a misconfigured fund.
    pub fn participates_in_unstaking(s: &Option<TokenPricingSource>) -> (r: Result<bool, ErrorCode>)
        ensures
            is_stake_pool(*s) ==> r == Ok::<bool, ErrorCode>(true),
            is_unstakable_token(*s) ==> r == Ok::<bool, ErrorCode>(false),
            !is_stake_pool(*s) && !is_unstakable_token(*s) ==>
                r == Err::<bool, ErrorCode>(ErrorCode::FundOperationCommandExecutionFailedException),
    {
        crate::pricing::classify_supported_token(s)
    }

    /// The SOL the strategy has to find by unstaking: the obligation less what
    /// is already receivable (none when there is no obligation).
    pub fn obligation_to_cut(unstaking_obligated_amount_as_sol: u64, sol_operation_receivable_amount: u64) -> (r: Option<u64>)
        ensures
            unstaking_obligated_amount_as_sol == 0 ==> r is None,
            unstaking_obligated_amount_as_sol != 0 ==> r == Some((if unstaking_obligated_amount_as_sol > sol_operation_receivable_amount {
                unstaking_obligated_amount_as_sol - sol_operation_receivable_amount
            } else {
                0
            }) as u64),
    {
        if unstaking_obligated_amount_as_sol == 0 {
            None
        } else {
            Some(unstaking_obligated_amount_as_sol.saturating_sub(sol_operation_receivable_amount))
        }
    }

    /// The `New` step's items.
    pub fn plan_items(shares: &Vec<UnstakeShare>) -> (items: Vec<UnstakeLSTCommandItem>)
        requires
            forall|i: int| 0 <= i < shares.len() ==> #[trigger] shares@[i].allocated_token_amount < u64::MAX,
        ensures
            items@ == spec_plan_items(shares@),
    {
        let mut items: Vec<UnstakeLSTCommandItem> = Vec::new();
        let mut i: usize = 0;
        while i < shares.len()
            invariant
                i <= shares.len(),
                forall|j: int| 0 <= j < shares.len() ==> #[trigger] shares@[j].allocated_token_amount < u64::MAX,
                items@ == spec_plan_items(shares@.take(i as int)),
            decreases shares.len() - i,
        {
            assert(shares@.take(i as int + 1).drop_last() =~= shares@.take(i as int));
            let s = shares[i];
            if s.allocated_token_amount >= SPL_STAKE_MINIMUM_DELEGATION_LAMPORTS {
                let want = s.allocated_token_amount + 1;
                let amount = if want < s.net_operation_reserved_amount { want } else { s.net_operation_reserved_amount };
                items.push(UnstakeLSTCommandItem { token_mint: s.token_mint, allocated_token_amount: amount });
            }
            i += 1;
        }
        assert(shares@.take(shares.len() as int) =~= shares@);
        items
    }

    /// The `Prepare` step: Marinade tokens go straight to `Execute` (an
    /// unstake order, neither SOL nor stake withdrawal); SPL and Sanctum pool
    /// tokens first look for stake to withdraw. The pool's account must be
    /// among the accounts handed over; other tokens, or a missing pool
    /// account, fail; no items means unstaking is done.
    pub fn prepare(items: Vec<UnstakeLSTCommandItem>, first_pricing_source: Option<TokenPricingSource>, account_keys: &Vec<Pubkey>)
        -> (r: Result<Option<UnstakeLSTCommand>, ErrorCode>)
        ensures
            items.len() == 0 ==> r == Ok::<Option<UnstakeLSTCommand>, ErrorCode>(None),
            items.len() > 0 && !(is_stake_pool(first_pricing_source)
                && account_keys@.contains(stake_pool_address(first_pricing_source))) ==>
                r == Err::<Option<UnstakeLSTCommand>, ErrorCode>(ErrorCode::FundOperationCommandExecutionFailedException),
            items.len() > 0 && account_keys@.contains(stake_pool_address(first_pricing_source))
                && (first_pricing_source matches Some(TokenPricingSource::MarinadeStakePool { .. })) ==>
                (r matches Ok(Some(c)) && c.state matches UnstakeLSTCommandState::Execute { items: e, withdraw_sol, withdraw_stake_items }
                    && e@ == items@ && !withdraw_sol && withdraw_stake_items.len() == 0),
            items.len() > 0 && is_stake_pool(first_pricing_source)
                && account_keys@.contains(stake_pool_address(first_pricing_source))
                && !(first_pricing_source matches Some(TokenPricingSource::MarinadeStakePool { .. })) ==>
                (r matches Ok(Some(c)) && c.state matches UnstakeLSTCommandState::GetWithdrawStakeItems { items: e } && e@ == items@),
    {
        if items.len() == 0 {
            return Ok(None);
        }
        let address = match first_pricing_source {
            Some(TokenPricingSource::SPLStakePool { address })
            | Some(TokenPricingSource::MarinadeStakePool { address })
            | Some(TokenPricingSource::SanctumSingleValidatorSPLStakePool { address })
            | Some(TokenPricingSource::SanctumMultiValidatorSPLStakePool { address }) => address,
            _ => return Err(ErrorCode::FundOperationCommandExecutionFailedException),
        };
        if !contains_key(account_keys, address) {
            return Err(ErrorCode::FundOperationCommandExecutionFailedException);
        }
        match first_pricing_source {
            Some(TokenPricingSource::MarinadeStakePool { .. }) => Ok(Some(UnstakeLSTCommand {
                state: UnstakeLSTCommandState::Execute { items, withdraw_sol: false, withdraw_stake_items: Vec::new() },
            })),
            _ => Ok(Some(UnstakeLSTCommand {
                state: UnstakeLSTCommandState::GetWithdrawStakeItems { items },
            })),
        }
    }

    /// The account checks of the `GetWithdrawStakeItems` step: five accounts
    /// (the pool account second, the item's token mint third), then the fund's
    /// five stake accounts of the pool, each at its expected address.
    pub fn check_get_withdraw_stake_accounts(account_keys: &Vec<Pubkey>, pool_account: Pubkey, token_mint: Pubkey, fund_stake_accounts: &Vec<Pubkey>)
        -> (r: Result<(), ErrorCode>)
        requires
            fund_stake_accounts.len() == 5,
        ensures
            r == (if account_keys.len() < 10 {
                Err(ErrorCode::AccountNotEnoughKeys)
            } else if account_keys@[1] != pool_account || account_keys@[2] != token_mint
                || account_keys@.subrange(5, 10) != fund_stake_accounts@ {
                Err(ErrorCode::RequireKeysEqViolated)
            } else {
                Ok(())
            }),
    {
        if account_keys.len() < 10 {
            return Err(ErrorCode::AccountNotEnoughKeys);
        }
        if account_keys[1] != pool_account || account_keys[2] != token_mint {
            return Err(ErrorCode::RequireKeysEqViolated);
        }
        let matched = keys_match_from(account_keys, 5, fund_stake_accounts, 5);
        assert(fund_stake_accounts@.take(5) =~= fund_stake_accounts@);
        if !matched {
            return Err(ErrorCode::RequireKeysEqViolated);
        }
        Ok(())
    }

    /// The account checks of the `Execute` step on an SPL or Sanctum pool:
    /// thirteen accounts (the pool account fourth, the item's token mint
    /// fifth), then the fund stake account of each withdrawal, then the
    /// validator stake account of each, in the withdrawals' order.
    pub fn check_withdraw_accounts(account_keys: &Vec<Pubkey>, pool_account: Pubkey, token_mint: Pubkey, withdraw_stake_items: &Vec<WithdrawStakeItem>)
        -> (r: Result<(), ErrorCode>)
        ensures
            r == (if account_keys.len() < 13 + 2 * withdraw_stake_items.len() {
                Err(ErrorCode::AccountNotEnoughKeys)
            } else if account_keys@[3] != pool_account || account_keys@[4] != token_mint
                || account_keys@.subrange(13, 13 + withdraw_stake_items.len())
                    != withdraw_stake_items@.map_values(|w: WithdrawStakeItem| w.fund_stake_account)
                || account_keys@.subrange(13 + withdraw_stake_items.len(), 13 + 2 * withdraw_stake_items.len())
                    != withdraw_stake_items@.map_values(|w: WithdrawStakeItem| w.validator_stake_account) {
                Err(ErrorCode::RequireKeysEqViolated)
            } else {
                Ok(())
            }),
    {
        let n = withdraw_stake_items.len();
        if account_keys.len() < 13 || (account_keys.len() - 13) / 2 < n {
            return Err(ErrorCode::AccountNotEnoughKeys);
        }
        if account_keys[3] != pool_account || account_keys[4] != token_mint {
            return Err(ErrorCode::RequireKeysEqViolated);
        }
        let ghost funds = withdraw_stake_items@.map_values(|w: WithdrawStakeItem| w.fund_stake_account);
        let ghost validators = withdraw_stake_items@.map_values(|w: WithdrawStakeItem| w.validator_stake_account);
        let mut i: usize = 0;
        while i < n
            invariant
                i <= n,
                n == withdraw_stake_items.len(),
                13 + 2 * n <= account_keys.len(),
                funds == withdraw_stake_items@.map_values(|w: WithdrawStakeItem| w.fund_stake_account),
                validators == withdraw_stake_items@.map_values(|w: WithdrawStakeItem| w.validator_stake_account),
                forall|j: int| 0 <= j < i ==> account_keys@[13 + j] == funds[j] && account_keys@[13 + n + j] == validators[j],
            decreases n - i,
        {
            if account_keys[13 + i] != withdraw_stake_items[i].fund_stake_account {
                assert(account_keys@.subrange(13, 13 + n as int)[i as int] != funds[i as int]);
                return Err(ErrorCode::RequireKeysEqViolated);
            }
            if account_keys[13 + n + i] != withdraw_stake_items[i].validator_stake_account {
                assert(account_keys@.subrange(13 + n as int, 13 + 2 * n as int)[i as int] != validators[i as int]);
                return Err(ErrorCode::RequireKeysEqViolated);
            }
            i += 1;
        }
        assert(account_keys@.subrange(13, 13 + n as int) =~= funds);
        assert(account_keys@.subrange(13 + n as int, 13 + 2 * n as int) =~= validators);
        Ok(())
    }

    /// The account checks of the `Execute` step on a Marinade pool: eight
    /// accounts (the pool account fourth, the item's token mint fifth), then
    /// the fund's five withdrawal tickets, each at its expected address.
    pub fn check_order_unstake_accounts(account_keys: &Vec<Pubkey>, pool_account: Pubkey, token_mint: Pubkey, withdrawal_tickets: &Vec<Pubkey>)
        -> (r: Result<(), ErrorCode>)
        requires
            withdrawal_tickets.len() == 5,
        ensures
            r == (if account_keys.len() < 13 {
                Err(ErrorCode::AccountNotEnoughKeys)
            } else if account_keys@[3] != pool_account || account_keys@[4] != token_mint
                || account_keys@.subrange(8, 13) != withdrawal_tickets@ {
                Err(ErrorCode::RequireKeysEqViolated)
            } else {
                Ok(())
            }),
    {
        if account_keys.len() < 13 {
            return Err(ErrorCode::AccountNotEnoughKeys);
        }
        if account_keys[3] != pool_account || account_keys[4] != token_mint {
            return Err(ErrorCode::RequireKeysEqViolated);
        }
        let matched = keys_match_from(account_keys, 8, withdrawal_tickets, 5);
        assert(withdrawal_tickets@.take(5) =~= withdrawal_tickets@);
        if !matched {
            return Err(ErrorCode::RequireKeysEqViolated);
        }
        Ok(())
    }
}

/// The fund's stake account slots that are free (not yet initialized), in order.
pub open spec fn spec_free_slots(initialized: Seq<bool>) -> Seq<usize>
    decreases initialized.len(),
{
    if initialized.len() == 0 {
        Seq::empty()
    } else {
        let prev = spec_free_slots(initialized.drop_last());
        if !initialized.last() { prev.push((initialized.len() - 1) as usize) } else { prev }
    }
}

proof fn lemma_free_slots_bounds(initialized: Seq<bool>)
    ensures
        spec_free_slots(initialized).len() <= initialized.len(),
        forall|k: int| 0 <= k < spec_free_slots(initialized).len() ==> #[trigger] spec_free_slots(initialized)[k] < initialized.len(),
    decreases initialized.len(),
{
    if initialized.len() > 0 {
        lemma_free_slots_bounds(initialized.drop_last());
    }
}

/// The stake withdrawals of the `GetWithdrawStakeItems` step: free fund
/// stake accounts paired, in order, with the validator stake accounts found.
pub open spec fn spec_withdraw_stake_items(initialized: Seq<bool>, fund_stake_accounts: Seq<Pubkey>, validators: Seq<Pubkey>)
    -> Seq<WithdrawStakeItem>
{
    let free = spec_free_slots(initialized);
    let n = if free.len() < validators.len() { free.len() } else { validators.len() };
    Seq::new(n, |k: int| WithdrawStakeItem {
        validator_stake_account: validators[k],
        fund_stake_account: fund_stake_accounts[free[k] as int],
        fund_stake_account_index: free[k] as u8,
    })
}

/// Pairs the free fund stake accounts with the pool's validator stake accounts.
pub fn withdraw_stake_items(initialized: &Vec<bool>, fund_stake_accounts: &Vec<Pubkey>, validators: &Vec<Pubkey>) -> (r: Vec<WithdrawStakeItem>)
    requires
        initialized.len() == fund_stake_accounts.len(),
        initialized.len() <= 256,
    ensures
        r@ == spec_withdraw_stake_items(initialized@, fund_stake_accounts@, validators@),
{
    let mut free: Vec<usize> = Vec::new();
    let mut i: usize = 0;
    while i < initialized.len()
        invariant
            i <= initialized.len(),
            free@ == spec_free_slots(initialized@.take(i as int)),
        decreases initialized.len() - i,
    {
        assert(initialized@.take(i as int + 1).drop_last() =~= initialized@.take(i as int));
        if !initialized[i] {
            free.push(i);
        }
        i += 1;
    }
    assert(initialized@.take(initialized.len() as int) =~= initialized@);
    proof { lemma_free_slots_bounds(initialized@); }
    let n = if free.len() < validators.len() { free.len() } else { validators.len() };
    let mut r: Vec<WithdrawStakeItem> = Vec::new();
    let mut k: usize = 0;
    while k < n
        invariant
            k <= n,
            n <= free.len(),
            n <= validators.len(),
            free@ == spec_free_slots(initialized@),
            initialized.len() == fund_stake_accounts.len(),
            initialized.len() <= 256,
            forall|j: int| 0 <= j < free.len() ==> #[trigger] free@[j] < initialized.len(),
            r@ == spec_withdraw_stake_items(initialized@, fund_stake_accounts@, validators@).take(k as int),
            n == spec_withdraw_stake_items(initialized@, fund_stake_accounts@, validators@).len(),
        decreases n - k,
    {
        let slot = free[k];
        r.push(WithdrawStakeItem {
            validator_stake_account: validators[k],
            fund_stake_account: fund_stake_accounts[slot],
            fund_stake_account_index: slot as u8,
        });
        k += 1;
        assert(r@ =~= spec_withdraw_stake_items(initialized@, fund_stake_accounts@, validators@).take(k as int));
    }
    assert(r@ =~= spec_withdraw_stake_items(initialized@, fund_stake_accounts@, validators@));
    r
}

/// The running state of one `Execute` step on an SPL or Sanctum pool:
/// first a SOL withdrawal, then stake withdrawals one by one.
#[derive(Clone, Copy, PartialEq, Eq, Structural, Debug)]
pub struct WithdrawProgress {
    pub allocated_token_amount: u64,
    pub total_token_amount_to_burn: u64,
    pub total_unstaked_sol_amount: u64,
    pub total_unstaking_sol_amount: u64,
    pub total_deducted_pool_token_fee_amount: u64,
    pub withdraw_stake_count: u64,
    pub next_index: usize,
}

impl WithdrawProgress {
    /// Nothing more is left to burn than was allocated, and the limit of stake withdrawals holds.
    pub open spec fn wf(self) -> bool {
        &&& self.total_token_amount_to_burn <= self.allocated_token_amount
        &&& self.withdraw_stake_count <= WITHDRAW_STAKE_LIMIT
    }

    /// The pool tokens burnt so far.
    pub open spec fn burnt(self) -> int {
        self.allocated_token_amount - self.total_token_amount_to_burn
    }
}

/// What the step does next.
#[derive(Clone, Copy, PartialEq, Eq, Structural, Debug)]
pub enum WithdrawAction {
    /// Withdraw stake from the validator stake account of this withdrawal.
    WithdrawStake(usize),
    /// Stop here; the next transaction resumes from this withdrawal.
    Pause(usize),
    /// Done with this item.
    Finish,
}

/// Starts the step: after the SOL withdrawal (if the step makes one) with
/// `sol` = (burnt pool tokens, unstaked lamports, pool token fee).
pub fn start_withdraw(allocated_token_amount: u64, sol: Option<(u64, u64, u64)>) -> (r: WithdrawProgress)
    requires
        sol matches Some((burnt, _, _)) ==> burnt <= allocated_token_amount,
    ensures
        r.wf(),
        r.allocated_token_amount == allocated_token_amount,
        r.withdraw_stake_count == 0,
        r.next_index == 0,
        r.total_unstaking_sol_amount == 0,
        sol is None ==> r.total_token_amount_to_burn == allocated_token_amount && r.total_unstaked_sol_amount == 0
            && r.total_deducted_pool_token_fee_amount == 0,
        sol matches Some((burnt, unstaked, fee)) ==> r.total_token_amount_to_burn == allocated_token_amount - burnt
            && r.total_unstaked_sol_amount == unstaked && r.total_deducted_pool_token_fee_amount == fee,
{
    match sol {
        None => WithdrawProgress {
            allocated_token_amount,
            total_token_amount_to_burn: allocated_token_amount,
            total_unstaked_sol_amount: 0,
            total_unstaking_sol_amount: 0,
            total_deducted_pool_token_fee_amount: 0,
            withdraw_stake_count: 0,
            next_index: 0,
        },
        Some((burnt, unstaked, fee)) => WithdrawProgress {
            allocated_token_amount,
            total_token_amount_to_burn: allocated_token_amount - burnt,
            total_unstaked_sol_amount: unstaked,
            total_unstaking_sol_amount: 0,
            total_deducted_pool_token_fee_amount: fee,
            withdraw_stake_count: 0,
            next_index: 0,
        },
    }
}

/// Decides the next move among `num_items` stake withdrawals: stop when all
/// were looked at or nothing is left to burn, pause once the per-transaction
/// limit of stake withdrawals is reached, withdraw stake otherwise.
pub fn next_withdraw_action(p: &WithdrawProgress, num_items: usize) -> (r: WithdrawAction)
    ensures
        p.next_index >= num_items || p.total_token_amount_to_burn == 0 ==> r == WithdrawAction::Finish,
        p.next_index < num_items && p.total_token_amount_to_burn != 0 && p.withdraw_stake_count == WITHDRAW_STAKE_LIMIT
            ==> r == WithdrawAction::Pause(p.next_index),
        p.next_index < num_items && p.total_token_amount_to_burn != 0 && p.withdraw_stake_count != WITHDRAW_STAKE_LIMIT
            ==> r == WithdrawAction::WithdrawStake(p.next_index),
{
    if p.next_index >= num_items || p.total_token_amount_to_burn == 0 {
        WithdrawAction::Finish
    } else if p.withdraw_stake_count == WITHDRAW_STAKE_LIMIT {
        WithdrawAction::Pause(p.next_index)
    } else {
        WithdrawAction::WithdrawStake(p.next_index)
    }
}

/// Records a stake withdrawal (burnt pool tokens, unstaking lamports, pool
/// token fee); only withdrawals that burnt something count toward the limit.
pub fn record_withdraw_stake(p: WithdrawProgress, burnt: u64, unstaking: u64, fee: u64) -> (r: WithdrawProgress)
    requires
        p.wf(),
        p.withdraw_stake_count < WITHDRAW_STAKE_LIMIT,
        p.next_index < usize::MAX,
        burnt <= p.total_token_amount_to_burn,
        p.total_unstaking_sol_amount + unstaking <= u64::MAX,
        p.total_deducted_pool_token_fee_amount + fee <= u64::MAX,
    ensures
        r.wf(),
        r.allocated_token_amount == p.allocated_token_amount,
        r.total_token_amount_to_burn == p.total_token_amount_to_burn - burnt,
        r.total_unstaked_sol_amount == p.total_unstaked_sol_amount,
        r.total_unstaking_sol_amount == p.total_unstaking_sol_amount + unstaking,
        r.total_deducted_pool_token_fee_amount == p.total_deducted_pool_token_fee_amount + fee,
        r.withdraw_stake_count == p.withdraw_stake_count + (if burnt > 0 { 1int } else { 0 }),
        r.next_index == p.next_index + 1,
{
    WithdrawProgress {
        allocated_token_amount: p.allocated_token_amount,
        total_token_amount_to_burn: p.total_token_amount_to_burn - burnt,
        total_unstaked_sol_amount: p.total_unstaked_sol_amount,
        total_unstaking_sol_amount: p.total_unstaking_sol_amount + unstaking,
        total_deducted_pool_token_fee_amount: p.total_deducted_pool_token_fee_amount + fee,
        withdraw_stake_count: if burnt > 0 { p.withdraw_stake_count + 1 } else { p.withdraw_stake_count },
        next_index: p.next_index + 1,
    }
}

/// The burnt pool tokens and the tokens still to burn always add up to the
/// allocated amount, and no transaction makes more than the limit of stake
/// withdrawals that burn tokens.
pub proof fn lemma_withdraw_progress_conserves(p: WithdrawProgress)
    requires
        p.wf(),
    ensures
        p.burnt() + p.total_token_amount_to_burn == p.allocated_token_amount,
        0 <= p.burnt() <= p.allocated_token_amount,
        p.withdraw_stake_count <= WITHDRAW_STAKE_LIMIT,
{
}

/// How the step ends: nothing was burnt (no result); or a result, and when
/// the step paused at `resume_index`, the `Execute` step that resumes it
/// (the first item asking only for what is left to burn, no SOL withdrawal,
/// the stake withdrawals from `resume_index` on).
pub fn finish_withdraw(p: &WithdrawProgress, items: &Vec<UnstakeLSTCommandItem>, withdraw_stake_items: &Vec<WithdrawStakeItem>, paused_at: Option<usize>)
    -> (r: (bool, Option<UnstakeLSTCommand>))
    requires
        items.len() > 0,
        paused_at matches Some(i) ==> i <= withdraw_stake_items.len(),
    ensures
        r.0 == (p.total_token_amount_to_burn != p.allocated_token_amount),
        !r.0 || paused_at is None ==> r.1 is None,
        r.0 && paused_at is Some ==> (r.1 matches Some(c) && c.state matches UnstakeLSTCommandState::Execute { items: e, withdraw_sol, withdraw_stake_items: w }
            && e@ == items@.update(0, UnstakeLSTCommandItem { allocated_token_amount: p.total_token_amount_to_burn, ..items@[0] })
            && !withdraw_sol
            && w@ == withdraw_stake_items@.subrange(paused_at->0 as int, withdraw_stake_items.len() as int)),
{
    if p.total_token_amount_to_burn == p.allocated_token_amount {
        return (false, None);
    }
    match paused_at {
        None => (true, None),
        Some(i) => {
            let mut e = items.clone();
            let first = e[0];
            e.set(0, UnstakeLSTCommandItem { allocated_token_amount: p.total_token_amount_to_burn, ..first });
            let mut w: Vec<WithdrawStakeItem> = Vec::new();
            let mut k: usize = i;
            while k < withdraw_stake_items.len()
                invariant
                    i <= k <= withdraw_stake_items.len(),
                    w@ == withdraw_stake_items@.subrange(i as int, k as int),
                decreases withdraw_stake_items.len() - k,
            {
                w.push(withdraw_stake_items[k]);
                k += 1;
                assert(w@ =~= withdraw_stake_items@.subrange(i as int, k as int));
            }
            (true, Some(UnstakeLSTCommand {
                state: UnstakeLSTCommandState::Execute { items: e, withdraw_sol: false, withdraw_stake_items: w },
            }))
        },
    }
}

/// The accounts a resumed `Execute` step needs, from the accounts this step
/// was handed (`given`, each with whether it is written): the thirteen fixed
/// accounts (the fund's reserve account through the stake program), then the
/// fund stake accounts and then the validator stake accounts of the
/// withdrawals from `resume_index` on.
pub fn resumed_withdraw_accounts(given: &Vec<OperationCommandAccountMeta>, num_items: usize, resume_index: usize)
    -> (r: Vec<OperationCommandAccountMeta>)
    requires
        13 + 2 * num_items <= given.len(),
        resume_index <= num_items,
    ensures
        r@ == given@.subrange(0, 13)
            + given@.subrange(13 + resume_index, 13 + num_items)
            + given@.subrange(13 + num_items + resume_index, 13 + 2 * num_items),
{
    let mut r: Vec<OperationCommandAccountMeta> = Vec::new();
    let mut k: usize = 0;
    while k < 13
        invariant
            k <= 13,
            13 + 2 * num_items <= given.len(),
            r@ == given@.subrange(0, k as int),
        decreases 13 - k,
    {
        r.push(given[k]);
        k += 1;
        assert(r@ =~= given@.subrange(0, k as int));
    }
    let ghost head = r@;
    let mut k: usize = 13 + resume_index;
    while k < 13 + num_items
        invariant
            13 + resume_index <= k <= 13 + num_items,
            13 + 2 * num_items <= given.len(),
            r@ == head + given@.subrange(13 + resume_index, k as int),
        decreases 13 + num_items - k,
    {
        r.push(given[k]);
        k += 1;
        assert(r@ =~= head + given@.subrange(13 + resume_index, k as int));
    }
    let ghost mid = r@;
    let mut k: usize = 13 + num_items + resume_index;
    while k < 13 + 2 * num_items
        invariant
            13 + num_items + resume_index <= k <= 13 + 2 * num_items,
            13 + 2 * num_items <= given.len(),
            r@ == mid + given@.subrange(13 + num_items + resume_index, k as int),
        decreases 13 + 2 * num_items - k,
    {
        r.push(given[k]);
        k += 1;
        assert(r@ =~= mid + given@.subrange(13 + num_items + resume_index, k as int));
    }
    r
}

/// How the `Execute` step unstakes the current item's token.
#[derive(Clone, Copy, PartialEq, Eq, Structural, Debug)]
pub enum UnstakeRoute {
    /// Withdraw SOL and/or stake from an SPL or Sanctum pool.
    WithdrawSolOrStake,
    /// Order an unstake from the Marinade pool, at once.
    OrderUnstake,
}

/// The `Execute` step's route by the token's pool: SPL and Sanctum pools
/// withdraw SOL or stake; Marinade orders an unstake and takes no stake
/// withdrawals (any are refused); a token from anything else cannot be
/// unstaked.
pub fn execute_route(source: &Option<TokenPricingSource>, num_withdraw_stake_items: usize) -> (r: Result<UnstakeRoute, ErrorCode>)
    ensures
        r == (match *source {
            Some(TokenPricingSource::SPLStakePool { .. })
            | Some(TokenPricingSource::SanctumSingleValidatorSPLStakePool { .. })
            | Some(TokenPricingSource::SanctumMultiValidatorSPLStakePool { .. }) => Ok(UnstakeRoute::WithdrawSolOrStake),
            Some(TokenPricingSource::MarinadeStakePool { .. }) =>
                if num_withdraw_stake_items == 0 { Ok(UnstakeRoute::OrderUnstake) } else { Err(ErrorCode::RequireEqViolated) },
            _ => Err(ErrorCode::FundOperationCommandExecutionFailedException),
        }),
{
    match source {
        Some(TokenPricingSource::SPLStakePool { .. })
        | Some(TokenPricingSource::SanctumSingleValidatorSPLStakePool { .. })
        | Some(TokenPricingSource::SanctumMultiValidatorSPLStakePool { .. }) => Ok(UnstakeRoute::WithdrawSolOrStake),
        Some(TokenPricingSource::MarinadeStakePool { .. }) => {
            if num_withdraw_stake_items == 0 { Ok(UnstakeRoute::OrderUnstake) } else { Err(ErrorCode::RequireEqViolated) }
        },
        _ => Err(ErrorCode::FundOperationCommandExecutionFailedException),
    }
}

/// The SPL pool fee check of the step: the burnt tokens less the tokens the
/// withdrawn SOL is worth is the fee, up to one unit of rounding.
pub fn spl_withdraw_fee_is_consistent(burnt: u64, withdrawn_sol_as_token: u64, deducted_pool_token_fee: u64) -> (r: bool)
    ensures
        ({
            let expected: int = if burnt > withdrawn_sol_as_token { burnt - withdrawn_sol_as_token } else { 0 };
            r == ((if expected > deducted_pool_token_fee { expected - deducted_pool_token_fee } else { deducted_pool_token_fee - expected }) <= 1)
        }),
{
    let expected = burnt.saturating_sub(withdrawn_sol_as_token);
    let diff = if expected > deducted_pool_token_fee { expected - deducted_pool_token_fee } else { deducted_pool_token_fee - expected };
    diff <= 1
}

/// The Marinade fee check: the fee may not exceed what the burnt tokens are
/// worth less the SOL that is being unstaked.
pub fn marinade_fee_is_consistent(allocated_as_sol: u64, unstaking_sol_amount: u64, deducted_sol_fee_amount: u64) -> (r: bool)
    ensures
        r == ((if allocated_as_sol > unstaking_sol_amount { allocated_as_sol - unstaking_sol_amount } else { 0 }) >= deducted_sol_fee_amount),
{
    allocated_as_sol.saturating_sub(unstaking_sol_amount) >= deducted_sol_fee_amount
}

/// The fund's bookkeeping that an unstaking changes.
#[derive(Clone, Copy, PartialEq, Eq, Structural, Debug)]
pub struct UnstakeBook {
    pub sol_operation_reserved_amount: u64,
    pub sol_operation_receivable_amount: u64,
    /// The rest of the fund's total reserved SOL.
    pub sol_other_reserved_amount: u64,
    pub token_operation_reserved_amount: u64,
    pub pending_unstaking_amount_as_sol: u64,
}

/// What an unstaking produced.
#[derive(Clone, Copy, PartialEq, Eq, Structural, Debug)]
pub struct UnstakeOutcome {
    /// The fund reserve's lamports after the unstaking.
    pub to_sol_account_amount: u64,
    pub burnt_token_amount: u64,
    pub unstaked_sol_amount: u64,
    pub unstaking_sol_amount: u64,
    pub deducted_sol_fee_amount: u64,
}

/// The bookkeeping after an unstaking.
pub open spec fn spec_apply_unstake(book: UnstakeBook, o: UnstakeOutcome) -> UnstakeBook {
    UnstakeBook {
        sol_operation_reserved_amount: (book.sol_operation_reserved_amount + o.unstaked_sol_amount) as u64,
        sol_operation_receivable_amount: (book.sol_operation_receivable_amount + o.unstaking_sol_amount + o.deducted_sol_fee_amount) as u64,
        sol_other_reserved_amount: book.sol_other_reserved_amount,
        token_operation_reserved_amount: (book.token_operation_reserved_amount - o.burnt_token_amount) as u64,
        pending_unstaking_amount_as_sol: (book.pending_unstaking_amount_as_sol + o.unstaking_sol_amount) as u64,
    }
}

/// The bookkeeping of an unstaking: unstaked SOL joins the reserve, SOL
/// still unstaking and the fee become receivable, the burnt tokens leave the
/// token's reserve. Refused when the fund reserve holds fewer lamports than
/// the fund's total reserved SOL.
pub fn apply_unstake(book: UnstakeBook, o: UnstakeOutcome, token_mint: Pubkey) -> (r: Result<(UnstakeBook, UnstakeLSTCommandResult), ErrorCode>)
    requires
        book.sol_operation_reserved_amount + o.unstaked_sol_amount + book.sol_other_reserved_amount <= u64::MAX,
        book.sol_operation_receivable_amount + o.unstaking_sol_amount + o.deducted_sol_fee_amount <= u64::MAX,
        o.burnt_token_amount <= book.token_operation_reserved_amount,
        book.pending_unstaking_amount_as_sol + o.unstaking_sol_amount <= u64::MAX,
    ensures
        ({
            let nb = spec_apply_unstake(book, o);
            &&& o.to_sol_account_amount >= nb.sol_operation_reserved_amount + nb.sol_other_reserved_amount ==>
                r == Ok::<(UnstakeBook, UnstakeLSTCommandResult), ErrorCode>((nb, UnstakeLSTCommandResult {
                    token_mint,
                    burnt_token_amount: o.burnt_token_amount,
                    deducted_sol_fee_amount: o.deducted_sol_fee_amount,
                    unstaked_sol_amount: o.unstaked_sol_amount,
                    unstaking_sol_amount: o.unstaking_sol_amount,
                    total_unstaking_sol_amount: nb.pending_unstaking_amount_as_sol,
                    operation_reserved_sol_amount: nb.sol_operation_reserved_amount,
                    operation_receivable_sol_amount: nb.sol_operation_receivable_amount,
                    operation_reserved_token_amount: nb.token_operation_reserved_amount,
                }))
            &&& o.to_sol_account_amount < nb.sol_operation_reserved_amount + nb.sol_other_reserved_amount ==>
                r == Err::<(UnstakeBook, UnstakeLSTCommandResult), ErrorCode>(ErrorCode::RequireGteViolated)
        }),
        r matches Ok((nb, res)) ==> {
            &&& nb.token_operation_reserved_amount + o.burnt_token_amount == book.token_operation_reserved_amount
            &&& nb.sol_operation_reserved_amount == book.sol_operation_reserved_amount + o.unstaked_sol_amount
            &&& nb.sol_operation_receivable_amount
                == book.sol_operation_receivable_amount + o.unstaking_sol_amount + o.deducted_sol_fee_amount
            &&& nb.pending_unstaking_amount_as_sol == book.pending_unstaking_amount_as_sol + o.unstaking_sol_amount
            &&& nb.sol_other_reserved_amount == book.sol_other_reserved_amount
            &&& o.to_sol_account_amount >= nb.sol_operation_reserved_amount + nb.sol_other_reserved_amount
            &&& res.token_mint == token_mint && res.burnt_token_amount == o.burnt_token_amount
            &&& res.operation_reserved_token_amount == nb.token_operation_reserved_amount
            &&& res.operation_reserved_sol_amount == nb.sol_operation_reserved_amount
            &&& res.operation_receivable_sol_amount == nb.sol_operation_receivable_amount
            &&& res.total_unstaking_sol_amount == nb.pending_unstaking_amount_as_sol
        },
{
    let nb = UnstakeBook {
        sol_operation_reserved_amount: book.sol_operation_reserved_amount + o.unstaked_sol_amount,
        sol_operation_receivable_amount: book.sol_operation_receivable_amount + o.unstaking_sol_amount + o.deducted_sol_fee_amount,
        sol_other_reserved_amount: book.sol_other_reserved_amount,
        token_operation_reserved_amount: book.token_operation_reserved_amount - o.burnt_token_amount,
        pending_unstaking_amount_as_sol: book.pending_unstaking_amount_as_sol + o.unstaking_sol_amount,
    };
    if o.to_sol_account_amount < nb.sol_operation_reserved_amount + nb.sol_other_reserved_amount {
        return Err(ErrorCode::RequireGteViolated);
    }
    Ok((nb, UnstakeLSTCommandResult {
        token_mint,
        burnt_token_amount: o.burnt_token_amount,
        deducted_sol_fee_amount: o.deducted_sol_fee_amount,
        unstaked_sol_amount: o.unstaked_sol_amount,
        unstaking_sol_amount: o.unstaking_sol_amount,
        total_unstaking_sol_amount: nb.pending_unstaking_amount_as_sol,
        operation_reserved_sol_amount: nb.sol_operation_reserved_amount,
        operation_receivable_sol_amount: nb.sol_operation_receivable_amount,
        operation_reserved_token_amount: nb.token_operation_reserved_amount,
    }))
}

/// An unstaking moves value, it creates none: the burnt pool tokens leave the
/// token's reserve, the unstaked SOL joins the SOL reserve, the SOL still
/// unstaking and the fee become receivable, and the SOL still unstaking is
/// pending for the token; the rest of the reserve is untouched.
pub proof fn lemma_unstake_conserves(book: UnstakeBook, o: UnstakeOutcome)
    requires
        book.sol_operation_reserved_amount + o.unstaked_sol_amount <= u64::MAX,
        book.sol_operation_receivable_amount + o.unstaking_sol_amount + o.deducted_sol_fee_amount <= u64::MAX,
        o.burnt_token_amount <= book.token_operation_reserved_amount,
        book.pending_unstaking_amount_as_sol + o.unstaking_sol_amount <= u64::MAX,
    ensures
        ({
            let nb = spec_apply_unstake(book, o);
            &&& nb.token_operation_reserved_amount + o.burnt_token_amount == book.token_operation_reserved_amount
            &&& nb.sol_operation_reserved_amount == book.sol_operation_reserved_amount + o.unstaked_sol_amount
            &&& nb.sol_operation_receivable_amount
                == book.sol_operation_receivable_amount + o.unstaking_sol_amount + o.deducted_sol_fee_amount
            &&& nb.pending_unstaking_amount_as_sol == book.pending_unstaking_amount_as_sol + o.unstaking_sol_amount
            &&& nb.sol_other_reserved_amount == book.sol_other_reserved_amount
        }),
{
}

/// After an item the command prepares the rest.
pub fn remaining_items(items: &Vec<UnstakeLSTCommandItem>) -> (r: Vec<UnstakeLSTCommandItem>)
    ensures
        items.len() > 0 ==> r@ == items@.drop_first(),
        items.len() == 0 ==> r@ == Seq::<UnstakeLSTCommandItem>::empty(),
{
    skip_first(items)
}

} // verus!
