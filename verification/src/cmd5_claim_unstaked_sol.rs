use vstd::prelude::*;
use crate::errors::ErrorCode;
use crate::iteration::{contains_key, keys_match_from, skip_first};
use crate::pricing::{is_stake_pool, stake_pool_address, TokenPricingSource};
use crate::pubkey::Pubkey;

verus! {

/// Where the SOL claim stands; each state works on the first pool token mint.
#[derive(Clone, Debug)]
pub enum ClaimUnstakedSOLCommandState {
    New,
    Prepare { pool_token_mints: Vec<Pubkey> },
    GetClaimableStakeAccounts { pool_token_mints: Vec<Pubkey> },
    Execute { pool_token_mints: Vec<Pubkey>, claimable_stake_account_indices: Vec<u8> },
}

/// Claims the SOL that stake pools have finished unstaking.
#[derive(Clone, Debug)]
pub struct ClaimUnstakedSOLCommand {
    pub state: ClaimUnstakedSOLCommandState,
}

impl Default for ClaimUnstakedSOLCommand {
    fn default() -> (r: Self)
        ensures
            r.state is New,
    {
        ClaimUnstakedSOLCommand { state: ClaimUnstakedSOLCommandState::New }
    }
}

/// An asset receivable offset by a claim.
#[derive(Clone, Copy, PartialEq, Eq, Structural, Debug)]
pub struct ClaimUnstakedSOLCommandResultAssetReceivable {
    pub asset_token_mint: Option<Pubkey>,
    pub asset_amount: u64,
}

/// What a claim did.
#[derive(Clone, Debug)]
pub struct ClaimUnstakedSOLCommandResult {
    pub token_mint: Pubkey,
    pub claimed_sol_amount: u64,
    pub total_unstaking_sol_amount: u64,
    pub transferred_sol_revenue_amount: u64,
    pub offsetted_sol_receivable_amount: u64,
    pub offsetted_asset_receivables: Vec<ClaimUnstakedSOLCommandResultAssetReceivable>,
    pub operation_reserved_sol_amount: u64,
    pub operation_receivable_sol_amount: u64,
}

/// The pool tokens with SOL still unstaking, in the order of the supported tokens.
pub open spec fn spec_unstaking_mints(tokens: Seq<(Pubkey, u64)>) -> Seq<Pubkey>
    decreases tokens.len(),
{
    if tokens.len() == 0 {
        Seq::empty()
    } else {
        let prev = spec_unstaking_mints(tokens.drop_last());
        if tokens.last().1 > 0 { prev.push(tokens.last().0) } else { prev }
    }
}

/// The mints to claim from are those of the supported tokens with SOL still
/// unstaking, in their order: the returned positions pick, for each mint, the
/// token it belongs to; they increase; and every token with SOL pending is
/// picked.
pub proof fn lemma_unstaking_mints_are_the_pending_tokens(tokens: Seq<(Pubkey, u64)>) -> (positions: Seq<int>)
    ensures
        ({
            let items = spec_unstaking_mints(tokens);
            &&& positions.len() == items.len()
            &&& forall|k: int| 0 <= k < positions.len() ==> {
                &&& 0 <= #[trigger] positions[k] < tokens.len()
                &&& items[k] == tokens[positions[k]].0
            }
            &&& forall|k1: int, k2: int| 0 <= k1 < k2 < positions.len() ==> #[trigger] positions[k1] < #[trigger] positions[k2]
            &&& forall|j: int| 0 <= j < tokens.len() ==>
                (tokens[j].1 > 0 <==> exists|k: int| 0 <= k < positions.len() && positions[k] == j)
        }),
    decreases tokens.len(),
{
    if tokens.len() == 0 {
        Seq::empty()
    } else {
        let n = tokens.len() - 1;
        let rest = tokens.drop_last();
        let prev = spec_unstaking_mints(rest);
        let items = spec_unstaking_mints(tokens);
        let prev_positions = lemma_unstaking_mints_are_the_pending_tokens(rest);
        assert forall|i: int| 0 <= i < n implies rest[i] == tokens[i] by {}
        if tokens[n].1 > 0 {
            let positions = prev_positions.push(n);
            assert(items.len() == prev.len() + 1);
            assert forall|k: int| 0 <= k < positions.len() implies {
                &&& 0 <= #[trigger] positions[k] < tokens.len()
                &&& items[k] == tokens[positions[k]].0
            } by {
                if k < prev_positions.len() {
                    assert(positions[k] == prev_positions[k]);
                    assert(items[k] == prev[k]);
                } else {
                    assert(positions[k] == n);
                }
            }
            assert forall|j: int| 0 <= j < tokens.len() implies
                (tokens[j].1 > 0 <==> exists|k: int| 0 <= k < positions.len() && positions[k] == j) by {
                if j < n {
                    if tokens[j].1 > 0 {
                        assert(rest[j].1 > 0);
                        let k = choose|k: int| 0 <= k < prev_positions.len() && prev_positions[k] == j;
                        assert(positions[k] == j);
                    }
                    if exists|k: int| 0 <= k < positions.len() && positions[k] == j {
                        let k = choose|k: int| 0 <= k < positions.len() && positions[k] == j;
                        assert(k < prev_positions.len());
                        assert(prev_positions[k] == j);
                        assert(rest[j].1 > 0);
                    }
                } else {
                    assert(positions[prev_positions.len() as int] == j);
                }
            }
            positions
        } else {
            assert(items == prev);
            assert forall|j: int| 0 <= j < tokens.len() implies
                (tokens[j].1 > 0 <==> exists|k: int| 0 <= k < prev_positions.len() && prev_positions[k] == j) by {
                if j < n {
                    assert(rest[j] == tokens[j]);
                } else {
                    if exists|k: int| 0 <= k < prev_positions.len() && prev_positions[k] == j {
                        let k = choose|k: int| 0 <= k < prev_positions.len() && prev_positions[k] == j;
                        assert(prev_positions[k] < rest.len());
                    }
                }
            }
            prev_positions
        }
    }
}

impl ClaimUnstakedSOLCommand {
    /// The `New` step: the supported tokens (mint, pending unstaking SOL) with something pending.
    pub fn unstaking_mints(tokens: &Vec<(Pubkey, u64)>) -> (r: Vec<Pubkey>)
        ensures
            r@ == spec_unstaking_mints(tokens@),
    {
        let mut r: Vec<Pubkey> = Vec::new();
        let mut i: usize = 0;
        while i < tokens.len()
            invariant
                i <= tokens.len(),
                r@ == spec_unstaking_mints(tokens@.take(i as int)),
            decreases tokens.len() - i,
        {
            assert(tokens@.take(i as int + 1).drop_last() =~= tokens@.take(i as int));
            let (mint, pending) = tokens[i];
            if pending > 0 {
                r.push(mint);
            }
            i += 1;
        }
        assert(tokens@.take(tokens.len() as int) =~= tokens@);
        r
    }

    /// The `Prepare` step: SPL and Sanctum pools look for claimable stake
    /// accounts first, Marinade goes straight to `Execute` (with no stake
    /// accounts); the pool's account must be among the accounts handed over;
    /// other tokens, or a missing pool account, fail; no mints left means
    /// claiming is done.
    pub fn prepare(pool_token_mints: Vec<Pubkey>, first_pricing_source: Option<TokenPricingSource>, account_keys: &Vec<Pubkey>)
        -> (r: Result<Option<ClaimUnstakedSOLCommand>, ErrorCode>)
        ensures
            pool_token_mints.len() == 0 ==> r == Ok::<Option<ClaimUnstakedSOLCommand>, ErrorCode>(None),
            pool_token_mints.len() > 0 && !(is_stake_pool(first_pricing_source)
                && account_keys@.contains(stake_pool_address(first_pricing_source))) ==>
                r == Err::<Option<ClaimUnstakedSOLCommand>, ErrorCode>(ErrorCode::FundOperationCommandExecutionFailedException),
            pool_token_mints.len() > 0 && account_keys@.contains(stake_pool_address(first_pricing_source))
                && (first_pricing_source matches Some(TokenPricingSource::MarinadeStakePool { .. })) ==>
                (r matches Ok(Some(c)) && c.state matches ClaimUnstakedSOLCommandState::Execute { pool_token_mints: m, claimable_stake_account_indices: ix }
                    && m@ == pool_token_mints@ && ix.len() == 0),
            pool_token_mints.len() > 0 && is_stake_pool(first_pricing_source)
                && account_keys@.contains(stake_pool_address(first_pricing_source))
                && !(first_pricing_source matches Some(TokenPricingSource::MarinadeStakePool { .. })) ==>
                (r matches Ok(Some(c)) && c.state matches ClaimUnstakedSOLCommandState::GetClaimableStakeAccounts { pool_token_mints: m }
                    && m@ == pool_token_mints@),
    {
        if pool_token_mints.len() == 0 {
            return Ok(None);
        }
        let address = match first_pricing_source {
            Some(TokenPricingSource::SPLStakePool { address })
            | Some(TokenPricingSource::MarinadeStakePool { address })
            | Some(TokenPricingSource::SanctumSingleValidatorSPLStakePool { address })
            | Some(TokenPricingSource::SanctumMultiValidatorSPLStakePool { address }) => address,
            _ => return Err(ErrorCode::FundOperationCommandExecutionFailedException),
        };
        if !contains_key(account_keys, address) {
            return Err(ErrorCode::FundOperationCommandExecutionFailedException);
        }
        match first_pricing_source {
            Some(TokenPricingSource::MarinadeStakePool { .. }) => Ok(Some(ClaimUnstakedSOLCommand {
                state: ClaimUnstakedSOLCommandState::Execute { pool_token_mints, claimable_stake_account_indices: Vec::new() },
            })),
            _ => Ok(Some(ClaimUnstakedSOLCommand {
                state: ClaimUnstakedSOLCommandState::GetClaimableStakeAccounts { pool_token_mints },
            })),
        }
    }

    /// The account checks of the `GetClaimableStakeAccounts` step: the clock
    /// and the stake history, then the fund's five stake accounts of the pool,
    /// each at its expected address.
    pub fn check_claimable_stake_accounts(account_keys: &Vec<Pubkey>, fund_stake_accounts: &Vec<Pubkey>) -> (r: Result<(), ErrorCode>)
        requires
            fund_stake_accounts.len() == 5,
        ensures
            r == (if account_keys.len() < 7 {
                Err(ErrorCode::AccountNotEnoughKeys)
            } else if account_keys@.subrange(2, 7) != fund_stake_accounts@ {
                Err(ErrorCode::RequireKeysEqViolated)
            } else {
                Ok(())
            }),
    {
        if account_keys.len() < 7 {
            return Err(ErrorCode::AccountNotEnoughKeys);
        }
        let matched = keys_match_from(account_keys, 2, fund_stake_accounts, 5);
        assert(fund_stake_accounts@.take(5) =~= fund_stake_accounts@);
        if !matched {
            return Err(ErrorCode::RequireKeysEqViolated);
        }
        Ok(())
    }

    /// The account checks of the `Execute` step on an SPL or Sanctum pool: the
    /// fund's reserve and treasury, the clock, the stake history and the stake
    /// program, then one stake account per claimable index, each at the
    /// address of the fund's stake account of that index.
    pub fn check_spl_claim_accounts(account_keys: &Vec<Pubkey>, claimable_stake_accounts: &Vec<Pubkey>) -> (r: Result<(), ErrorCode>)
        ensures
            r == (if account_keys.len() < 5 + claimable_stake_accounts.len() {
                Err(ErrorCode::AccountNotEnoughKeys)
            } else if account_keys@.subrange(5, 5 + claimable_stake_accounts.len()) != claimable_stake_accounts@ {
                Err(ErrorCode::RequireKeysEqViolated)
            } else {
                Ok(())
            }),
    {
        if account_keys.len() < 5 || account_keys.len() - 5 < claimable_stake_accounts.len() {
            return Err(ErrorCode::AccountNotEnoughKeys);
        }
        let n = claimable_stake_accounts.len();
        let matched = keys_match_from(account_keys, 5, claimable_stake_accounts, n);
        assert(claimable_stake_accounts@.take(n as int) =~= claimable_stake_accounts@);
        if !matched {
            return Err(ErrorCode::RequireKeysEqViolated);
        }
        Ok(())
    }

    /// The account checks of the `Execute` step on a Marinade pool: eight
    /// accounts (the pool account fourth, the pool token mint fifth), then the
    /// fund's five withdrawal tickets. The tickets are looked at in order until
    /// the claim stops, at the second initialized one (`initialized` tells
    /// which are); each looked at must be at its expected address.
    pub fn check_marinade_claim_accounts(
        account_keys: &Vec<Pubkey>,
        pool_account: Pubkey,
        pool_token_mint: Pubkey,
        withdrawal_tickets: &Vec<Pubkey>,
        initialized: &Vec<bool>,
    ) -> (r: Result<(), ErrorCode>)
        requires
            withdrawal_tickets.len() == 5,
            initialized.len() == 5,
        ensures
            r == (if account_keys.len() < 13 {
                Err(ErrorCode::AccountNotEnoughKeys)
            } else if account_keys@[3] != pool_account || account_keys@[4] != pool_token_mint
                || account_keys@.subrange(8, 8 + spec_looked_at_tickets(initialized@, false) as int)
                    != withdrawal_tickets@.take(spec_looked_at_tickets(initialized@, false) as int) {
                Err(ErrorCode::RequireKeysEqViolated)
            } else {
                Ok(())
            }),
    {
        if account_keys.len() < 13 {
            return Err(ErrorCode::AccountNotEnoughKeys);
        }
        if account_keys[3] != pool_account || account_keys[4] != pool_token_mint {
            return Err(ErrorCode::RequireKeysEqViolated);
        }
        let count = looked_at_tickets(initialized);
        if !keys_match_from(account_keys, 8, withdrawal_tickets, count) {
            return Err(ErrorCode::RequireKeysEqViolated);
        }
        Ok(())
    }

    /// After `Execute`: the same mints again when the claim has to resume in
    /// the next transaction, the rest otherwise.
    pub fn next_pool_token_mints(pool_token_mints: &Vec<Pubkey>, should_resume: bool) -> (r: Vec<Pubkey>)
        ensures
            should_resume ==> r@ == pool_token_mints@,
            !should_resume && pool_token_mints.len() > 0 ==> r@ == pool_token_mints@.drop_first(),
            !should_resume && pool_token_mints.len() == 0 ==> r@ == Seq::<Pubkey>::empty(),
    {
        if should_resume {
            pool_token_mints.clone()
        } else {
            skip_first(pool_token_mints)
        }
    }
}

/// How many of the tickets the Marinade claim looks at: up to and including
/// the second initialized one, or all of them (`seen`: an initialized ticket
/// came before).
pub open spec fn spec_looked_at_tickets(initialized: Seq<bool>, seen: bool) -> nat
    decreases initialized.len(),
{
    if initialized.len() == 0 {
        0
    } else if initialized[0] && seen {
        1
    } else {
        1 + spec_looked_at_tickets(initialized.drop_first(), seen || initialized[0])
    }
}

proof fn lemma_looked_at_tickets_le(initialized: Seq<bool>, seen: bool)
    ensures
        spec_looked_at_tickets(initialized, seen) <= initialized.len(),
    decreases initialized.len(),
{
    if initialized.len() > 0 {
        lemma_looked_at_tickets_le(initialized.drop_first(), seen || initialized[0]);
    }
}

/// Counts the tickets the Marinade claim looks at.
pub fn looked_at_tickets(initialized: &Vec<bool>) -> (r: usize)
    ensures
        r == spec_looked_at_tickets(initialized@, false),
        r <= initialized.len(),
{
    proof { lemma_looked_at_tickets_le(initialized@, false); }
    let mut i: usize = 0;
    let mut seen = false;
    assert(initialized@.skip(0) =~= initialized@);
    while i < initialized.len()
        invariant
            i <= initialized.len(),
            spec_looked_at_tickets(initialized@, false) == i + spec_looked_at_tickets(initialized@.skip(i as int), seen),
            seen == (exists|j: int| 0 <= j < i && initialized@[j]),
        decreases initialized.len() - i,
    {
        assert(initialized@.skip(i as int).drop_first() =~= initialized@.skip(i as int + 1));
        if initialized[i] && seen {
            return i + 1;
        }
        if initialized[i] {
            assert(initialized@[i as int]);
        }
        seen = seen || initialized[i];
        i += 1;
    }
    assert(initialized@.skip(i as int).len() == 0);
    i
}

/// Marinade tickets are claimed one per transaction: the first initialized
/// ticket is claimed, and the claim resumes later when another initialized
/// ticket follows it.
pub fn marinade_claim_plan(initialized: &Vec<bool>) -> (r: (Option<usize>, bool))
    ensures
        r.0 is None ==> !r.1 && forall|j: int| 0 <= j < initialized.len() ==> !initialized@[j],
        r.0 matches Some(i) ==> i < initialized.len() && initialized@[i as int]
            && (forall|j: int| 0 <= j < i ==> !initialized@[j])
            && r.1 == (exists|j: int| i < j < initialized.len() && initialized@[j]),
{
    let mut i: usize = 0;
    while i < initialized.len()
        invariant
            i <= initialized.len(),
            forall|j: int| 0 <= j < i ==> !initialized@[j],
        decreases initialized.len() - i,
    {
        if initialized[i] {
            let mut k: usize = i + 1;
            while k < initialized.len()
                invariant
                    i < k <= initialized.len(),
                    initialized@[i as int],
                    forall|j: int| 0 <= j < i ==> !initialized@[j],
                    forall|j: int| i < j < k ==> !initialized@[j],
                decreases initialized.len() - k,
            {
                if initialized[k] {
                    return (Some(i), true);
                }
                k += 1;
            }
            return (Some(i), false);
        }
        i += 1;
    }
    (None, false)
}

/// Adds up the SOL claimed from the stake accounts (or tickets) in order.
pub fn total_claimed(claimed: &Vec<u64>) -> (r: u64)
    requires
        crate::cmd9_unrestake_vrt::seq_sum(claimed@) <= u64::MAX,
    ensures
        r == crate::cmd9_unrestake_vrt::seq_sum(claimed@),
{
    let mut t: u64 = 0;
    let mut i: usize = 0;
    while i < claimed.len()
        invariant
            i <= claimed.len(),
            crate::cmd9_unrestake_vrt::seq_sum(claimed@) <= u64::MAX,
            t == crate::cmd9_unrestake_vrt::seq_sum(claimed@.take(i as int)),
        decreases claimed.len() - i,
    {
        assert(claimed@.take(i as int + 1).drop_last() =~= claimed@.take(i as int));
        proof { lemma_seq_sum_prefix(claimed@, i as int + 1); }
        t = t + claimed[i];
        i += 1;
    }
    assert(claimed@.take(claimed.len() as int) =~= claimed@);
    t
}

proof fn lemma_seq_sum_prefix(s: Seq<u64>, k: int)
    requires
        0 <= k <= s.len(),
    ensures
        crate::cmd9_unrestake_vrt::seq_sum(s.take(k)) <= crate::cmd9_unrestake_vrt::seq_sum(s),
    decreases s.len() - k,
{
    if k < s.len() {
        lemma_seq_sum_prefix(s, k + 1);
        assert(s.take(k + 1).drop_last() =~= s.take(k));
    } else {
        assert(s.take(k) =~= s);
    }
}

/// After a claim of `claimed_sol_amount`: no result when nothing was claimed;
/// otherwise the token's pending unstaking SOL drops by the claim (not below
/// zero), refused when the fund reserve holds fewer lamports than the fund's
/// total reserved SOL. Returns the new pending amount.
pub fn settle_claim(claimed_sol_amount: u64, pending_unstaking_amount_as_sol: u64, to_sol_account_amount: u64, sol_total_reserved_amount: u64)
    -> (r: Result<Option<u64>, ErrorCode>)
    ensures
        claimed_sol_amount == 0 ==> r == Ok::<Option<u64>, ErrorCode>(None),
        claimed_sol_amount != 0 && to_sol_account_amount < sol_total_reserved_amount ==>
            r == Err::<Option<u64>, ErrorCode>(ErrorCode::RequireGteViolated),
        claimed_sol_amount != 0 && to_sol_account_amount >= sol_total_reserved_amount ==>
            r == Ok::<Option<u64>, ErrorCode>(Some((if pending_unstaking_amount_as_sol > claimed_sol_amount {
                pending_unstaking_amount_as_sol - claimed_sol_amount
            } else {
                0
            }) as u64)),
{
    if claimed_sol_amount == 0 {
        return Ok(None);
    }
    if to_sol_account_amount < sol_total_reserved_amount {
        return Err(ErrorCode::RequireGteViolated);
    }
    Ok(Some(pending_unstaking_amount_as_sol.saturating_sub(claimed_sol_amount)))
}

} // verus!
