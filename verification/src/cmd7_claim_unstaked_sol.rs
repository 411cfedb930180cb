use vstd::prelude::*;
use crate::errors::ErrorCode;
use crate::iteration::{contains_key, keys_match_from, skip_first};
use crate::pricing::{stake_pool_address, TokenPricingSource};
use crate::pubkey::Pubkey;

verus! {

/// A supported token whose pool may owe the fund SOL.
#[derive(Clone, Copy, PartialEq, Eq, Structural, Debug)]
pub struct ClaimUnstakedSOLCommandItem {
    pub token_mint: Pubkey,
}

/// Where the SOL claim stands (the earlier form of the command, which looks at every supported token).
#[derive(Clone, Debug)]
pub enum ClaimUnstakedSOLCommandState {
    New,
    Prepare { items: Vec<ClaimUnstakedSOLCommandItem> },
    Execute { items: Vec<ClaimUnstakedSOLCommandItem> },
}

/// Claims the SOL that stake pools have finished unstaking.
#[derive(Clone, Debug)]
pub struct ClaimUnstakedSOLCommand {
    pub state: ClaimUnstakedSOLCommandState,
}

/// What a claim did.
#[derive(Clone, Copy, PartialEq, Eq, Structural, Debug)]
pub struct ClaimUnstakedSOLCommandResult {
    pub token_mint: Pubkey,
    pub claimed_sol_amount: u64,
    pub operation_reserved_sol_amount: u64,
    pub operation_receivable_sol_amount: u64,
}

/// A pool this command claims from: SPL, Marinade and single-validator Sanctum pools.
pub open spec fn is_claimable_pool(s: Option<TokenPricingSource>) -> bool {
    match s {
        Some(TokenPricingSource::SPLStakePool { .. }) => true,
        Some(TokenPricingSource::MarinadeStakePool { .. }) => true,
        Some(TokenPricingSource::SanctumSingleValidatorSPLStakePool { .. }) => true,
        _ => false,
    }
}

impl ClaimUnstakedSOLCommand {
    /// The `New` step: one item per supported token, in order.
    pub fn execute_init(mints: &Vec<Pubkey>) -> (r: Vec<ClaimUnstakedSOLCommandItem>)
        ensures
            r@ == mints@.map_values(|m: Pubkey| ClaimUnstakedSOLCommandItem { token_mint: m }),
    {
        let mut r: Vec<ClaimUnstakedSOLCommandItem> = Vec::new();
        let mut i: usize = 0;
        while i < mints.len()
            invariant
                i <= mints.len(),
                r@ == mints@.take(i as int).map_values(|m: Pubkey| ClaimUnstakedSOLCommandItem { token_mint: m }),
            decreases mints.len() - i,
        {
            r.push(ClaimUnstakedSOLCommandItem { token_mint: mints[i] });
            i += 1;
            assert(r@ =~= mints@.take(i as int).map_values(|m: Pubkey| ClaimUnstakedSOLCommandItem { token_mint: m }));
        }
        assert(mints@.take(mints.len() as int) =~= mints@);
        r
    }

    /// The `Prepare` step: `Execute` for the first item's pool, whose account
    /// must be among the accounts handed over; refused for a token from any
    /// other source or a missing pool account; no items means the claim is done.
    pub fn prepare(items: Vec<ClaimUnstakedSOLCommandItem>, first_pricing_source: Option<TokenPricingSource>, account_keys: &Vec<Pubkey>)
        -> (r: Result<Option<ClaimUnstakedSOLCommand>, ErrorCode>)
        ensures
            items.len() == 0 ==> r == Ok::<Option<ClaimUnstakedSOLCommand>, ErrorCode>(None),
            items.len() > 0 && !(is_claimable_pool(first_pricing_source)
                && account_keys@.contains(stake_pool_address(first_pricing_source))) ==>
                r == Err::<Option<ClaimUnstakedSOLCommand>, ErrorCode>(ErrorCode::FundOperationCommandExecutionFailedException),
            items.len() > 0 && is_claimable_pool(first_pricing_source)
                && account_keys@.contains(stake_pool_address(first_pricing_source)) ==>
                (r matches Ok(Some(c)) && c.state matches ClaimUnstakedSOLCommandState::Execute { items: e } && e@ == items@),
    {
        if items.len() == 0 {
            return Ok(None);
        }
        let address = match first_pricing_source {
            Some(TokenPricingSource::SPLStakePool { address })
            | Some(TokenPricingSource::MarinadeStakePool { address })
            | Some(TokenPricingSource::SanctumSingleValidatorSPLStakePool { address }) => address,
            _ => return Err(ErrorCode::FundOperationCommandExecutionFailedException),
        };
        if !contains_key(account_keys, address) {
            return Err(ErrorCode::FundOperationCommandExecutionFailedException);
        }
        Ok(Some(ClaimUnstakedSOLCommand { state: ClaimUnstakedSOLCommandState::Execute { items } }))
    }

    /// The account checks of the `Execute` step on an SPL or Sanctum pool: the
    /// fund's reserve, the clock, the stake history and the stake program, then
    /// the fund's five stake accounts of the pool, each at its expected address.
    pub fn check_spl_claim_accounts(account_keys: &Vec<Pubkey>, fund_stake_accounts: &Vec<Pubkey>) -> (r: Result<(), ErrorCode>)
        requires
            fund_stake_accounts.len() == 5,
        ensures
            r == (if account_keys.len() < 9 {
                Err(ErrorCode::AccountNotEnoughKeys)
            } else if account_keys@.subrange(4, 9) != fund_stake_accounts@ {
                Err(ErrorCode::RequireKeysEqViolated)
            } else {
                Ok(())
            }),
    {
        if account_keys.len() < 9 {
            return Err(ErrorCode::AccountNotEnoughKeys);
        }
        let matched = keys_match_from(account_keys, 4, fund_stake_accounts, 5);
        assert(fund_stake_accounts@.take(5) =~= fund_stake_accounts@);
        if !matched {
            return Err(ErrorCode::RequireKeysEqViolated);
        }
        Ok(())
    }

    /// The account checks of the `Execute` step on a Marinade pool: eight
    /// accounts (the pool account fourth, the item's token mint fifth), then
    /// the fund's five withdrawal tickets, each at its expected address.
    pub fn check_marinade_claim_accounts(account_keys: &Vec<Pubkey>, pool_account: Pubkey, token_mint: Pubkey, withdrawal_tickets: &Vec<Pubkey>)
        -> (r: Result<(), ErrorCode>)
        requires
            withdrawal_tickets.len() == 5,
        ensures
            r == (if account_keys.len() < 13 {
                Err(ErrorCode::AccountNotEnoughKeys)
            } else if account_keys@[3] != pool_account || account_keys@[4] != token_mint
                || account_keys@.subrange(8, 13) != withdrawal_tickets@ {
                Err(ErrorCode::RequireKeysEqViolated)
            } else {
                Ok(())
            }),
    {
        if account_keys.len() < 13 {
            return Err(ErrorCode::AccountNotEnoughKeys);
        }
        if account_keys[3] != pool_account || account_keys[4] != token_mint {
            return Err(ErrorCode::RequireKeysEqViolated);
        }
        let matched = keys_match_from(account_keys, 8, withdrawal_tickets, 5);
        assert(withdrawal_tickets@.take(5) =~= withdrawal_tickets@);
        if !matched {
            return Err(ErrorCode::RequireKeysEqViolated);
        }
        Ok(())
    }

    /// The items left after the first one.
    pub fn remaining_items(items: &Vec<ClaimUnstakedSOLCommandItem>) -> (r: Vec<ClaimUnstakedSOLCommandItem>)
        ensures
            items.len() > 0 ==> r@ == items@.drop_first(),
            items.len() == 0 ==> r@ == Seq::<ClaimUnstakedSOLCommandItem>::empty(),
    {
        skip_first(items)
    }
}

/// The claim over the fund's five stake accounts (or tickets): each
/// initialized one is claimed (its claimed SOL is `claimed[i]`), the others
/// are skipped. Returns the total and how many were claimed.
pub open spec fn spec_claims(initialized: Seq<bool>, claimed: Seq<u64>) -> (int, int)
    decreases initialized.len(),
{
    if initialized.len() == 0 {
        (0, 0)
    } else {
        let p = spec_claims(initialized.drop_last(), claimed);
        if initialized.last() { (p.0 + claimed[initialized.len() - 1], p.1 + 1) } else { p }
    }
}

proof fn lemma_claims_mono(initialized: Seq<bool>, claimed: Seq<u64>, k: int)
    requires
        0 <= k <= initialized.len(),
    ensures
        spec_claims(initialized.take(k), claimed).0 <= spec_claims(initialized, claimed).0,
        0 <= spec_claims(initialized.take(k), claimed).0,
        0 <= spec_claims(initialized.take(k), claimed).1 <= k,
    decreases initialized.len() - k,
{
    if k < initialized.len() {
        lemma_claims_mono(initialized, claimed, k + 1);
        assert(initialized.take(k + 1).drop_last() =~= initialized.take(k));
        lemma_claims_nonneg(initialized.take(k), claimed);
    } else {
        assert(initialized.take(k) =~= initialized);
        lemma_claims_nonneg(initialized, claimed);
    }
}

proof fn lemma_claims_nonneg(initialized: Seq<bool>, claimed: Seq<u64>)
    ensures
        0 <= spec_claims(initialized, claimed).0,
        0 <= spec_claims(initialized, claimed).1 <= initialized.len(),
    decreases initialized.len(),
{
    if initialized.len() > 0 {
        lemma_claims_nonneg(initialized.drop_last(), claimed);
    }
}

/// Adds up the claims; none when no account was claimed.
pub fn total_claims(initialized: &Vec<bool>, claimed: &Vec<u64>) -> (r: Option<u64>)
    requires
        initialized.len() == claimed.len(),
        spec_claims(initialized@, claimed@).0 <= u64::MAX,
    ensures
        spec_claims(initialized@, claimed@).1 == 0 ==> r is None,
        spec_claims(initialized@, claimed@).1 != 0 ==> r == Some(spec_claims(initialized@, claimed@).0 as u64),
{
    let mut total: u64 = 0;
    let mut count: usize = 0;
    let mut i: usize = 0;
    while i < initialized.len()
        invariant
            i <= initialized.len(),
            initialized.len() == claimed.len(),
            spec_claims(initialized@, claimed@).0 <= u64::MAX,
            (total as int, count as int) == spec_claims(initialized@.take(i as int), claimed@),
        decreases initialized.len() - i,
    {
        assert(initialized@.take(i as int + 1).drop_last() =~= initialized@.take(i as int));
        proof { lemma_claims_mono(initialized@, claimed@, i as int + 1); }
        if initialized[i] {
            total = total + claimed[i];
            count = count + 1;
        }
        i += 1;
    }
    assert(initialized@.take(initialized.len() as int) =~= initialized@);
    if count == 0 { None } else { Some(total) }
}

/// The bookkeeping of a claim: the claimed SOL moves from receivable to reserved.
pub fn apply_claim(sol_operation_reserved_amount: u64, sol_operation_receivable_amount: u64, total: u64, token_mint: Pubkey)
    -> (r: ClaimUnstakedSOLCommandResult)
    requires
        sol_operation_reserved_amount + total <= u64::MAX,
        total <= sol_operation_receivable_amount,
    ensures
        r == (ClaimUnstakedSOLCommandResult {
            token_mint,
            claimed_sol_amount: total,
            operation_reserved_sol_amount: (sol_operation_reserved_amount + total) as u64,
            operation_receivable_sol_amount: (sol_operation_receivable_amount - total) as u64,
        }),
        r.operation_reserved_sol_amount + r.operation_receivable_sol_amount
            == sol_operation_reserved_amount + sol_operation_receivable_amount,
{
    ClaimUnstakedSOLCommandResult {
        token_mint,
        claimed_sol_amount: total,
        operation_reserved_sol_amount: sol_operation_reserved_amount + total,
        operation_receivable_sol_amount: sol_operation_receivable_amount - total,
    }
}

} // verus!
