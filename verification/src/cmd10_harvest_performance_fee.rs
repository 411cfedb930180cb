use vstd::prelude::*;
use crate::cmd10_harvest_restaking_yield::HarvestRestakingYieldCommand;
use crate::errors::ErrorCode;
use crate::math::{get_proportional_amount, proportional};
use crate::operation_command::OperationCommandAccountMeta;
use crate::pricing::{is_stake_pool, is_unstakable_token, TokenPricingSource};
use crate::programs::{
    associated_token_address, associated_token_address_found, associated_token_program_id, get_associated_token_address_with_program_id,
    lamports_per_sol, system_program_id, token_2022_program_id,
};
use crate::pubkey::Pubkey;

verus! {

/// A performance fee below one SOL is not harvested.
pub const MINIMUM_PERFORMANCE_FEE_LAMPORTS: u64 = 1_000_000_000;

/// Where the performance fee harvest stands.
#[derive(Clone, Copy, PartialEq, Eq, Structural, Debug)]
pub enum HarvestPerformanceFeeState {
    New,
    Execute,
    Unused { unused: bool },
}

/// Mints the fund's performance fee, as receipt tokens, to the program revenue account.
#[derive(Clone, Copy, PartialEq, Eq, Structural, Debug)]
pub struct HarvestPerformanceFeeCommand {
    pub state: HarvestPerformanceFeeState,
}

impl Default for HarvestPerformanceFeeCommand {
    fn default() -> (r: Self)
        ensures
            r.state is New,
    {
        HarvestPerformanceFeeCommand { state: HarvestPerformanceFeeState::New }
    }
}

/// What the harvest did.
#[derive(Clone, Copy, PartialEq, Eq, Structural, Debug)]
pub struct HarvestPerformanceFeeCommandResult {
    pub receipt_token_mint: Pubkey,
    pub receipt_token_minted_amount: u64,
    pub one_receipt_token_as_sol_before_performance_fee_harvested: u64,
    pub one_receipt_token_as_sol_after_performance_fee_harvested: u64,
}

/// Whether every supported token, scanned in order up to the first one that
/// cannot be staked, is a stake pool token; a token of another kind seen
/// before that is a misconfigured fund.
pub open spec fn spec_all_stakable(sources: Seq<Option<TokenPricingSource>>) -> Result<bool, ErrorCode>
    decreases sources.len(),
{
    if sources.len() == 0 {
        Ok(true)
    } else if is_stake_pool(sources[0]) {
        spec_all_stakable(sources.drop_first())
    } else if is_unstakable_token(sources[0]) {
        Ok(false)
    } else {
        Err(ErrorCode::FundOperationCommandExecutionFailedException)
    }
}

impl HarvestPerformanceFeeCommand {
    /// Scans the supported tokens' pricing sources.
    pub fn all_supported_tokens_stakable(sources: &Vec<Option<TokenPricingSource>>) -> (r: Result<bool, ErrorCode>)
        ensures
            r == spec_all_stakable(sources@),
    {
        let mut i: usize = 0;
        assert(sources@.subrange(0, sources.len() as int) =~= sources@);
        while i < sources.len()
            invariant
                i <= sources.len(),
                spec_all_stakable(sources@) == spec_all_stakable(sources@.subrange(i as int, sources.len() as int)),
            decreases sources.len() - i,
        {
            let s = sources[i];
            assert(sources@.subrange(i as int, sources.len() as int).drop_first()
                =~= sources@.subrange(i as int + 1, sources.len() as int));
            match s {
                Some(TokenPricingSource::SPLStakePool { .. })
                | Some(TokenPricingSource::MarinadeStakePool { .. })
                | Some(TokenPricingSource::SanctumSingleValidatorSPLStakePool { .. })
                | Some(TokenPricingSource::SanctumMultiValidatorSPLStakePool { .. }) => {},
                Some(TokenPricingSource::OrcaDEXLiquidityPool { .. }) | Some(TokenPricingSource::PeggedToken { .. }) => {
                    return Ok(false);
                },
                _ => {
                    return Err(ErrorCode::FundOperationCommandExecutionFailedException);
                },
            }
            i += 1;
        }
        assert(sources@.subrange(sources.len() as int, sources.len() as int) =~= Seq::<Option<TokenPricingSource>>::empty());
        Ok(true)
    }

    /// The fee is harvestable when SOL is depositable or every supported
    /// token is stakable, and the receipt token's SOL value is above the
    /// high-water mark. With a zero fee rate the high-water mark first moves
    /// up to the current value (so nothing is ever harvested). Returns the
    /// decision and the (possibly moved) high-water mark.
    pub fn is_performance_fee_harvestable(
        sol_depositable: bool,
        all_supported_tokens_stakable: bool,
        performance_fee_rate_bps: u16,
        one_receipt_token_as_sol: u64,
        fee_harvested_one_receipt_token_as_sol: u64,
    ) -> (r: (bool, u64))
        ensures
            !(sol_depositable || all_supported_tokens_stakable) ==> r == (false, fee_harvested_one_receipt_token_as_sol),
            (sol_depositable || all_supported_tokens_stakable) && performance_fee_rate_bps == 0 ==>
                r == (false, one_receipt_token_as_sol),
            (sol_depositable || all_supported_tokens_stakable) && performance_fee_rate_bps != 0 ==>
                r == (fee_harvested_one_receipt_token_as_sol < one_receipt_token_as_sol, fee_harvested_one_receipt_token_as_sol),
    {
        if !(sol_depositable || all_supported_tokens_stakable) {
            return (false, fee_harvested_one_receipt_token_as_sol);
        }
        let mark = if performance_fee_rate_bps == 0 { one_receipt_token_as_sol } else { fee_harvested_one_receipt_token_as_sol };
        (mark < one_receipt_token_as_sol, mark)
    }
}

/// The performance gain in lamports: the receipt token supply times the
/// per-token gain over the high-water mark (per one SOL's worth of lamports).
pub open spec fn spec_performance_gain(supply: u64, before: u64, mark: u64) -> int {
    proportional(supply as int, before - mark, 1_000_000_000)
}

/// The fee in lamports: the gain times the fee rate in basis points.
pub open spec fn spec_performance_fee(gain: int, rate_bps: u16) -> int {
    proportional(gain, rate_bps as int, 10_000)
}

/// The performance fee in lamports to harvest, if any: none below the
/// minimum fee. Refused when the gain or the fee does not fit in 64 bits.
pub fn performance_fee_to_harvest(receipt_token_supply: u64, one_receipt_token_as_sol: u64, fee_harvested_one_receipt_token_as_sol: u64, performance_fee_rate_bps: u16)
    -> (r: Result<Option<u64>, ErrorCode>)
    requires
        fee_harvested_one_receipt_token_as_sol < one_receipt_token_as_sol,
    ensures
        ({
            let gain = spec_performance_gain(receipt_token_supply, one_receipt_token_as_sol, fee_harvested_one_receipt_token_as_sol);
            let fee = spec_performance_fee(gain, performance_fee_rate_bps);
            &&& gain > u64::MAX ==> r == Err::<Option<u64>, ErrorCode>(ErrorCode::CalculationArithmeticException)
            &&& gain <= u64::MAX && fee > u64::MAX ==> r == Err::<Option<u64>, ErrorCode>(ErrorCode::CalculationArithmeticException)
            &&& gain <= u64::MAX && fee <= u64::MAX && fee < MINIMUM_PERFORMANCE_FEE_LAMPORTS ==> r == Ok::<Option<u64>, ErrorCode>(None)
            &&& gain <= u64::MAX && fee <= u64::MAX && fee >= MINIMUM_PERFORMANCE_FEE_LAMPORTS ==> r == Ok::<Option<u64>, ErrorCode>(Some(fee as u64))
        }),
{
    let lamports = lamports_per_sol();
    let gain = match get_proportional_amount(receipt_token_supply, one_receipt_token_as_sol - fee_harvested_one_receipt_token_as_sol, lamports) {
        Ok(g) => g,
        Err(e) => return Err(e),
    };
    let fee = match get_proportional_amount(gain, performance_fee_rate_bps as u64, 10_000) {
        Ok(f) => f,
        Err(e) => return Err(e),
    };
    if fee < MINIMUM_PERFORMANCE_FEE_LAMPORTS {
        Ok(None)
    } else {
        Ok(Some(fee))
    }
}

/// With a fee rate of at most 100%, the fee never exceeds the gain.
pub proof fn lemma_fee_at_most_gain(gain: int, rate_bps: u16)
    requires
        0 <= gain,
        rate_bps <= 10_000,
    ensures
        0 <= spec_performance_fee(gain, rate_bps) <= gain,
{
    crate::math::lemma_proportional_le_amount(gain, rate_bps as int, 10_000);
}

/// The seven accounts the `Execute` step needs: the token-2022 program, the
/// program revenue account, its receipt token account and user reward account
/// (written), the reward account (written), the associated token program and
/// the system program.
pub open spec fn spec_execute_accounts(program_revenue: Pubkey, receipt_token_mint: Pubkey, revenue_user_reward_account: Pubkey, reward_account: Pubkey)
    -> Seq<OperationCommandAccountMeta>
{
    let token_2022 = Pubkey { w0: 0xde8f75eee1f6dd06, w1: 0xdacd6ce4bc5d4218, w2: 0x270db9834dfc1ab6, w3: 0xfc8ba1d828f9bdfe };
    seq![
        OperationCommandAccountMeta { pubkey: token_2022, is_writable: false },
        OperationCommandAccountMeta { pubkey: program_revenue, is_writable: false },
        OperationCommandAccountMeta { pubkey: associated_token_address(program_revenue, receipt_token_mint, token_2022), is_writable: true },
        OperationCommandAccountMeta { pubkey: revenue_user_reward_account, is_writable: true },
        OperationCommandAccountMeta { pubkey: reward_account, is_writable: true },
        OperationCommandAccountMeta {
            pubkey: Pubkey { w0: 0xf189244e8f25978c, w1: 0x830d8e1429103dbb, w2: 0x8410ffda99135a0b, w3: 0x59f8e9dbd87b8e04 },
            is_writable: false,
        },
        OperationCommandAccountMeta { pubkey: Pubkey::spec_zero(), is_writable: false },
    ]
}

/// The `New` step: when the fee is harvestable, the `Execute` step with its
/// accounts; refused when the program revenue's receipt token account cannot
/// be derived.
pub fn execute_new(harvestable: bool, program_revenue: Pubkey, receipt_token_mint: Pubkey, revenue_user_reward_account: Pubkey, reward_account: Pubkey)
    -> (r: Result<Option<(HarvestPerformanceFeeCommand, Vec<OperationCommandAccountMeta>)>, ErrorCode>)
    ensures
        !harvestable ==> r == Ok::<Option<(HarvestPerformanceFeeCommand, Vec<OperationCommandAccountMeta>)>, ErrorCode>(None),
        harvestable ==> (r is Ok <==> associated_token_address_found(program_revenue, receipt_token_mint, Pubkey { w0: 0xde8f75eee1f6dd06, w1: 0xdacd6ce4bc5d4218, w2: 0x270db9834dfc1ab6, w3: 0xfc8ba1d828f9bdfe })),
        harvestable && r is Ok ==> (r matches Ok(Some((c, accounts))) && c.state == HarvestPerformanceFeeState::Execute
            && accounts@ == spec_execute_accounts(program_revenue, receipt_token_mint, revenue_user_reward_account, reward_account)),
        r is Err ==> r == Err::<Option<(HarvestPerformanceFeeCommand, Vec<OperationCommandAccountMeta>)>, ErrorCode>(ErrorCode::ProgramAddressNotFound),
{
    if !harvestable {
        return Ok(None);
    }
    let token_2022 = token_2022_program_id();
    let ata = match get_associated_token_address_with_program_id(&program_revenue, &receipt_token_mint, &token_2022) {
        Some(a) => a,
        None => return Err(ErrorCode::ProgramAddressNotFound),
    };
    let mut accounts: Vec<OperationCommandAccountMeta> = Vec::new();
    accounts.push(OperationCommandAccountMeta { pubkey: token_2022, is_writable: false });
    accounts.push(OperationCommandAccountMeta { pubkey: program_revenue, is_writable: false });
    accounts.push(OperationCommandAccountMeta { pubkey: ata, is_writable: true });
    accounts.push(OperationCommandAccountMeta { pubkey: revenue_user_reward_account, is_writable: true });
    accounts.push(OperationCommandAccountMeta { pubkey: reward_account, is_writable: true });
    accounts.push(OperationCommandAccountMeta { pubkey: associated_token_program_id(), is_writable: false });
    accounts.push(OperationCommandAccountMeta { pubkey: system_program_id(), is_writable: false });
    assert(accounts@ =~= spec_execute_accounts(program_revenue, receipt_token_mint, revenue_user_reward_account, reward_account));
    Ok(Some((HarvestPerformanceFeeCommand { state: HarvestPerformanceFeeState::Execute }, accounts)))
}

/// The account checks of the `Execute` step: at least seven accounts, the
/// first five being those `execute_new` asked for (the token-2022 program, the
/// program revenue account, its receipt token account, its user reward
/// account and the reward account), checked in that order. The receipt token
/// account's address is derived only once the first two match; when it cannot
/// be derived the step is refused.
pub fn check_execute_accounts(account_keys: &Vec<Pubkey>, program_revenue: Pubkey, receipt_token_mint: Pubkey, revenue_user_reward_account: Pubkey, reward_account: Pubkey)
    -> (r: Result<(), ErrorCode>)
    ensures
        ({
            let expected = spec_execute_accounts(program_revenue, receipt_token_mint, revenue_user_reward_account, reward_account);
            let first_two_match = account_keys@[0] == expected[0].pubkey && account_keys@[1] == expected[1].pubkey;
            let all_match = forall|i: int| 0 <= i < 5 ==> account_keys@[i] == #[trigger] expected[i].pubkey;
            let found = associated_token_address_found(program_revenue, receipt_token_mint, Pubkey { w0: 0xde8f75eee1f6dd06, w1: 0xdacd6ce4bc5d4218, w2: 0x270db9834dfc1ab6, w3: 0xfc8ba1d828f9bdfe });
            &&& account_keys.len() < 7 ==> r == Err::<(), ErrorCode>(ErrorCode::AccountNotEnoughKeys)
            &&& account_keys.len() >= 7 && !first_two_match ==> r == Err::<(), ErrorCode>(ErrorCode::RequireKeysEqViolated)
            &&& account_keys.len() >= 7 && first_two_match && !found ==> r == Err::<(), ErrorCode>(ErrorCode::ProgramAddressNotFound)
            &&& account_keys.len() >= 7 && first_two_match && found && !all_match ==> r == Err::<(), ErrorCode>(ErrorCode::RequireKeysEqViolated)
            &&& account_keys.len() >= 7 && found && all_match ==> r == Ok::<(), ErrorCode>(())
        }),
{
    let ghost expected = spec_execute_accounts(program_revenue, receipt_token_mint, revenue_user_reward_account, reward_account);
    if account_keys.len() < 7 {
        return Err(ErrorCode::AccountNotEnoughKeys);
    }
    let token_2022 = token_2022_program_id();
    if account_keys[0] != token_2022 {
        assert(account_keys@[0] != expected[0].pubkey);
        return Err(ErrorCode::RequireKeysEqViolated);
    }
    if account_keys[1] != program_revenue {
        assert(account_keys@[1] != expected[1].pubkey);
        return Err(ErrorCode::RequireKeysEqViolated);
    }
    let ata = match get_associated_token_address_with_program_id(&program_revenue, &receipt_token_mint, &token_2022) {
        Some(a) => a,
        None => return Err(ErrorCode::ProgramAddressNotFound),
    };
    if account_keys[2] != ata {
        assert(account_keys@[2] != expected[2].pubkey);
        return Err(ErrorCode::RequireKeysEqViolated);
    }
    if account_keys[3] != revenue_user_reward_account {
        assert(account_keys@[3] != expected[3].pubkey);
        return Err(ErrorCode::RequireKeysEqViolated);
    }
    if account_keys[4] != reward_account {
        assert(account_keys@[4] != expected[4].pubkey);
        return Err(ErrorCode::RequireKeysEqViolated);
    }
    assert forall|i: int| 0 <= i < 5 implies account_keys@[i] == #[trigger] expected[i].pubkey by {
        if i == 0 {} else if i == 1 {} else if i == 2 {} else if i == 3 {} else {}
    }
    Ok(())
}

/// The high-water mark after the `Execute` step: when a fee was minted (in
/// receipt tokens, its SOL value converted at the current price), it moves up
/// to the receipt token's SOL value before the mint; when nothing was minted
/// it stays. A harvestable fee has the mark below that value, so the mark
/// never goes down.
pub fn high_water_mark_after_harvest(minted_receipt_token_amount: u64, one_receipt_token_as_sol: u64, fee_harvested_one_receipt_token_as_sol: u64)
    -> (r: u64)
    ensures
        minted_receipt_token_amount > 0 ==> r == one_receipt_token_as_sol,
        minted_receipt_token_amount == 0 ==> r == fee_harvested_one_receipt_token_as_sol,
        fee_harvested_one_receipt_token_as_sol < one_receipt_token_as_sol ==> r >= fee_harvested_one_receipt_token_as_sol,
{
    if minted_receipt_token_amount > 0 {
        one_receipt_token_as_sol
    } else {
        fee_harvested_one_receipt_token_as_sol
    }
}

/// The time the performance fee was last harvested, after the `Execute`
/// step: `now` when a fee was minted, unchanged otherwise.
pub fn performance_fee_last_harvested_at(minted_receipt_token_amount: u64, last_harvested_at: i64, now: i64) -> (r: i64)
    ensures
        r == (if minted_receipt_token_amount > 0 { now } else { last_harvested_at }),
{
    if minted_receipt_token_amount > 0 { now } else { last_harvested_at }
}

/// After minting the fee: the result, refused when the receipt token's SOL
/// value went up (minting must dilute, never enrich).
pub fn harvest_result(receipt_token_mint: Pubkey, minted: u64, before: u64, after: u64)
    -> (r: Result<HarvestPerformanceFeeCommandResult, ErrorCode>)
    ensures
        before >= after ==> r == Ok::<HarvestPerformanceFeeCommandResult, ErrorCode>(HarvestPerformanceFeeCommandResult {
            receipt_token_mint,
            receipt_token_minted_amount: minted,
            one_receipt_token_as_sol_before_performance_fee_harvested: before,
            one_receipt_token_as_sol_after_performance_fee_harvested: after,
        }),
        before < after ==> r == Err::<HarvestPerformanceFeeCommandResult, ErrorCode>(ErrorCode::RequireGteViolated),
{
    if before < after {
        return Err(ErrorCode::RequireGteViolated);
    }
    Ok(HarvestPerformanceFeeCommandResult {
        receipt_token_mint,
        receipt_token_minted_amount: minted,
        one_receipt_token_as_sol_before_performance_fee_harvested: before,
        one_receipt_token_as_sol_after_performance_fee_harvested: after,
    })
}

/// What follows a step of the performance fee harvest.
#[derive(Clone, Debug)]
pub enum PerformanceFeeNext {
    /// The step gave the harvest's next step, with the accounts it needs.
    Continue(HarvestPerformanceFeeCommand, Vec<OperationCommandAccountMeta>),
    /// The harvest is done: the restaking yield harvest starts afresh, needing no account.
    HarvestRestakingYield(HarvestRestakingYieldCommand),
}

/// The hand-over after a step: the step's own next step, or, when it gave
/// none, the restaking yield harvest in its first (`New`) state.
pub fn next_after_step(entry: Option<(HarvestPerformanceFeeCommand, Vec<OperationCommandAccountMeta>)>) -> (r: PerformanceFeeNext)
    ensures
        entry is None ==> (r matches PerformanceFeeNext::HarvestRestakingYield(c) && c.state is New),
        entry matches Some((c, accounts)) ==> (r matches PerformanceFeeNext::Continue(c2, accounts2) && c2 == c && accounts2@ == accounts@),
{
    match entry {
        Some((c, accounts)) => PerformanceFeeNext::Continue(c, accounts),
        None => PerformanceFeeNext::HarvestRestakingYield(HarvestRestakingYieldCommand::default()),
    }
}

/// A step on the unused state is refused.
pub fn check_state(state: HarvestPerformanceFeeState) -> (r: Result<(), ErrorCode>)
    ensures
        state is Unused <==> r == Err::<(), ErrorCode>(ErrorCode::FundOperationCommandExecutionFailedException),
        !(state is Unused) <==> r == Ok::<(), ErrorCode>(()),
{
    match state {
        HarvestPerformanceFeeState::Unused { .. } => Err(ErrorCode::FundOperationCommandExecutionFailedException),
        _ => Ok(()),
    }
}

} // verus!
