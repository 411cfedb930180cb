use vstd::prelude::*;
use crate::cmd10_harvest_restaking_yield::{select_vault_reward_token_account, HarvestVaultInfo};
use crate::errors::ErrorCode;
use crate::iteration::{first_taken, next_after, spec_first_taken, spec_next_after, StepDecision};
use crate::operation_command::OperationCommandAccountMeta;
use crate::pricing::TokenPricingSource;
use crate::pubkey::Pubkey;

verus! {

/// Where the reward harvest stands: first compounding rewards vault by vault
/// (swapping those that are no supported token), then distributing rewards.
/// The first reward token mint of a state is the current one.
#[derive(Clone, Debug)]
pub enum HarvestRewardCommandState {
    New,
    NewCompound,
    PrepareCompound { vault: Pubkey, reward_token_mints: Vec<Pubkey> },
    PrepareSwap { vault: Pubkey, reward_token_mints: Vec<Pubkey> },
    ExecuteCompound { vault: Pubkey, reward_token_mints: Vec<Pubkey> },
    NewDistribute,
    PrepareDistribute { vault: Pubkey, reward_token_mints: Vec<Pubkey> },
    ExecuteDistribute { vault: Pubkey, reward_token_mints: Vec<Pubkey> },
}

/// Harvests the rewards that restaking vaults received on the fund's behalf.
#[derive(Clone, Debug)]
pub struct HarvestRewardCommand {
    pub state: HarvestRewardCommandState,
}

impl Default for HarvestRewardCommand {
    fn default() -> (r: Self)
        ensures
            r.state is New,
    {
        HarvestRewardCommand { state: HarvestRewardCommandState::New }
    }
}

/// What one harvest did.
#[derive(Clone, Copy, PartialEq, Eq, Structural, Debug)]
pub struct HarvestRewardCommandResult {
    pub vault: Pubkey,
    pub reward_token_mint: Pubkey,
    pub reward_token_amount: u64,
    pub swapped_token_mint: Option<Pubkey>,
    pub compounded_token_amount: u64,
    pub distributed_token_amount: u64,
    pub updated_reward_account: Option<Pubkey>,
}

/// The two harvests, in the order the command goes through them.
#[derive(Clone, Copy, PartialEq, Eq, Structural, Debug)]
pub enum HarvestType {
    Compound,
    Distribute,
}

/// The reward tokens of a vault a harvest works through.
pub open spec fn reward_mints(v: HarvestVaultInfo, t: HarvestType) -> Seq<Pubkey> {
    match t {
        HarvestType::Compound => v.compounding_reward_token_mints@,
        HarvestType::Distribute => v.distributing_reward_token_mints@,
    }
}

/// Whether a harvest stops at a vault with `num_reward_tokens` reward tokens
/// left: never without reward tokens; compounding at Jito vaults (Solv vaults
/// are passed over), distributing at Jito and Solv vaults; any other vault is
/// a misconfigured fund.
pub open spec fn spec_decision(source: Option<TokenPricingSource>, t: HarvestType, num_reward_tokens: nat) -> StepDecision {
    if num_reward_tokens == 0 {
        StepDecision::Skip
    } else {
        match source {
            Some(TokenPricingSource::JitoRestakingVault { .. }) => StepDecision::Take,
            Some(TokenPricingSource::SolvBTCVault { .. }) =>
                if t == HarvestType::Compound { StepDecision::Skip } else { StepDecision::Take },
            _ => StepDecision::Fail,
        }
    }
}

/// Decides whether a harvest stops at a vault.
pub fn decision(source: &Option<TokenPricingSource>, t: HarvestType, num_reward_tokens: usize) -> (r: StepDecision)
    ensures
        r == spec_decision(*source, t, num_reward_tokens as nat),
{
    if num_reward_tokens == 0 {
        return StepDecision::Skip;
    }
    match source {
        Some(TokenPricingSource::JitoRestakingVault { .. }) => StepDecision::Take,
        Some(TokenPricingSource::SolvBTCVault { .. }) => match t {
            HarvestType::Compound => StepDecision::Skip,
            HarvestType::Distribute => StepDecision::Take,
        },
        _ => StepDecision::Fail,
    }
}

/// The vaults' addresses, in order.
pub open spec fn vault_keys(vaults: Seq<HarvestVaultInfo>) -> Seq<Pubkey> {
    vaults.map_values(|v: HarvestVaultInfo| v.vault)
}

/// What a harvest decides at each vault, in order.
pub open spec fn vault_decisions(vaults: Seq<HarvestVaultInfo>, t: HarvestType) -> Seq<StepDecision> {
    vaults.map_values(|v: HarvestVaultInfo| spec_decision(v.receipt_token_pricing_source, t, reward_mints(v, t).len()))
}

/// Where the search for the next vault of a harvest ends.
pub open spec fn spec_search(vaults: Seq<HarvestVaultInfo>, t: HarvestType, previous: Option<Pubkey>) -> Result<Option<int>, ErrorCode> {
    match spec_next_after(vault_keys(vaults), previous) {
        None => Ok(None),
        Some(start) => spec_first_taken(vault_decisions(vaults, t), start),
    }
}

/// Where the `New` steps lead: the first (harvest, vault) with work, going on
/// with distributing (from the first vault) once compounding found nothing;
/// none when both are done.
pub open spec fn spec_new_command(vaults: Seq<HarvestVaultInfo>, t: HarvestType, previous: Option<Pubkey>)
    -> Result<Option<(HarvestType, int)>, ErrorCode>
{
    match spec_search(vaults, t, previous) {
        Err(e) => Err(e),
        Ok(Some(i)) => Ok(Some((t, i))),
        Ok(None) => if t == HarvestType::Compound {
            match spec_search(vaults, HarvestType::Distribute, None) {
                Err(e) => Err(e),
                Ok(Some(i)) => Ok(Some((HarvestType::Distribute, i))),
                Ok(None) => Ok(None),
            }
        } else {
            Ok(None)
        },
    }
}

fn search(vaults: &Vec<HarvestVaultInfo>, t: HarvestType, previous: Option<Pubkey>) -> (r: Result<Option<usize>, ErrorCode>)
    ensures
        r == (match spec_search(vaults@, t, previous) {
            Ok(Some(i)) => Ok(Some(i as usize)),
            Ok(None) => Ok(None),
            Err(e) => Err(e),
        }),
        r matches Ok(Some(i)) ==> i < vaults.len(),
{
    let mut keys: Vec<Pubkey> = Vec::new();
    let mut ds: Vec<StepDecision> = Vec::new();
    let mut i: usize = 0;
    while i < vaults.len()
        invariant
            i <= vaults.len(),
            keys@ == vault_keys(vaults@.take(i as int)),
            ds@ == vault_decisions(vaults@.take(i as int), t),
        decreases vaults.len() - i,
    {
        let n = match t {
            HarvestType::Compound => vaults[i].compounding_reward_token_mints.len(),
            HarvestType::Distribute => vaults[i].distributing_reward_token_mints.len(),
        };
        keys.push(vaults[i].vault);
        ds.push(decision(&vaults[i].receipt_token_pricing_source, t, n));
        i += 1;
        assert(keys@ =~= vault_keys(vaults@.take(i as int)));
        assert(ds@ =~= vault_decisions(vaults@.take(i as int), t));
    }
    assert(vaults@.take(vaults.len() as int) =~= vaults@);
    match next_after(&keys, previous) {
        None => Ok(None),
        Some(start) => {
            let r = first_taken(&ds, start);
            proof {
                if spec_first_taken(ds@, start as int) matches Ok(Some(_)) {
                    crate::iteration::lemma_first_taken_bounds(ds@, start as int);
                }
            }
            r
        },
    }
}

impl HarvestRewardCommand {
    /// The `New`, `NewCompound` and `NewDistribute` steps (and the move to the
    /// next vault): the harvest and vault to prepare next after `previous`, or
    /// none when both harvests are done (staking comes next).
    pub fn execute_new_command(vaults: &Vec<HarvestVaultInfo>, t: HarvestType, previous: Option<Pubkey>)
        -> (r: Result<Option<(HarvestType, usize)>, ErrorCode>)
        ensures
            r == (match spec_new_command(vaults@, t, previous) {
                Ok(Some((t2, i))) => Ok(Some((t2, i as usize))),
                Ok(None) => Ok(None),
                Err(e) => Err(e),
            }),
            r matches Ok(Some((_, i))) ==> i < vaults.len(),
    {
        match search(vaults, t, previous) {
            Err(e) => Err(e),
            Ok(Some(i)) => Ok(Some((t, i))),
            Ok(None) => match t {
                HarvestType::Compound => match search(vaults, HarvestType::Distribute, None) {
                    Err(e) => Err(e),
                    Ok(Some(i)) => Ok(Some((HarvestType::Distribute, i))),
                    Ok(None) => Ok(None),
                },
                HarvestType::Distribute => Ok(None),
            },
        }
    }

    /// The `Prepare` state of a harvest at a vault with its reward tokens.
    pub fn prepare_state(t: HarvestType, vault: Pubkey, reward_token_mints: Vec<Pubkey>) -> (r: HarvestRewardCommandState)
        ensures
            t == HarvestType::Compound ==> (r matches HarvestRewardCommandState::PrepareCompound { vault: v, reward_token_mints: m }
                && v == vault && m@ == reward_token_mints@),
            t == HarvestType::Distribute ==> (r matches HarvestRewardCommandState::PrepareDistribute { vault: v, reward_token_mints: m }
                && v == vault && m@ == reward_token_mints@),
    {
        match t {
            HarvestType::Compound => HarvestRewardCommandState::PrepareCompound { vault, reward_token_mints },
            HarvestType::Distribute => HarvestRewardCommandState::PrepareDistribute { vault, reward_token_mints },
        }
    }

    /// Goes on with the remaining reward tokens of the same vault: the
    /// `Prepare` state when the vault has work for the harvest, none when it
    /// has not (the next vault comes then), an error for a misconfigured vault.
    pub fn create_prepare_command(t: HarvestType, vault: Pubkey, reward_token_mints: Vec<Pubkey>, source: Option<TokenPricingSource>)
        -> (r: Result<Option<HarvestRewardCommandState>, ErrorCode>)
        ensures
            spec_decision(source, t, reward_token_mints.len() as nat) == StepDecision::Skip
                ==> r == Ok::<Option<HarvestRewardCommandState>, ErrorCode>(None),
            spec_decision(source, t, reward_token_mints.len() as nat) == StepDecision::Fail
                ==> r == Err::<Option<HarvestRewardCommandState>, ErrorCode>(ErrorCode::FundOperationCommandExecutionFailedException),
            spec_decision(source, t, reward_token_mints.len() as nat) == StepDecision::Take ==> (r matches Ok(Some(s))
                && (t == HarvestType::Compound ==> (s matches HarvestRewardCommandState::PrepareCompound { vault: v, reward_token_mints: m }
                    && v == vault && m@ == reward_token_mints@))
                && (t == HarvestType::Distribute ==> (s matches HarvestRewardCommandState::PrepareDistribute { vault: v, reward_token_mints: m }
                    && v == vault && m@ == reward_token_mints@))),
    {
        match decision(&source, t, reward_token_mints.len()) {
            StepDecision::Skip => Ok(None),
            StepDecision::Fail => Err(ErrorCode::FundOperationCommandExecutionFailedException),
            StepDecision::Take => Ok(Some(Self::prepare_state(t, vault, reward_token_mints))),
        }
    }
}

/// A token account as the harvest reads it.
#[derive(Clone, Copy, PartialEq, Eq, Structural, Debug)]
pub struct RewardTokenAccountState {
    /// Whether the account exists.
    pub initialized: bool,
    /// The program that owns the account.
    pub owner_program: Pubkey,
    pub mint: Pubkey,
    /// The token account's owner.
    pub owner: Pubkey,
    pub delegate: Option<Pubkey>,
    pub amount: u64,
    pub delegated_amount: u64,
}

/// The reward tokens the fund may take from a vault's reward token account:
/// none when the account does not exist, is not delegated to the fund or
/// holds no reward; refused when it is not the vault's account of that mint
/// under the mint's program.
pub open spec fn spec_harvestable_amount(acc: RewardTokenAccountState, mint: Pubkey, mint_program: Pubkey, vault: Pubkey, fund_account: Pubkey)
    -> Result<Option<u64>, ErrorCode>
{
    if !acc.initialized {
        Ok(None)
    } else if acc.owner_program != mint_program || acc.mint != mint || acc.owner != vault {
        Err(ErrorCode::RequireKeysEqViolated)
    } else if acc.delegate != Some(fund_account) {
        Ok(None)
    } else {
        let amount = if acc.amount < acc.delegated_amount { acc.amount } else { acc.delegated_amount };
        if amount == 0 { Ok(None) } else { Ok(Some(amount)) }
    }
}

/// How much the fund may take from a vault's reward token account.
pub fn harvestable_amount(acc: RewardTokenAccountState, mint: Pubkey, mint_program: Pubkey, vault: Pubkey, fund_account: Pubkey)
    -> (r: Result<Option<u64>, ErrorCode>)
    ensures
        r == spec_harvestable_amount(acc, mint, mint_program, vault, fund_account),
        r matches Ok(Some(a)) ==> 0 < a <= acc.amount && a <= acc.delegated_amount,
{
    if !acc.initialized {
        return Ok(None);
    }
    if acc.owner_program != mint_program || acc.mint != mint || acc.owner != vault {
        return Err(ErrorCode::RequireKeysEqViolated);
    }
    if acc.delegate != Some(fund_account) {
        return Ok(None);
    }
    let amount = if acc.amount < acc.delegated_amount { acc.amount } else { acc.delegated_amount };
    if amount == 0 { Ok(None) } else { Ok(Some(amount)) }
}

/// The `Prepare` step's account checks: the reward token mint (which must be
/// the current one) and the vault's two candidate accounts come first. Gives
/// which candidate is the vault's account (0 under the token program, 1
/// under token-2022, by the mint's program).
pub fn select_vault_ata(num_accounts: usize, given_mint: Pubkey, expected_mint: Pubkey, mint_program: Pubkey) -> (r: Result<usize, ErrorCode>)
    ensures
        num_accounts < 3 ==> r == Err::<usize, ErrorCode>(ErrorCode::AccountNotEnoughKeys),
        num_accounts >= 3 ==> r == (match select_outcome(given_mint, expected_mint, mint_program) {
            Ok(i) => Ok::<usize, ErrorCode>(i),
            Err(e) => Err(e),
        }),
{
    if num_accounts < 3 {
        return Err(ErrorCode::AccountNotEnoughKeys);
    }
    select_vault_reward_token_account(given_mint, expected_mint, mint_program)
}

/// Which candidate account the mint's program picks (see `select_vault_reward_token_account`).
pub open spec fn select_outcome(given_mint: Pubkey, expected_mint: Pubkey, mint_program: Pubkey) -> Result<usize, ErrorCode> {
    if given_mint != expected_mint {
        Err(ErrorCode::RequireKeysEqViolated)
    } else if mint_program == (Pubkey { w0: 0x93a165d7e1f6dd06, w1: 0xac79ebce46e1cbd9, w2: 0x91375b5fed85b41c, w3: 0xa900ff7e85f58c3a }) {
        Ok(0)
    } else if mint_program == (Pubkey { w0: 0xde8f75eee1f6dd06, w1: 0xdacd6ce4bc5d4218, w2: 0x270db9834dfc1ab6, w3: 0xfc8ba1d828f9bdfe }) {
        Ok(1)
    } else {
        Err(ErrorCode::InvalidProgramId)
    }
}

/// A compounding reward that is no supported token is swapped first: the
/// `PrepareSwap` step with the swap pool, the mint, the vault's account and
/// the token it is swapped to.
pub fn compound_swap_entry(vault: Pubkey, reward_token_mints: Vec<Pubkey>, pool: Pubkey, vault_reward_token_account: Pubkey, to_token_mint: Pubkey)
    -> (r: (HarvestRewardCommandState, Vec<OperationCommandAccountMeta>))
    requires
        reward_token_mints.len() > 0,
    ensures
        r.0 matches HarvestRewardCommandState::PrepareSwap { vault: v, reward_token_mints: m } && v == vault && m@ == reward_token_mints@,
        r.1@ == seq![
            OperationCommandAccountMeta { pubkey: pool, is_writable: false },
            OperationCommandAccountMeta { pubkey: reward_token_mints@[0], is_writable: false },
            OperationCommandAccountMeta { pubkey: vault_reward_token_account, is_writable: false },
            OperationCommandAccountMeta { pubkey: to_token_mint, is_writable: false },
        ],
{
    let mint = reward_token_mints[0];
    let mut accounts: Vec<OperationCommandAccountMeta> = Vec::new();
    accounts.push(OperationCommandAccountMeta { pubkey: pool, is_writable: false });
    accounts.push(OperationCommandAccountMeta { pubkey: mint, is_writable: false });
    accounts.push(OperationCommandAccountMeta { pubkey: vault_reward_token_account, is_writable: false });
    accounts.push(OperationCommandAccountMeta { pubkey: to_token_mint, is_writable: false });
    (HarvestRewardCommandState::PrepareSwap { vault, reward_token_mints }, accounts)
}

/// A compounding reward that is a supported token is moved as it is: the
/// `ExecuteCompound` step with the mint, the vault's account, the fund's
/// reserve account of the token and the token's program.
pub fn compound_transfer_entry(vault: Pubkey, reward_token_mints: Vec<Pubkey>, vault_reward_token_account: Pubkey,
    fund_supported_token_reserve_account: Pubkey, token_program: Pubkey)
    -> (r: (HarvestRewardCommandState, Vec<OperationCommandAccountMeta>))
    requires
        reward_token_mints.len() > 0,
    ensures
        r.0 matches HarvestRewardCommandState::ExecuteCompound { vault: v, reward_token_mints: m } && v == vault && m@ == reward_token_mints@,
        r.1@ == seq![
            OperationCommandAccountMeta { pubkey: reward_token_mints@[0], is_writable: false },
            OperationCommandAccountMeta { pubkey: vault_reward_token_account, is_writable: true },
            OperationCommandAccountMeta { pubkey: fund_supported_token_reserve_account, is_writable: true },
            OperationCommandAccountMeta { pubkey: token_program, is_writable: false },
        ],
{
    let mint = reward_token_mints[0];
    let mut accounts: Vec<OperationCommandAccountMeta> = Vec::new();
    accounts.push(OperationCommandAccountMeta { pubkey: mint, is_writable: false });
    accounts.push(OperationCommandAccountMeta { pubkey: vault_reward_token_account, is_writable: true });
    accounts.push(OperationCommandAccountMeta { pubkey: fund_supported_token_reserve_account, is_writable: true });
    accounts.push(OperationCommandAccountMeta { pubkey: token_program, is_writable: false });
    (HarvestRewardCommandState::ExecuteCompound { vault, reward_token_mints }, accounts)
}

/// A distributing reward goes to the reward pool: the fourth account handed
/// over must be the receipt token's reward account; when the reward account
/// has no reserve for the token the reward cannot be claimed and is passed
/// over (none); otherwise the `ExecuteDistribute` step.
pub fn distribute_entry(vault: Pubkey, reward_token_mints: Vec<Pubkey>, vault_reward_token_account: Pubkey, account_keys: &Vec<Pubkey>,
    reward_account: Pubkey, reward_token_reserve_account: Option<Pubkey>, token_program: Pubkey)
    -> (r: Result<Option<(HarvestRewardCommandState, Vec<OperationCommandAccountMeta>)>, ErrorCode>)
    requires
        reward_token_mints.len() > 0,
    ensures
        account_keys.len() < 4 ==> r == Err::<Option<(HarvestRewardCommandState, Vec<OperationCommandAccountMeta>)>, ErrorCode>(
            ErrorCode::AccountNotEnoughKeys),
        account_keys.len() >= 4 && account_keys@[3] != reward_account ==>
            r == Err::<Option<(HarvestRewardCommandState, Vec<OperationCommandAccountMeta>)>, ErrorCode>(ErrorCode::RequireKeysEqViolated),
        account_keys.len() >= 4 && account_keys@[3] == reward_account && reward_token_reserve_account is None ==>
            r == Ok::<Option<(HarvestRewardCommandState, Vec<OperationCommandAccountMeta>)>, ErrorCode>(None),
        account_keys.len() >= 4 && account_keys@[3] == reward_account ==> match reward_token_reserve_account {
            None => true,
            Some(reserve) => r matches Ok(Some((s, accounts)))
            && s matches HarvestRewardCommandState::ExecuteDistribute { vault: v, reward_token_mints: m } && v == vault && m@ == reward_token_mints@
            && accounts@ == seq![
                OperationCommandAccountMeta { pubkey: reward_token_mints@[0], is_writable: false },
                OperationCommandAccountMeta { pubkey: vault_reward_token_account, is_writable: true },
                OperationCommandAccountMeta { pubkey: reserve, is_writable: true },
                OperationCommandAccountMeta { pubkey: token_program, is_writable: false },
                OperationCommandAccountMeta { pubkey: reward_account, is_writable: true },
            ],
        },
{
    if account_keys.len() < 4 {
        return Err(ErrorCode::AccountNotEnoughKeys);
    }
    if account_keys[3] != reward_account {
        return Err(ErrorCode::RequireKeysEqViolated);
    }
    match reward_token_reserve_account {
        None => Ok(None),
        Some(reserve) => {
            let mint = reward_token_mints[0];
            let mut accounts: Vec<OperationCommandAccountMeta> = Vec::new();
            accounts.push(OperationCommandAccountMeta { pubkey: mint, is_writable: false });
            accounts.push(OperationCommandAccountMeta { pubkey: vault_reward_token_account, is_writable: true });
            accounts.push(OperationCommandAccountMeta { pubkey: reserve, is_writable: true });
            accounts.push(OperationCommandAccountMeta { pubkey: token_program, is_writable: false });
            accounts.push(OperationCommandAccountMeta { pubkey: reward_account, is_writable: true });
            Ok(Some((HarvestRewardCommandState::ExecuteDistribute { vault, reward_token_mints }, accounts)))
        },
    }
}

/// The `PrepareSwap` step's checks: the swap pool, the current reward token
/// mint, the reward token account and the token swapped to come first.
pub fn check_prepare_swap_accounts(account_keys: &Vec<Pubkey>, pool: Pubkey, reward_token_mint: Pubkey, to_token_mint: Pubkey)
    -> (r: Result<(), ErrorCode>)
    ensures
        account_keys.len() < 4 ==> r == Err::<(), ErrorCode>(ErrorCode::AccountNotEnoughKeys),
        account_keys.len() >= 4 ==> (r == if account_keys@[0] != pool || account_keys@[1] != reward_token_mint
            || account_keys@[3] != to_token_mint {
            Err::<(), ErrorCode>(ErrorCode::RequireKeysEqViolated)
        } else {
            Ok::<(), ErrorCode>(())
        }),
{
    if account_keys.len() < 4 {
        return Err(ErrorCode::AccountNotEnoughKeys);
    }
    if account_keys[0] != pool || account_keys[1] != reward_token_mint || account_keys[3] != to_token_mint {
        return Err(ErrorCode::RequireKeysEqViolated);
    }
    Ok(())
}

/// How the `ExecuteCompound` step compounds the current reward token.
#[derive(Clone, Copy, PartialEq, Eq, Structural, Debug)]
pub enum CompoundRoute {
    /// Swap it to a supported token.
    Swap,
    /// Move it to the fund's reserve as it is.
    Transfer,
    /// Nothing to do (a Solv vault).
    Skip,
}

/// Rewards that are no supported token are swapped; supported tokens are
/// moved from Jito vaults and left at Solv vaults; any other vault fails.
pub fn compound_route(is_supported_token: bool, source: Option<TokenPricingSource>) -> (r: Result<CompoundRoute, ErrorCode>)
    ensures
        !is_supported_token ==> r == Ok::<CompoundRoute, ErrorCode>(CompoundRoute::Swap),
        is_supported_token ==> r == (match source {
            Some(TokenPricingSource::JitoRestakingVault { .. }) => Ok::<CompoundRoute, ErrorCode>(CompoundRoute::Transfer),
            Some(TokenPricingSource::SolvBTCVault { .. }) => Ok::<CompoundRoute, ErrorCode>(CompoundRoute::Skip),
            _ => Err::<CompoundRoute, ErrorCode>(ErrorCode::FundOperationCommandExecutionFailedException),
        }),
{
    if !is_supported_token {
        return Ok(CompoundRoute::Swap);
    }
    match source {
        Some(TokenPricingSource::JitoRestakingVault { .. }) => Ok(CompoundRoute::Transfer),
        Some(TokenPricingSource::SolvBTCVault { .. }) => Ok(CompoundRoute::Skip),
        _ => Err(ErrorCode::FundOperationCommandExecutionFailedException),
    }
}

/// The result of a swap: none when nothing came out of it.
pub fn swap_result(vault: Pubkey, reward_token_mint: Pubkey, supported_token_mint: Pubkey, from_token_swapped_amount: u64, to_token_swapped_amount: u64)
    -> (r: Option<HarvestRewardCommandResult>)
    ensures
        to_token_swapped_amount == 0 ==> r is None,
        to_token_swapped_amount > 0 ==> r == Some(HarvestRewardCommandResult {
            vault,
            reward_token_mint,
            reward_token_amount: from_token_swapped_amount,
            swapped_token_mint: Some(supported_token_mint),
            compounded_token_amount: to_token_swapped_amount,
            distributed_token_amount: 0,
            updated_reward_account: None,
        }),
{
    if to_token_swapped_amount == 0 {
        return None;
    }
    Some(HarvestRewardCommandResult {
        vault,
        reward_token_mint,
        reward_token_amount: from_token_swapped_amount,
        swapped_token_mint: Some(supported_token_mint),
        compounded_token_amount: to_token_swapped_amount,
        distributed_token_amount: 0,
        updated_reward_account: None,
    })
}

/// The result of moving `amount` reward tokens (compounded into the fund, or
/// distributed through `reward_account`): none when there was nothing to move.
pub fn transfer_result(vault: Pubkey, reward_token_mint: Pubkey, amount: u64, distributed_through: Option<Pubkey>)
    -> (r: Option<HarvestRewardCommandResult>)
    ensures
        amount == 0 ==> r is None,
        amount > 0 ==> r == Some(HarvestRewardCommandResult {
            vault,
            reward_token_mint,
            reward_token_amount: amount,
            swapped_token_mint: None,
            compounded_token_amount: if distributed_through is None { amount } else { 0 },
            distributed_token_amount: if distributed_through is None { 0 } else { amount },
            updated_reward_account: distributed_through,
        }),
{
    if amount == 0 {
        return None;
    }
    let distributed = distributed_through.is_some();
    Some(HarvestRewardCommandResult {
        vault,
        reward_token_mint,
        reward_token_amount: amount,
        swapped_token_mint: None,
        compounded_token_amount: if distributed { 0 } else { amount },
        distributed_token_amount: if distributed { amount } else { 0 },
        updated_reward_account: distributed_through,
    })
}

/// The supported token whose reserve a compounding result grows: the token
/// swapped to, or the reward token itself.
pub open spec fn compounded_mint(result: HarvestRewardCommandResult) -> Pubkey {
    match result.swapped_token_mint {
        Some(m) => m,
        None => result.reward_token_mint,
    }
}

/// The fund's bookkeeping after compounding: the reserve of the token grows by
/// the compounded amount.
pub fn apply_compound(result: HarvestRewardCommandResult, operation_reserved_amount: u64) -> (r: (Pubkey, u64))
    requires
        operation_reserved_amount + result.compounded_token_amount <= u64::MAX,
    ensures
        r == (compounded_mint(result), (operation_reserved_amount + result.compounded_token_amount) as u64),
{
    let mint = match result.swapped_token_mint {
        Some(m) => m,
        None => result.reward_token_mint,
    };
    (mint, operation_reserved_amount + result.compounded_token_amount)
}

/// The `ExecuteDistribute` step's checks before moving the reward: five
/// accounts; the mint handed over and the vault's account are of the current
/// reward token; the reward token must be claimable (it has a reserve) and the
/// reserve account handed over must be it. Gives the amount to move (none when
/// the reward is not claimable or there is nothing to move).
pub fn distribute_check(num_accounts: usize, given_mint: Pubkey, from_account_mint: Pubkey, current_mint: Pubkey,
    reserve_address: Option<Pubkey>, given_reserve: Pubkey, amount: u64, delegated_amount: u64)
    -> (r: Result<Option<u64>, ErrorCode>)
    ensures
        num_accounts < 5 ==> r == Err::<Option<u64>, ErrorCode>(ErrorCode::AccountNotEnoughKeys),
        num_accounts >= 5 && (given_mint != current_mint || from_account_mint != current_mint) ==>
            r == Err::<Option<u64>, ErrorCode>(ErrorCode::RequireKeysEqViolated),
        num_accounts >= 5 && given_mint == current_mint && from_account_mint == current_mint ==> r == (match reserve_address {
            None => Ok::<Option<u64>, ErrorCode>(None),
            Some(a) => if given_reserve != a {
                Err::<Option<u64>, ErrorCode>(ErrorCode::RequireKeysEqViolated)
            } else {
                let m = if amount < delegated_amount { amount } else { delegated_amount };
                if m == 0 { Ok::<Option<u64>, ErrorCode>(None) } else { Ok::<Option<u64>, ErrorCode>(Some(m)) }
            },
        }),
{
    if num_accounts < 5 {
        return Err(ErrorCode::AccountNotEnoughKeys);
    }
    if given_mint != current_mint || from_account_mint != current_mint {
        return Err(ErrorCode::RequireKeysEqViolated);
    }
    match reserve_address {
        None => Ok(None),
        Some(a) => {
            if given_reserve != a {
                return Err(ErrorCode::RequireKeysEqViolated);
            }
            let m = if amount < delegated_amount { amount } else { delegated_amount };
            if m == 0 { Ok(None) } else { Ok(Some(m)) }
        },
    }
}

} // verus!
