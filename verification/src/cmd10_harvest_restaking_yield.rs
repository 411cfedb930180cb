use vstd::prelude::*;
use crate::errors::ErrorCode;
use crate::iteration::{first_taken, next_after, spec_first_taken, spec_next_after, StepDecision};
use crate::math::{get_proportional_amount, proportional};
use crate::cmd11_stake_sol::{StakeSOLCommand, StakeSOLCommandState};
use crate::operation_command::{OperationCommand, OperationCommandAccountMeta, OperationCommandEntry};
use crate::pricing::{spec_vault_kind, vault_kind, TokenPricingSource, VaultKind};
use crate::programs::{
    associated_token_address, associated_token_address_found, associated_token_program_id, get_associated_token_address_with_program_id,
    system_program_id, token_2022_program_id, token_program_id,
};
use crate::pubkey::Pubkey;

verus! {

/// Where the yield harvest stands: compounding rewards first, then
/// distributing rewards, then compounding the vaults' supported tokens.
#[derive(Clone, Debug)]
pub enum HarvestRestakingYieldState {
    New,
    NewCompoundReward,
    PrepareCompoundReward { vault: Pubkey, reward_token_mints: Vec<Pubkey> },
    PrepareSwap { vault: Pubkey, reward_token_mints: Vec<Pubkey> },
    ExecuteCompoundReward { vault: Pubkey, reward_token_mints: Vec<Pubkey> },
    ExecuteSwap { vault: Pubkey, reward_token_mints: Vec<Pubkey> },
    NewDistributeReward,
    PrepareDistributeReward { vault: Pubkey, reward_token_mints: Vec<Pubkey> },
    ExecuteDistributeReward { vault: Pubkey, reward_token_mints: Vec<Pubkey> },
    NewCompoundVaultSupportedToken,
    PrepareCompoundVaultSupportedToken { vault: Pubkey },
    ExecuteCompoundVaultSupportedToken { vault: Pubkey },
}

/// Harvests the yield of the fund's restaking vaults.
#[derive(Clone, Debug)]
pub struct HarvestRestakingYieldCommand {
    pub state: HarvestRestakingYieldState,
}

impl Default for HarvestRestakingYieldCommand {
    fn default() -> (r: Self)
        ensures
            r.state is New,
    {
        HarvestRestakingYieldCommand { state: HarvestRestakingYieldState::New }
    }
}

/// What one harvest did.
#[derive(Clone, Copy, PartialEq, Eq, Structural, Debug)]
pub struct HarvestRestakingYieldCommandResult {
    pub vault: Pubkey,
    pub yield_token_mint: Pubkey,
    pub yield_token_amount: u64,
    pub swapped_token_mint: Option<Pubkey>,
    pub fund_supported_token_compounded_token_amount: u64,
    pub reward_token_distributed_token_amount: u64,
    pub updated_reward_account: Option<Pubkey>,
    pub vault_supported_token_compounded_amount: i128,
}

/// The three kinds of harvest, in the order the command goes through them.
#[derive(Clone, Copy, PartialEq, Eq, Structural, Debug)]
pub enum HarvestType {
    CompoundReward,
    DistributeReward,
    CompoundVaultSupportedToken,
}

/// A restaking vault as the harvest reads it.
#[derive(Clone, Debug)]
pub struct HarvestVaultInfo {
    pub vault: Pubkey,
    pub receipt_token_pricing_source: Option<TokenPricingSource>,
    pub compounding_reward_token_mints: Vec<Pubkey>,
    pub distributing_reward_token_mints: Vec<Pubkey>,
}

/// The reward tokens of a vault that a harvest type works through.
pub open spec fn spec_reward_token_mints(v: HarvestVaultInfo, t: HarvestType) -> Seq<Pubkey> {
    match t {
        HarvestType::CompoundReward => v.compounding_reward_token_mints@,
        HarvestType::DistributeReward => v.distributing_reward_token_mints@,
        HarvestType::CompoundVaultSupportedToken => Seq::empty(),
    }
}

/// Whether a harvest type has work at a vault: reward harvests when there are
/// reward tokens left and the vault is a Jito, Solv or virtual vault; the
/// supported token harvest for Jito and Solv vaults (not virtual ones); any
/// other vault is a misconfigured fund (an empty reward list is skipped first).
pub open spec fn spec_prepare_decision(source: Option<TokenPricingSource>, t: HarvestType, num_reward_tokens: nat) -> StepDecision {
    match t {
        HarvestType::CompoundVaultSupportedToken => match spec_vault_kind(source) {
            Some(VaultKind::Jito) | Some(VaultKind::SolvBTC) => StepDecision::Take,
            Some(VaultKind::Virtual) => StepDecision::Skip,
            None => StepDecision::Fail,
        },
        _ => if num_reward_tokens == 0 {
            StepDecision::Skip
        } else {
            match spec_vault_kind(source) {
                Some(_) => StepDecision::Take,
                None => StepDecision::Fail,
            }
        },
    }
}

/// Decides whether a harvest type stops at a vault.
pub fn prepare_decision(source: &Option<TokenPricingSource>, t: HarvestType, num_reward_tokens: usize) -> (r: StepDecision)
    ensures
        r == spec_prepare_decision(*source, t, num_reward_tokens as nat),
{
    match t {
        HarvestType::CompoundVaultSupportedToken => match source {
            Some(TokenPricingSource::JitoRestakingVault { .. }) | Some(TokenPricingSource::SolvBTCVault { .. }) => StepDecision::Take,
            Some(TokenPricingSource::VirtualVault { .. }) => StepDecision::Skip,
            _ => StepDecision::Fail,
        },
        _ => {
            if num_reward_tokens == 0 {
                StepDecision::Skip
            } else {
                match source {
                    Some(TokenPricingSource::JitoRestakingVault { .. })
                    | Some(TokenPricingSource::SolvBTCVault { .. })
                    | Some(TokenPricingSource::VirtualVault { .. }) => StepDecision::Take,
                    _ => StepDecision::Fail,
                }
            }
        },
    }
}

/// The harvest type that follows another one; none after the last.
pub open spec fn spec_next_harvest_type(t: HarvestType) -> Option<HarvestType> {
    match t {
        HarvestType::CompoundReward => Some(HarvestType::DistributeReward),
        HarvestType::DistributeReward => Some(HarvestType::CompoundVaultSupportedToken),
        HarvestType::CompoundVaultSupportedToken => None,
    }
}

/// The vaults' addresses, in order.
pub open spec fn harvest_keys(vaults: Seq<HarvestVaultInfo>) -> Seq<Pubkey> {
    vaults.map_values(|v: HarvestVaultInfo| v.vault)
}

/// What a harvest type decides at each vault, in order.
pub open spec fn harvest_decisions(vaults: Seq<HarvestVaultInfo>, t: HarvestType) -> Seq<StepDecision> {
    vaults.map_values(|v: HarvestVaultInfo| spec_prepare_decision(v.receipt_token_pricing_source, t, spec_reward_token_mints(v, t).len()))
}

/// Where the search for work of one harvest type ends: at a vault, at no vault, or failing.
pub open spec fn spec_search(vaults: Seq<HarvestVaultInfo>, t: HarvestType, previous: Option<Pubkey>) -> Result<Option<int>, ErrorCode> {
    match spec_next_after(harvest_keys(vaults), previous) {
        None => Ok(None),
        Some(start) => spec_first_taken(harvest_decisions(vaults, t), start),
    }
}

/// Where the `New` steps lead: the first (type, vault) with work, going
/// through the harvest types in order and starting each later type from the
/// first vault; none when every type is done (staking comes next).
pub open spec fn spec_new_command(vaults: Seq<HarvestVaultInfo>, t: HarvestType, previous: Option<Pubkey>)
    -> Result<Option<(HarvestType, int)>, ErrorCode>
    decreases (match t { HarvestType::CompoundReward => 2int, HarvestType::DistributeReward => 1int, HarvestType::CompoundVaultSupportedToken => 0int }),
{
    match spec_search(vaults, t, previous) {
        Err(e) => Err(e),
        Ok(Some(i)) => Ok(Some((t, i))),
        Ok(None) => match t {
            HarvestType::CompoundReward => spec_new_command(vaults, HarvestType::DistributeReward, None),
            HarvestType::DistributeReward => spec_new_command(vaults, HarvestType::CompoundVaultSupportedToken, None),
            HarvestType::CompoundVaultSupportedToken => Ok(None),
        },
    }
}

fn search(vaults: &Vec<HarvestVaultInfo>, t: HarvestType, previous: Option<Pubkey>) -> (r: Result<Option<usize>, ErrorCode>)
    ensures
        r == (match spec_search(vaults@, t, previous) {
            Ok(Some(i)) => Ok(Some(i as usize)),
            Ok(None) => Ok(None),
            Err(e) => Err(e),
        }),
        r matches Ok(Some(i)) ==> i < vaults.len(),
{
    let mut keys: Vec<Pubkey> = Vec::new();
    let mut ds: Vec<StepDecision> = Vec::new();
    let mut i: usize = 0;
    while i < vaults.len()
        invariant
            i <= vaults.len(),
            keys@ == harvest_keys(vaults@.take(i as int)),
            ds@ == harvest_decisions(vaults@.take(i as int), t),
        decreases vaults.len() - i,
    {
        let n = match t {
            HarvestType::CompoundReward => vaults[i].compounding_reward_token_mints.len(),
            HarvestType::DistributeReward => vaults[i].distributing_reward_token_mints.len(),
            HarvestType::CompoundVaultSupportedToken => 0,
        };
        keys.push(vaults[i].vault);
        ds.push(prepare_decision(&vaults[i].receipt_token_pricing_source, t, n));
        i += 1;
        assert(keys@ =~= harvest_keys(vaults@.take(i as int)));
        assert(ds@ =~= harvest_decisions(vaults@.take(i as int), t));
    }
    assert(vaults@.take(vaults.len() as int) =~= vaults@);
    match next_after(&keys, previous) {
        None => Ok(None),
        Some(start) => {
            let r = first_taken(&ds, start);
            proof {
                if spec_first_taken(ds@, start as int) matches Ok(Some(_)) {
                    crate::iteration::lemma_first_taken_bounds(ds@, start as int);
                }
            }
            r
        },
    }
}

impl HarvestRestakingYieldCommand {
    /// The `New` steps of all three harvest types, starting with type `t`
    /// after `previous`: the harvest type and vault to prepare next, or none.
    pub fn execute_new_command(vaults: &Vec<HarvestVaultInfo>, t: HarvestType, previous: Option<Pubkey>)
        -> (r: Result<Option<(HarvestType, usize)>, ErrorCode>)
        ensures
            r == (match spec_new_command(vaults@, t, previous) {
                Ok(Some((t2, i))) => Ok(Some((t2, i as usize))),
                Ok(None) => Ok(None),
                Err(e) => Err(e),
            }),
            r matches Ok(Some((_, i))) ==> i < vaults.len(),
        decreases (match t { HarvestType::CompoundReward => 2int, HarvestType::DistributeReward => 1int, HarvestType::CompoundVaultSupportedToken => 0int }),
    {
        match search(vaults, t, previous) {
            Err(e) => Err(e),
            Ok(Some(i)) => Ok(Some((t, i))),
            Ok(None) => match t {
                HarvestType::CompoundReward => Self::execute_new_command(vaults, HarvestType::DistributeReward, None),
                HarvestType::DistributeReward => Self::execute_new_command(vaults, HarvestType::CompoundVaultSupportedToken, None),
                HarvestType::CompoundVaultSupportedToken => Ok(None),
            },
        }
    }

    /// The state that starts a harvest type at a vault.
    pub fn prepare_state(t: HarvestType, v: &HarvestVaultInfo) -> (r: HarvestRestakingYieldState)
        ensures
            t == HarvestType::CompoundReward ==> (r matches HarvestRestakingYieldState::PrepareCompoundReward { vault, reward_token_mints }
                && vault == v.vault && reward_token_mints@ == v.compounding_reward_token_mints@),
            t == HarvestType::DistributeReward ==> (r matches HarvestRestakingYieldState::PrepareDistributeReward { vault, reward_token_mints }
                && vault == v.vault && reward_token_mints@ == v.distributing_reward_token_mints@),
            t == HarvestType::CompoundVaultSupportedToken ==> (r matches HarvestRestakingYieldState::PrepareCompoundVaultSupportedToken { vault }
                && vault == v.vault),
    {
        match t {
            HarvestType::CompoundReward => HarvestRestakingYieldState::PrepareCompoundReward {
                vault: v.vault,
                reward_token_mints: v.compounding_reward_token_mints.clone(),
            },
            HarvestType::DistributeReward => HarvestRestakingYieldState::PrepareDistributeReward {
                vault: v.vault,
                reward_token_mints: v.distributing_reward_token_mints.clone(),
            },
            HarvestType::CompoundVaultSupportedToken => HarvestRestakingYieldState::PrepareCompoundVaultSupportedToken { vault: v.vault },
        }
    }
}

/// The reward tokens a vault holds that the fund may take: all of them when
/// the fund's signer owns the account, up to the delegated amount when the
/// signer is its delegate, none otherwise.
pub open spec fn spec_reward_token_amount(amount: u64, owner: Pubkey, delegate: Option<Pubkey>, delegated_amount: u64, signer: Pubkey) -> u64 {
    if owner == signer {
        amount
    } else if delegate == Some(signer) {
        if amount < delegated_amount { amount } else { delegated_amount }
    } else {
        0
    }
}

/// How much of a vault's reward token account the harvest may take; refused
/// when the account (of mint `account_mint`) is not an account of the reward
/// token.
pub fn get_reward_token_amount(account_mint: Pubkey, reward_token_mint: Pubkey, amount: u64, owner: Pubkey,
    delegate: Option<Pubkey>, delegated_amount: u64, signer: Pubkey) -> (r: Result<u64, ErrorCode>)
    ensures
        account_mint != reward_token_mint ==> r == Err::<u64, ErrorCode>(ErrorCode::RequireKeysEqViolated),
        account_mint == reward_token_mint ==> r == Ok::<u64, ErrorCode>(spec_reward_token_amount(amount, owner, delegate, delegated_amount, signer)),
        r matches Ok(taken) ==> taken <= amount,
{
    if account_mint != reward_token_mint {
        return Err(ErrorCode::RequireKeysEqViolated);
    }
    if owner == signer {
        Ok(amount)
    } else if delegate == Some(signer) {
        if amount < delegated_amount { Ok(amount) } else { Ok(delegated_amount) }
    } else {
        Ok(0)
    }
}

/// Who signs for the vault's reward token account: the fund account for Jito
/// and Solv vaults (it is the delegate), the virtual vault itself otherwise.
pub fn reward_token_account_signer(kind: VaultKind, fund_account: Pubkey, vault: Pubkey) -> (r: Pubkey)
    ensures
        r == (if kind == VaultKind::Virtual { vault } else { fund_account }),
{
    match kind {
        VaultKind::Virtual => vault,
        _ => fund_account,
    }
}

/// The commission and the rest of a harvested reward.
pub open spec fn spec_commission(amount: u64, rate_bps: u16) -> int {
    if rate_bps > 0 { proportional(amount as int, rate_bps as int, 10_000) } else { 0 }
}

/// Splits a harvested reward into the program's commission (`rate_bps` basis
/// points, rounded down) and the amount that goes on to the fund or the reward pool.
pub fn split_commission(amount: u64, rate_bps: u16) -> (r: Result<(u64, u64), ErrorCode>)
    requires
        rate_bps <= 10_000,
    ensures
        r == Ok::<(u64, u64), ErrorCode>((spec_commission(amount, rate_bps) as u64, (amount - spec_commission(amount, rate_bps)) as u64)),
{
    if rate_bps > 0 {
        proof {
            crate::math::lemma_proportional_le_amount(amount as int, rate_bps as int, 10_000);
        }
        let deducted = match get_proportional_amount(amount, rate_bps as u64, 10_000) {
            Ok(d) => d,
            Err(e) => return Err(e),
        };
        Ok((deducted, amount - deducted))
    } else {
        Ok((0, amount))
    }
}

/// The commission never exceeds the reward, and commission and rest add up to the reward.
pub proof fn lemma_commission_splits(amount: u64, rate_bps: u16)
    requires
        rate_bps <= 10_000,
    ensures
        0 <= spec_commission(amount, rate_bps) <= amount,
{
    if rate_bps > 0 {
        crate::math::lemma_proportional_le_amount(amount as int, rate_bps as int, 10_000);
    }
}

/// The vault's reward token account candidates: the mint, then the vault's
/// associated token accounts under the token program and under token-2022.
pub open spec fn spec_vault_reward_token_account_candidates(vault: Pubkey, mint: Pubkey) -> Seq<OperationCommandAccountMeta> {
    seq![
        OperationCommandAccountMeta { pubkey: mint, is_writable: false },
        OperationCommandAccountMeta {
            pubkey: associated_token_address(vault, mint,
                Pubkey { w0: 0x93a165d7e1f6dd06, w1: 0xac79ebce46e1cbd9, w2: 0x91375b5fed85b41c, w3: 0xa900ff7e85f58c3a }),
            is_writable: false,
        },
        OperationCommandAccountMeta {
            pubkey: associated_token_address(vault, mint,
                Pubkey { w0: 0xde8f75eee1f6dd06, w1: 0xdacd6ce4bc5d4218, w2: 0x270db9834dfc1ab6, w3: 0xfc8ba1d828f9bdfe }),
            is_writable: false,
        },
    ]
}

/// `VaultRewardTokenAccountCandidates::find_accounts`: which token program
/// the reward token belongs to is not known yet, so both accounts are listed.
/// Refused when either address cannot be derived.
pub fn find_vault_reward_token_account_candidates(vault: Pubkey, mint: Pubkey) -> (r: Result<Vec<OperationCommandAccountMeta>, ErrorCode>)
    ensures
        r matches Ok(accounts) ==> accounts@ == spec_vault_reward_token_account_candidates(vault, mint),
        r is Ok <==> associated_token_address_found(vault, mint, Pubkey { w0: 0x93a165d7e1f6dd06, w1: 0xac79ebce46e1cbd9, w2: 0x91375b5fed85b41c, w3: 0xa900ff7e85f58c3a })
            && associated_token_address_found(vault, mint, Pubkey { w0: 0xde8f75eee1f6dd06, w1: 0xdacd6ce4bc5d4218, w2: 0x270db9834dfc1ab6, w3: 0xfc8ba1d828f9bdfe }),
        r is Err ==> r == Err::<Vec<OperationCommandAccountMeta>, ErrorCode>(ErrorCode::ProgramAddressNotFound),
{
    let token = token_program_id();
    let token_2022 = token_2022_program_id();
    let a = match get_associated_token_address_with_program_id(&vault, &mint, &token) {
        Some(a) => a,
        None => return Err(ErrorCode::ProgramAddressNotFound),
    };
    let b = match get_associated_token_address_with_program_id(&vault, &mint, &token_2022) {
        Some(b) => b,
        None => return Err(ErrorCode::ProgramAddressNotFound),
    };
    let mut r: Vec<OperationCommandAccountMeta> = Vec::new();
    r.push(OperationCommandAccountMeta { pubkey: mint, is_writable: false });
    r.push(OperationCommandAccountMeta { pubkey: a, is_writable: false });
    r.push(OperationCommandAccountMeta { pubkey: b, is_writable: false });
    assert(r@ =~= spec_vault_reward_token_account_candidates(vault, mint));
    Ok(r)
}

/// `VaultRewardTokenAccountCandidates::pop_from`: which of the two candidate
/// accounts (0 for the token program, 1 for token-2022) is the vault's
/// reward token account, by the owner of the mint handed over. Refused when
/// the mint handed over is not the expected one or belongs to another program.
pub fn select_vault_reward_token_account(given_mint: Pubkey, expected_mint: Pubkey, mint_owner: Pubkey) -> (r: Result<usize, ErrorCode>)
    ensures
        given_mint != expected_mint ==> r == Err::<usize, ErrorCode>(ErrorCode::RequireKeysEqViolated),
        given_mint == expected_mint && mint_owner == (Pubkey { w0: 0x93a165d7e1f6dd06, w1: 0xac79ebce46e1cbd9, w2: 0x91375b5fed85b41c, w3: 0xa900ff7e85f58c3a })
            ==> r == Ok::<usize, ErrorCode>(0),
        given_mint == expected_mint && mint_owner == (Pubkey { w0: 0xde8f75eee1f6dd06, w1: 0xdacd6ce4bc5d4218, w2: 0x270db9834dfc1ab6, w3: 0xfc8ba1d828f9bdfe })
            ==> r == Ok::<usize, ErrorCode>(1),
        given_mint == expected_mint
            && mint_owner != (Pubkey { w0: 0x93a165d7e1f6dd06, w1: 0xac79ebce46e1cbd9, w2: 0x91375b5fed85b41c, w3: 0xa900ff7e85f58c3a })
            && mint_owner != (Pubkey { w0: 0xde8f75eee1f6dd06, w1: 0xdacd6ce4bc5d4218, w2: 0x270db9834dfc1ab6, w3: 0xfc8ba1d828f9bdfe })
            ==> r == Err::<usize, ErrorCode>(ErrorCode::InvalidProgramId),
{
    if given_mint != expected_mint {
        return Err(ErrorCode::RequireKeysEqViolated);
    }
    let token = token_program_id();
    let token_2022 = token_2022_program_id();
    if mint_owner == token {
        Ok(0)
    } else if mint_owner == token_2022 {
        Ok(1)
    } else {
        Err(ErrorCode::InvalidProgramId)
    }
}

/// `CommonAccounts::find_accounts`: the reward token's program, its mint, the
/// vault's reward token account (written) and the account's signer.
pub fn find_common_accounts(mint: Pubkey, mint_owner: Pubkey, vault_reward_token_account: Pubkey, signer: Pubkey)
    -> (r: Vec<OperationCommandAccountMeta>)
    ensures
        r@ == seq![
            OperationCommandAccountMeta { pubkey: mint_owner, is_writable: false },
            OperationCommandAccountMeta { pubkey: mint, is_writable: false },
            OperationCommandAccountMeta { pubkey: vault_reward_token_account, is_writable: true },
            OperationCommandAccountMeta { pubkey: signer, is_writable: false },
        ],
{
    let mut r: Vec<OperationCommandAccountMeta> = Vec::new();
    r.push(OperationCommandAccountMeta { pubkey: mint_owner, is_writable: false });
    r.push(OperationCommandAccountMeta { pubkey: mint, is_writable: false });
    r.push(OperationCommandAccountMeta { pubkey: vault_reward_token_account, is_writable: true });
    r.push(OperationCommandAccountMeta { pubkey: signer, is_writable: false });
    assert(r@ =~= seq![
        OperationCommandAccountMeta { pubkey: mint_owner, is_writable: false },
        OperationCommandAccountMeta { pubkey: mint, is_writable: false },
        OperationCommandAccountMeta { pubkey: vault_reward_token_account, is_writable: true },
        OperationCommandAccountMeta { pubkey: signer, is_writable: false },
    ]);
    r
}

/// `CommissionAccounts::find_accounts`: the program revenue account, its
/// reward token account (written), the system program and the associated
/// token program. Refused when the reward token account's address cannot be derived.
pub fn find_commission_accounts(program_revenue: Pubkey, mint: Pubkey, mint_owner: Pubkey) -> (r: Result<Vec<OperationCommandAccountMeta>, ErrorCode>)
    ensures
        r is Err ==> r == Err::<Vec<OperationCommandAccountMeta>, ErrorCode>(ErrorCode::ProgramAddressNotFound),
        r is Ok <==> associated_token_address_found(program_revenue, mint, mint_owner),
        r matches Ok(accounts) ==> accounts@ == seq![
            OperationCommandAccountMeta { pubkey: program_revenue, is_writable: false },
            OperationCommandAccountMeta { pubkey: associated_token_address(program_revenue, mint, mint_owner), is_writable: true },
            OperationCommandAccountMeta { pubkey: Pubkey::spec_zero(), is_writable: false },
            OperationCommandAccountMeta {
                pubkey: Pubkey { w0: 0xf189244e8f25978c, w1: 0x830d8e1429103dbb, w2: 0x8410ffda99135a0b, w3: 0x59f8e9dbd87b8e04 },
                is_writable: false,
            },
        ],
{
    let ata = match get_associated_token_address_with_program_id(&program_revenue, &mint, &mint_owner) {
        Some(a) => a,
        None => return Err(ErrorCode::ProgramAddressNotFound),
    };
    let system = system_program_id();
    let ata_program = associated_token_program_id();
    let mut r: Vec<OperationCommandAccountMeta> = Vec::new();
    r.push(OperationCommandAccountMeta { pubkey: program_revenue, is_writable: false });
    r.push(OperationCommandAccountMeta { pubkey: ata, is_writable: true });
    r.push(OperationCommandAccountMeta { pubkey: system, is_writable: false });
    r.push(OperationCommandAccountMeta { pubkey: ata_program, is_writable: false });
    assert(r@ =~= seq![
        OperationCommandAccountMeta { pubkey: program_revenue, is_writable: false },
        OperationCommandAccountMeta { pubkey: associated_token_address(program_revenue, mint, mint_owner), is_writable: true },
        OperationCommandAccountMeta { pubkey: Pubkey::spec_zero(), is_writable: false },
        OperationCommandAccountMeta {
            pubkey: Pubkey { w0: 0xf189244e8f25978c, w1: 0x830d8e1429103dbb, w2: 0x8410ffda99135a0b, w3: 0x59f8e9dbd87b8e04 },
            is_writable: false,
        },
    ]);
    Ok(r)
}

/// `CommonAccounts::pop_from`: the reward token's program, its mint (which
/// must be the current reward token), the reward token account and its signer
/// come first.
pub fn check_common_accounts(num_accounts: usize, given_mint: Pubkey, mint: Pubkey) -> (r: Result<(), ErrorCode>)
    ensures
        num_accounts < 4 ==> r == Err::<(), ErrorCode>(ErrorCode::AccountNotEnoughKeys),
        num_accounts >= 4 ==> r == (if given_mint != mint { Err::<(), ErrorCode>(ErrorCode::RequireKeysEqViolated) } else { Ok::<(), ErrorCode>(()) }),
{
    if num_accounts < 4 {
        return Err(ErrorCode::AccountNotEnoughKeys);
    }
    if given_mint != mint {
        return Err(ErrorCode::RequireKeysEqViolated);
    }
    Ok(())
}

/// `CommissionAccounts::pop_from`: the program revenue account and its
/// associated token account of the reward token (under the mint's program)
/// come first, then the system and associated token programs. The reward
/// token account's address is derived once the revenue account matches; when
/// it cannot be derived the step is refused.
pub fn check_commission_accounts(account_keys: &Vec<Pubkey>, program_revenue: Pubkey, mint: Pubkey, mint_owner: Pubkey)
    -> (r: Result<(), ErrorCode>)
    ensures
        account_keys.len() < 4 ==> r == Err::<(), ErrorCode>(ErrorCode::AccountNotEnoughKeys),
        account_keys.len() >= 4 && account_keys@[0] != program_revenue ==> r == Err::<(), ErrorCode>(ErrorCode::RequireKeysEqViolated),
        account_keys.len() >= 4 && account_keys@[0] == program_revenue ==> r == (
            if !associated_token_address_found(program_revenue, mint, mint_owner) {
                Err::<(), ErrorCode>(ErrorCode::ProgramAddressNotFound)
            } else if account_keys@[1] != associated_token_address(program_revenue, mint, mint_owner) {
                Err::<(), ErrorCode>(ErrorCode::RequireKeysEqViolated)
            } else {
                Ok::<(), ErrorCode>(())
            }),
{
    if account_keys.len() < 4 {
        return Err(ErrorCode::AccountNotEnoughKeys);
    }
    if account_keys[0] != program_revenue {
        return Err(ErrorCode::RequireKeysEqViolated);
    }
    let ata = match get_associated_token_address_with_program_id(&program_revenue, &mint, &mint_owner) {
        Some(a) => a,
        None => return Err(ErrorCode::ProgramAddressNotFound),
    };
    if account_keys[1] != ata {
        return Err(ErrorCode::RequireKeysEqViolated);
    }
    Ok(())
}

/// The `PrepareSwap` step's checks: the swap pool, the current reward token
/// mint, the reward token account, the token swapped to and the reward token
/// account's signer come first.
pub fn check_prepare_swap_accounts(account_keys: &Vec<Pubkey>, pool: Pubkey, reward_token_mint: Pubkey, to_token_mint: Pubkey)
    -> (r: Result<(), ErrorCode>)
    ensures
        r == (if account_keys.len() < 5 {
            Err(ErrorCode::AccountNotEnoughKeys)
        } else if account_keys@[0] != pool || account_keys@[1] != reward_token_mint || account_keys@[3] != to_token_mint {
            Err(ErrorCode::RequireKeysEqViolated)
        } else {
            Ok(())
        }),
{
    if account_keys.len() < 5 {
        return Err(ErrorCode::AccountNotEnoughKeys);
    }
    if account_keys[0] != pool || account_keys[1] != reward_token_mint || account_keys[3] != to_token_mint {
        return Err(ErrorCode::RequireKeysEqViolated);
    }
    Ok(())
}

/// A transfer of reward tokens takes the next account, which must be the
/// token account they go to.
pub fn check_transfer_account(account_keys: &Vec<Pubkey>, to_reward_token_account: Pubkey) -> (r: Result<(), ErrorCode>)
    ensures
        r == (if account_keys.len() < 1 {
            Err(ErrorCode::AccountNotEnoughKeys)
        } else if account_keys@[0] != to_reward_token_account {
            Err(ErrorCode::RequireKeysEqViolated)
        } else {
            Ok(())
        }),
{
    if account_keys.len() < 1 {
        return Err(ErrorCode::AccountNotEnoughKeys);
    }
    if account_keys[0] != to_reward_token_account {
        return Err(ErrorCode::RequireKeysEqViolated);
    }
    Ok(())
}

/// A swap of reward tokens takes the next fourteen accounts: the supported
/// token account swapped into first and the swap pool third.
pub fn check_swap_accounts(account_keys: &Vec<Pubkey>, pool: Pubkey, to_supported_token_account: Pubkey) -> (r: Result<(), ErrorCode>)
    ensures
        r == (if account_keys.len() < 14 {
            Err(ErrorCode::AccountNotEnoughKeys)
        } else if account_keys@[2] != pool || account_keys@[0] != to_supported_token_account {
            Err(ErrorCode::RequireKeysEqViolated)
        } else {
            Ok(())
        }),
{
    if account_keys.len() < 14 {
        return Err(ErrorCode::AccountNotEnoughKeys);
    }
    if account_keys[2] != pool || account_keys[0] != to_supported_token_account {
        return Err(ErrorCode::RequireKeysEqViolated);
    }
    Ok(())
}

/// The vault supported token harvest: a Jito or Solv vault reports the
/// compounded amount and its exchange-ratio numerator, and the compounded
/// amount is reset; a virtual vault reports nothing. Returns the yield token
/// amount, the compounded amount and the vault's new compounded amount.
pub fn compound_vault_supported_token(kind: VaultKind, exchange_ratio_numerator: u64, supported_token_compounded_amount: i128)
    -> (r: (u64, i128, i128))
    ensures
        kind == VaultKind::Virtual ==> r == (0u64, 0i128, supported_token_compounded_amount),
        kind != VaultKind::Virtual ==> r == (exchange_ratio_numerator, supported_token_compounded_amount, 0i128),
{
    match kind {
        VaultKind::Virtual => (0, 0, supported_token_compounded_amount),
        _ => (exchange_ratio_numerator, supported_token_compounded_amount, 0),
    }
}

/// The result of the vault supported token harvest: only when something was compounded.
pub fn compound_vault_supported_token_result(vault: Pubkey, supported_token_mint: Pubkey, yield_token_amount: u64, compounded: i128)
    -> (r: Option<HarvestRestakingYieldCommandResult>)
    ensures
        compounded == 0 ==> r is None,
        compounded != 0 ==> r == Some(HarvestRestakingYieldCommandResult {
            vault,
            yield_token_mint: supported_token_mint,
            yield_token_amount,
            swapped_token_mint: None,
            fund_supported_token_compounded_token_amount: 0,
            reward_token_distributed_token_amount: 0,
            updated_reward_account: None,
            vault_supported_token_compounded_amount: compounded,
        }),
{
    if compounded == 0 {
        None
    } else {
        Some(HarvestRestakingYieldCommandResult {
            vault,
            yield_token_mint: supported_token_mint,
            yield_token_amount,
            swapped_token_mint: None,
            fund_supported_token_compounded_token_amount: 0,
            reward_token_distributed_token_amount: 0,
            updated_reward_account: None,
            vault_supported_token_compounded_amount: compounded,
        })
    }
}

/// What a reward harvest moves on (to the fund's reserve, a swap or the
/// reward pool): the available amount less the program's commission, for a
/// Jito, Solv or virtual vault; a receipt token from anything else is a
/// misconfigured fund.
pub fn net_harvest_amount(source: &Option<TokenPricingSource>, available: u64, rate_bps: u16) -> (r: Result<u64, ErrorCode>)
    requires
        rate_bps <= 10_000,
    ensures
        spec_vault_kind(*source) is None ==> r == Err::<u64, ErrorCode>(ErrorCode::FundOperationCommandExecutionFailedException),
        spec_vault_kind(*source) is Some ==> r == Ok::<u64, ErrorCode>((available - spec_commission(available, rate_bps)) as u64),
{
    match vault_kind(source) {
        Ok(_) => match split_commission(available, rate_bps) {
            Ok((_, rest)) => Ok(rest),
            Err(e) => Err(e),
        },
        Err(e) => Err(e),
    }
}

/// After compounding a reward token as it is: when anything was moved, the
/// supported token's reserved amount grows by it, the reward's last harvest
/// time becomes `now` and a result is reported; otherwise nothing changes.
/// Returns the reserved amount, the last harvest time and the result.
pub fn compound_reward_result(vault: Pubkey, reward_token_mint: Pubkey, compounded: u64, token_operation_reserved_amount: u64,
    last_harvested_at: i64, now: i64)
    -> (r: (u64, i64, Option<HarvestRestakingYieldCommandResult>))
    requires
        token_operation_reserved_amount + compounded <= u64::MAX,
    ensures
        compounded == 0 ==> r == (token_operation_reserved_amount, last_harvested_at, None::<HarvestRestakingYieldCommandResult>),
        compounded > 0 ==> r == ((token_operation_reserved_amount + compounded) as u64, now, Some(HarvestRestakingYieldCommandResult {
            vault,
            yield_token_mint: reward_token_mint,
            yield_token_amount: compounded,
            swapped_token_mint: None,
            fund_supported_token_compounded_token_amount: compounded,
            reward_token_distributed_token_amount: 0,
            updated_reward_account: None,
            vault_supported_token_compounded_amount: 0,
        })),
{
    if compounded == 0 {
        return (token_operation_reserved_amount, last_harvested_at, None);
    }
    (token_operation_reserved_amount + compounded, now, Some(HarvestRestakingYieldCommandResult {
        vault,
        yield_token_mint: reward_token_mint,
        yield_token_amount: compounded,
        swapped_token_mint: None,
        fund_supported_token_compounded_token_amount: compounded,
        reward_token_distributed_token_amount: 0,
        updated_reward_account: None,
        vault_supported_token_compounded_amount: 0,
    }))
}

/// After swapping a reward token (`swapped_reward` of it went in, `compounded`
/// of the supported token came out): when anything came out, the supported
/// token's reserved amount grows by it, the reward's last harvest time becomes
/// `now` and a result is reported; otherwise nothing changes. Returns the
/// reserved amount, the last harvest time and the result.
pub fn swap_reward_result(vault: Pubkey, reward_token_mint: Pubkey, supported_token_mint: Pubkey, swapped_reward: u64,
    compounded: u64, token_operation_reserved_amount: u64, last_harvested_at: i64, now: i64)
    -> (r: (u64, i64, Option<HarvestRestakingYieldCommandResult>))
    requires
        token_operation_reserved_amount + compounded <= u64::MAX,
    ensures
        compounded == 0 ==> r == (token_operation_reserved_amount, last_harvested_at, None::<HarvestRestakingYieldCommandResult>),
        compounded > 0 ==> r == ((token_operation_reserved_amount + compounded) as u64, now, Some(HarvestRestakingYieldCommandResult {
            vault,
            yield_token_mint: reward_token_mint,
            yield_token_amount: swapped_reward,
            swapped_token_mint: Some(supported_token_mint),
            fund_supported_token_compounded_token_amount: compounded,
            reward_token_distributed_token_amount: 0,
            updated_reward_account: None,
            vault_supported_token_compounded_amount: 0,
        })),
{
    if compounded == 0 {
        return (token_operation_reserved_amount, last_harvested_at, None);
    }
    (token_operation_reserved_amount + compounded, now, Some(HarvestRestakingYieldCommandResult {
        vault,
        yield_token_mint: reward_token_mint,
        yield_token_amount: swapped_reward,
        swapped_token_mint: Some(supported_token_mint),
        fund_supported_token_compounded_token_amount: compounded,
        reward_token_distributed_token_amount: 0,
        updated_reward_account: None,
        vault_supported_token_compounded_amount: 0,
    }))
}

/// After moving a reward token to the reward pool: when anything was moved,
/// the reward's last harvest time becomes `now` and a result, naming the
/// reward account it settled on, is reported; otherwise nothing changes.
/// Returns the last harvest time and the result.
pub fn distribute_reward_result(vault: Pubkey, reward_token_mint: Pubkey, distributed: u64, reward_account: Pubkey,
    last_harvested_at: i64, now: i64)
    -> (r: (i64, Option<HarvestRestakingYieldCommandResult>))
    ensures
        distributed == 0 ==> r == (last_harvested_at, None::<HarvestRestakingYieldCommandResult>),
        distributed > 0 ==> r == (now, Some(HarvestRestakingYieldCommandResult {
            vault,
            yield_token_mint: reward_token_mint,
            yield_token_amount: distributed,
            swapped_token_mint: None,
            fund_supported_token_compounded_token_amount: 0,
            reward_token_distributed_token_amount: distributed,
            updated_reward_account: Some(reward_account),
            vault_supported_token_compounded_amount: 0,
        })),
{
    if distributed == 0 {
        return (last_harvested_at, None);
    }
    (now, Some(HarvestRestakingYieldCommandResult {
        vault,
        yield_token_mint: reward_token_mint,
        yield_token_amount: distributed,
        swapped_token_mint: None,
        fund_supported_token_compounded_token_amount: 0,
        reward_token_distributed_token_amount: distributed,
        updated_reward_account: Some(reward_account),
        vault_supported_token_compounded_amount: 0,
    }))
}

/// Which of a vault's reward tokens a harvest threshold is read from:
/// compounding rewards (`true`) or distributing rewards (`false`); the vault
/// supported token harvest has no threshold.
pub fn threshold_of_compounding_reward(t: HarvestType) -> (r: Result<bool, ErrorCode>)
    ensures
        r == (match t {
            HarvestType::CompoundReward => Ok(true),
            HarvestType::DistributeReward => Ok(false),
            HarvestType::CompoundVaultSupportedToken => Err(ErrorCode::FundOperationCommandExecutionFailedException),
        }),
{
    match t {
        HarvestType::CompoundReward => Ok(true),
        HarvestType::DistributeReward => Ok(false),
        HarvestType::CompoundVaultSupportedToken => Err(ErrorCode::FundOperationCommandExecutionFailedException),
    }
}

/// After a reward token of a vault, the harvest moves on to the vault's next
/// reward token (none left: the next vault).
pub fn remaining_reward_token_mints(mints: &Vec<Pubkey>) -> (r: Vec<Pubkey>)
    ensures
        mints.len() > 0 ==> r@ == mints@.drop_first(),
        mints.len() == 0 ==> r@ == Seq::<Pubkey>::empty(),
{
    crate::iteration::skip_first(mints)
}

/// What follows a step of the restaking yield harvest.
#[derive(Clone, Debug)]
pub enum RestakingYieldNext {
    /// The step gave the harvest's next step, with the accounts it needs.
    Continue(HarvestRestakingYieldCommand, Vec<OperationCommandAccountMeta>),
    /// The harvest is done: staking starts afresh, needing no account.
    StakeSOL(OperationCommandEntry),
}

/// The hand-over after a step: the step's own next step, or, when it gave
/// none, the staking command in its first (`New`) state with no accounts.
pub fn next_after_step(entry: Option<(HarvestRestakingYieldCommand, Vec<OperationCommandAccountMeta>)>) -> (r: RestakingYieldNext)
    ensures
        entry is None ==> (r matches RestakingYieldNext::StakeSOL(e)
            && e.command == OperationCommand::StakeSOL(StakeSOLCommand { state: StakeSOLCommandState::New })
            && e.required_accounts.len() == 0),
        entry matches Some((c, accounts)) ==> (r matches RestakingYieldNext::Continue(c2, accounts2) && c2 == c && accounts2@ == accounts@),
{
    match entry {
        Some((c, accounts)) => RestakingYieldNext::Continue(c, accounts),
        None => RestakingYieldNext::StakeSOL(OperationCommandEntry::without_required_accounts(
            OperationCommand::StakeSOL(StakeSOLCommand::default()))),
    }
}

} // verus!
