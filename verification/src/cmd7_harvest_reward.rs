use vstd::prelude::*;
use crate::cmd10_harvest_restaking_yield::{find_vault_reward_token_account_candidates, spec_vault_reward_token_account_candidates};
use crate::errors::ErrorCode;
use crate::iteration::skip_first;
use crate::operation_command::OperationCommandAccountMeta;
use crate::programs::{associated_token_address, associated_token_address_found, get_associated_token_address_with_program_id};
use crate::pubkey::Pubkey;

verus! {

/// How a compounding reward token is harvested.
#[derive(Clone, Copy, PartialEq, Eq, Structural, Debug)]
pub enum HarvestType {
    /// Swap it to this supported token.
    Swap(Pubkey),
    /// It is a supported token: move it as it is.
    Transfer,
}

/// One reward token of the current vault to harvest.
#[derive(Clone, Copy, PartialEq, Eq, Structural, Debug)]
pub struct HarvestRewardCommandItem {
    pub reward_token_mint: Pubkey,
    pub harvest_type: HarvestType,
}

/// Where the reward harvest stands: the vaults still to visit (the first is
/// the current one) and the current vault's reward tokens still to harvest.
#[derive(Clone, Debug)]
pub enum HarvestRewardCommandState {
    New,
    Prepare { vaults: Vec<Pubkey>, items: Vec<HarvestRewardCommandItem> },
    PrepareSwap { vaults: Vec<Pubkey>, items: Vec<HarvestRewardCommandItem> },
    Execute { vaults: Vec<Pubkey>, items: Vec<HarvestRewardCommandItem> },
}

/// Compounds the rewards restaking vaults received into the fund.
#[derive(Clone, Debug)]
pub struct HarvestRewardCommand {
    pub state: HarvestRewardCommandState,
}

impl Default for HarvestRewardCommand {
    fn default() -> (r: Self)
        ensures
            r.state is New,
    {
        HarvestRewardCommand { state: HarvestRewardCommandState::New }
    }
}

/// What one harvest did.
#[derive(Clone, Copy, PartialEq, Eq, Structural, Debug)]
pub struct HarvestRewardCommandResult {
    pub reward_token_mint: Pubkey,
    pub reward_token_amount: u64,
    pub swapped_token_mint: Option<Pubkey>,
    pub distributed_token_amount: u64,
    pub compounded_token_amount: u64,
}

/// A restaking vault with its compounding reward tokens, each with how it is harvested.
#[derive(Clone, Debug)]
pub struct CompoundingVaultInfo {
    pub vault: Pubkey,
    pub items: Vec<HarvestRewardCommandItem>,
}

/// The first vault that has reward tokens, from the front.
pub open spec fn spec_first_vault_with_rewards(vaults: Seq<CompoundingVaultInfo>) -> Option<int>
    decreases vaults.len(),
{
    if vaults.len() == 0 {
        None
    } else if vaults[0].items.len() > 0 {
        Some(0int)
    } else {
        match spec_first_vault_with_rewards(vaults.drop_first()) {
            Some(i) => Some(i + 1),
            None => None,
        }
    }
}

proof fn lemma_first_vault_with_rewards(vaults: Seq<CompoundingVaultInfo>, k: int)
    requires
        0 <= k <= vaults.len(),
        forall|j: int| 0 <= j < k ==> #[trigger] vaults[j].items.len() == 0,
    ensures
        spec_first_vault_with_rewards(vaults) == (match spec_first_vault_with_rewards(vaults.skip(k)) {
            Some(i) => Some(i + k),
            None => None,
        }),
    decreases k,
{
    if k > 0 {
        assert(vaults[0].items.len() == 0);
        lemma_first_vault_with_rewards(vaults.drop_first(), k - 1);
        assert(vaults.drop_first().skip(k - 1) =~= vaults.skip(k));
    } else {
        assert(vaults.skip(0) =~= vaults);
    }
}

/// The `New` step and the move to the next vault: the vaults from the first
/// one with reward tokens on, with that vault's items; nothing when no vault
/// has reward tokens.
pub fn find_command_items(vaults: &Vec<CompoundingVaultInfo>) -> (r: (Vec<Pubkey>, Vec<HarvestRewardCommandItem>))
    ensures
        spec_first_vault_with_rewards(vaults@) is None ==> r.0.len() == 0 && r.1.len() == 0,
        spec_first_vault_with_rewards(vaults@) matches Some(i) ==> 0 <= i < vaults.len()
            && r.0@ == vaults@.skip(i).map_values(|v: CompoundingVaultInfo| v.vault)
            && r.1@ == vaults@[i].items@ && r.1.len() > 0,
{
    let mut i: usize = 0;
    while i < vaults.len()
        invariant
            i <= vaults.len(),
            forall|j: int| 0 <= j < i ==> #[trigger] vaults@[j].items.len() == 0,
        decreases vaults.len() - i,
    {
        if vaults[i].items.len() > 0 {
            proof {
                lemma_first_vault_with_rewards(vaults@, i as int);
                assert(spec_first_vault_with_rewards(vaults@.skip(i as int)) == Some(0int));
            }
            let mut keys: Vec<Pubkey> = Vec::new();
            let mut k: usize = i;
            while k < vaults.len()
                invariant
                    i <= k <= vaults.len(),
                    keys@ == vaults@.subrange(i as int, k as int).map_values(|v: CompoundingVaultInfo| v.vault),
                decreases vaults.len() - k,
            {
                keys.push(vaults[k].vault);
                k += 1;
                assert(keys@ =~= vaults@.subrange(i as int, k as int).map_values(|v: CompoundingVaultInfo| v.vault));
            }
            assert(vaults@.subrange(i as int, vaults.len() as int) =~= vaults@.skip(i as int));
            return (keys, vaults[i].items.clone());
        }
        i += 1;
    }
    proof {
        lemma_first_vault_with_rewards(vaults@, vaults.len() as int);
        assert(vaults@.skip(vaults.len() as int).len() == 0);
    }
    (Vec::new(), Vec::new())
}

/// The `Prepare` step of the current reward token: none when no vault or no
/// item is left; otherwise with the mint and the vault's two candidate
/// reward token accounts (under the token program and under token-2022);
/// refused when those accounts' addresses cannot be derived.
pub fn create_prepare_command_with_items(vaults: Vec<Pubkey>, items: Vec<HarvestRewardCommandItem>)
    -> (r: Result<Option<(HarvestRewardCommand, Vec<OperationCommandAccountMeta>)>, ErrorCode>)
    ensures
        vaults.len() == 0 || items.len() == 0 ==> r == Ok::<Option<(HarvestRewardCommand, Vec<OperationCommandAccountMeta>)>, ErrorCode>(None),
        r is Err ==> r == Err::<Option<(HarvestRewardCommand, Vec<OperationCommandAccountMeta>)>, ErrorCode>(ErrorCode::ProgramAddressNotFound),
        vaults.len() > 0 && items.len() > 0 ==> (r is Ok <==>
            associated_token_address_found(vaults@[0], items@[0].reward_token_mint, Pubkey { w0: 0x93a165d7e1f6dd06, w1: 0xac79ebce46e1cbd9, w2: 0x91375b5fed85b41c, w3: 0xa900ff7e85f58c3a })
            && associated_token_address_found(vaults@[0], items@[0].reward_token_mint, Pubkey { w0: 0xde8f75eee1f6dd06, w1: 0xdacd6ce4bc5d4218, w2: 0x270db9834dfc1ab6, w3: 0xfc8ba1d828f9bdfe })),
        vaults.len() > 0 && items.len() > 0 && r is Ok ==> (r matches Ok(Some((c, accounts)))
            && c.state matches HarvestRewardCommandState::Prepare { vaults: v, items: it } && v@ == vaults@ && it@ == items@
            && accounts@ == spec_vault_reward_token_account_candidates(vaults@[0], items@[0].reward_token_mint)),
{
    if vaults.len() == 0 || items.len() == 0 {
        return Ok(None);
    }
    let accounts = match find_vault_reward_token_account_candidates(vaults[0], items[0].reward_token_mint) {
        Ok(a) => a,
        Err(e) => return Err(e),
    };
    Ok(Some((HarvestRewardCommand { state: HarvestRewardCommandState::Prepare { vaults, items } }, accounts)))
}

/// Which of the two candidate accounts is the vault's reward token account (0
/// under the token program, 1 under token-2022), by the program that owns the
/// mint handed over first; at least three accounts must be handed over.
pub fn select_candidate(num_accounts: usize, mint_program: Pubkey) -> (r: Result<usize, ErrorCode>)
    ensures
        num_accounts < 3 ==> r == Err::<usize, ErrorCode>(ErrorCode::AccountNotEnoughKeys),
        num_accounts >= 3 ==> r == (if mint_program == (Pubkey { w0: 0x93a165d7e1f6dd06, w1: 0xac79ebce46e1cbd9, w2: 0x91375b5fed85b41c, w3: 0xa900ff7e85f58c3a }) {
            Ok::<usize, ErrorCode>(0)
        } else if mint_program == (Pubkey { w0: 0xde8f75eee1f6dd06, w1: 0xdacd6ce4bc5d4218, w2: 0x270db9834dfc1ab6, w3: 0xfc8ba1d828f9bdfe }) {
            Ok::<usize, ErrorCode>(1)
        } else {
            Err::<usize, ErrorCode>(ErrorCode::InvalidProgramId)
        }),
{
    if num_accounts < 3 {
        return Err(ErrorCode::AccountNotEnoughKeys);
    }
    if mint_program == crate::programs::token_program_id() {
        Ok(0)
    } else if mint_program == crate::programs::token_2022_program_id() {
        Ok(1)
    } else {
        Err(ErrorCode::InvalidProgramId)
    }
}

/// Where the command goes after the current reward token (harvested or passed over).
#[derive(Clone, Debug)]
pub enum AfterItem {
    /// The current vault's next reward token.
    NextItem { vaults: Vec<Pubkey>, items: Vec<HarvestRewardCommandItem> },
    /// The vaults after the current one (their items are looked up again).
    NextVaults { vaults: Vec<Pubkey> },
}

/// After the current reward token: the vault's next one, or the next vaults
/// when it was the last.
pub fn after_item(vaults: Vec<Pubkey>, items: &Vec<HarvestRewardCommandItem>) -> (r: AfterItem)
    requires
        items.len() > 0,
    ensures
        items.len() > 1 ==> (r matches AfterItem::NextItem { vaults: v, items: it } && v@ == vaults@ && it@ == items@.drop_first()),
        items.len() == 1 ==> (r matches AfterItem::NextVaults { vaults: v }
            && (vaults.len() > 0 ==> v@ == vaults@.drop_first()) && (vaults.len() == 0 ==> v.len() == 0)),
{
    if items.len() > 1 {
        AfterItem::NextItem { vaults, items: skip_first(items) }
    } else {
        AfterItem::NextVaults { vaults: skip_first(&vaults) }
    }
}

/// The `PrepareSwap` step for a swapped reward: the swap pool.
pub fn swap_prepare_entry(vaults: Vec<Pubkey>, items: Vec<HarvestRewardCommandItem>, pool: Pubkey, supported_token_mint: Pubkey)
    -> (r: (HarvestRewardCommand, Vec<OperationCommandAccountMeta>))
    requires
        items.len() > 0,
    ensures
        r.0.state matches HarvestRewardCommandState::PrepareSwap { vaults: v, items: it } && v@ == vaults@ && it@ == items@,
        r.1@ == seq![
            OperationCommandAccountMeta { pubkey: pool, is_writable: false },
            OperationCommandAccountMeta { pubkey: items@[0].reward_token_mint, is_writable: false },
            OperationCommandAccountMeta { pubkey: supported_token_mint, is_writable: false },
        ],
{
    let mint = items[0].reward_token_mint;
    let mut accounts: Vec<OperationCommandAccountMeta> = Vec::new();
    accounts.push(OperationCommandAccountMeta { pubkey: pool, is_writable: false });
    accounts.push(OperationCommandAccountMeta { pubkey: mint, is_writable: false });
    accounts.push(OperationCommandAccountMeta { pubkey: supported_token_mint, is_writable: false });
    (HarvestRewardCommand { state: HarvestRewardCommandState::PrepareSwap { vaults, items } }, accounts)
}

/// The `Execute` step for a transferred reward: the mint, the vault's reward
/// token account, the fund's reserve account of the token and the program
/// that owns the vault's account.
pub fn transfer_execute_entry(vaults: Vec<Pubkey>, items: Vec<HarvestRewardCommandItem>, vault_reward_token_account: Pubkey,
    fund_supported_token_reserve_account: Pubkey, token_program: Pubkey)
    -> (r: (HarvestRewardCommand, Vec<OperationCommandAccountMeta>))
    requires
        items.len() > 0,
    ensures
        r.0.state matches HarvestRewardCommandState::Execute { vaults: v, items: it } && v@ == vaults@ && it@ == items@,
        r.1@ == seq![
            OperationCommandAccountMeta { pubkey: items@[0].reward_token_mint, is_writable: false },
            OperationCommandAccountMeta { pubkey: vault_reward_token_account, is_writable: true },
            OperationCommandAccountMeta { pubkey: fund_supported_token_reserve_account, is_writable: true },
            OperationCommandAccountMeta { pubkey: token_program, is_writable: false },
        ],
{
    let mint = items[0].reward_token_mint;
    let mut accounts: Vec<OperationCommandAccountMeta> = Vec::new();
    accounts.push(OperationCommandAccountMeta { pubkey: mint, is_writable: false });
    accounts.push(OperationCommandAccountMeta { pubkey: vault_reward_token_account, is_writable: true });
    accounts.push(OperationCommandAccountMeta { pubkey: fund_supported_token_reserve_account, is_writable: true });
    accounts.push(OperationCommandAccountMeta { pubkey: token_program, is_writable: false });
    (HarvestRewardCommand { state: HarvestRewardCommandState::Execute { vaults, items } }, accounts)
}

/// The `PrepareSwap` step's checks on the current reward token: the swap
/// pool, the reward token mint and the supported token it is swapped to come
/// first; a reward that is not to be swapped is a misconfigured fund.
pub fn check_prepare_swap_accounts(item: HarvestRewardCommandItem, account_keys: &Vec<Pubkey>, pool: Pubkey)
    -> (r: Result<(), ErrorCode>)
    ensures
        account_keys.len() < 3 ==> r == Err::<(), ErrorCode>(ErrorCode::AccountNotEnoughKeys),
        account_keys.len() >= 3 && (account_keys@[0] != pool || account_keys@[1] != item.reward_token_mint) ==>
            r == Err::<(), ErrorCode>(ErrorCode::RequireKeysEqViolated),
        account_keys.len() >= 3 && account_keys@[0] == pool && account_keys@[1] == item.reward_token_mint ==> r == (match item.harvest_type {
            HarvestType::Swap(to) => if account_keys@[2] == to { Ok::<(), ErrorCode>(()) } else { Err::<(), ErrorCode>(ErrorCode::RequireKeysEqViolated) },
            HarvestType::Transfer => Err::<(), ErrorCode>(ErrorCode::FundOperationCommandExecutionFailedException),
        }),
{
    if account_keys.len() < 3 {
        return Err(ErrorCode::AccountNotEnoughKeys);
    }
    if account_keys[0] != pool || account_keys[1] != item.reward_token_mint {
        return Err(ErrorCode::RequireKeysEqViolated);
    }
    match item.harvest_type {
        HarvestType::Swap(to) => if account_keys[2] == to { Ok(()) } else { Err(ErrorCode::RequireKeysEqViolated) },
        HarvestType::Transfer => Err(ErrorCode::FundOperationCommandExecutionFailedException),
    }
}

/// The `Execute` step's account checks for a transferred reward: the mint,
/// the vault's associated token account of it under the token's program, the
/// fund's reserve account and the token's program come first (fewer accounts
/// is a failed command). The vault's token account address is derived once
/// the mint matches; when it cannot be derived the step is refused.
pub fn check_transfer_accounts(vault: Pubkey, item: HarvestRewardCommandItem, account_keys: &Vec<Pubkey>,
    token_program: Pubkey, fund_supported_token_reserve_account: Pubkey)
    -> (r: Result<(), ErrorCode>)
    ensures
        account_keys.len() < 4 ==> r == Err::<(), ErrorCode>(ErrorCode::FundOperationCommandExecutionFailedException),
        account_keys.len() >= 4 && account_keys@[0] != item.reward_token_mint ==> r == Err::<(), ErrorCode>(ErrorCode::RequireKeysEqViolated),
        account_keys.len() >= 4 && account_keys@[0] == item.reward_token_mint ==> r == (
            if !associated_token_address_found(vault, item.reward_token_mint, token_program) {
                Err::<(), ErrorCode>(ErrorCode::ProgramAddressNotFound)
            } else if account_keys@[1] != associated_token_address(vault, item.reward_token_mint, token_program)
                || account_keys@[2] != fund_supported_token_reserve_account
                || account_keys@[3] != token_program {
                Err::<(), ErrorCode>(ErrorCode::RequireKeysEqViolated)
            } else {
                Ok::<(), ErrorCode>(())
            }),
{
    if account_keys.len() < 4 {
        return Err(ErrorCode::FundOperationCommandExecutionFailedException);
    }
    if account_keys[0] != item.reward_token_mint {
        return Err(ErrorCode::RequireKeysEqViolated);
    }
    let ata = match get_associated_token_address_with_program_id(&vault, &item.reward_token_mint, &token_program) {
        Some(a) => a,
        None => return Err(ErrorCode::ProgramAddressNotFound),
    };
    if account_keys[1] != ata
        || account_keys[2] != fund_supported_token_reserve_account || account_keys[3] != token_program {
        return Err(ErrorCode::RequireKeysEqViolated);
    }
    Ok(())
}

/// The fund's bookkeeping after compounding `compounded` tokens: the token's
/// operation reserve grows by it, and the fund's reserve account must hold at
/// least everything the fund has reserved of the token (the operation
/// reserve and `other_reserved_amount`).
pub fn settle_compound(operation_reserved_amount: u64, other_reserved_amount: u64, compounded: u64, reserve_account_amount: u64)
    -> (r: Result<u64, ErrorCode>)
    requires
        operation_reserved_amount + compounded + other_reserved_amount <= u64::MAX,
    ensures
        reserve_account_amount >= operation_reserved_amount + compounded + other_reserved_amount ==>
            r == Ok::<u64, ErrorCode>((operation_reserved_amount + compounded) as u64),
        reserve_account_amount < operation_reserved_amount + compounded + other_reserved_amount ==>
            r == Err::<u64, ErrorCode>(ErrorCode::RequireGteViolated),
{
    let reserved = operation_reserved_amount + compounded;
    if reserve_account_amount < reserved + other_reserved_amount {
        return Err(ErrorCode::RequireGteViolated);
    }
    Ok(reserved)
}

/// The result of harvesting a reward: swapped (`swapped_to` names the
/// supported token, `compounded` what came out) or moved as it is (then
/// `compounded == harvested`); none when nothing was harvested.
pub fn harvest_result(reward_token_mint: Pubkey, harvested: u64, swapped_to: Option<Pubkey>, compounded: u64)
    -> (r: Option<HarvestRewardCommandResult>)
    ensures
        harvested == 0 ==> r is None,
        harvested > 0 ==> r == Some(HarvestRewardCommandResult {
            reward_token_mint,
            reward_token_amount: harvested,
            swapped_token_mint: swapped_to,
            distributed_token_amount: 0,
            compounded_token_amount: compounded,
        }),
{
    if harvested == 0 {
        return None;
    }
    Some(HarvestRewardCommandResult {
        reward_token_mint,
        reward_token_amount: harvested,
        swapped_token_mint: swapped_to,
        distributed_token_amount: 0,
        compounded_token_amount: compounded,
    })
}

} // verus!
