use vstd::prelude::*;
use crate::errors::ErrorCode;
use crate::iteration::{next_taken, skip_n, spec_batch_size, spec_first_taken, spec_next_after, StepDecision};
use crate::operation_command::OperationCommandAccountMeta;
use crate::pricing::TokenPricingSource;
use crate::pubkey::Pubkey;

verus! {

/// At most this many operator delegations are brought up to date in one step.
pub const RESTAKING_VAULT_UPDATE_DELEGATIONS_BATCH_SIZE: usize = 6;

/// At most this many wrapped token holders are brought up to date in one step.
pub const WRAPPED_TOKEN_UPDATE_BATCH_SIZE: usize = 12;

/// One operator delegation to bring up to date: the operator and its position in the vault.
#[derive(Clone, Copy, PartialEq, Eq, Structural, Debug)]
pub struct InitializeCommandRestakingVaultDelegationUpdateItem {
    pub operator: Pubkey,
    pub index: u64,
}

/// Where the initializing command stands: first every restaking vault's epoch
/// update, then the update of the wrapped token holders.
#[derive(Clone, Debug)]
pub enum InitializeCommandState {
    New,
    NewRestakingVaultUpdate,
    PrepareRestakingVaultUpdate { vault: Pubkey },
    ExecuteRestakingVaultUpdate {
        vault: Pubkey,
        items: Vec<InitializeCommandRestakingVaultDelegationUpdateItem>,
        next_item_indices: Vec<u64>,
    },
    NewWrappedTokenUpdate,
    PrepareWrappedTokenUpdate { wrapped_token_accounts: Vec<Pubkey> },
    ExecuteWrappedTokenUpdate { wrapped_token_accounts: Vec<Pubkey> },
}

/// Brings the fund's view of its restaking vaults and wrapped token holders up to date.
#[derive(Clone, Debug)]
pub struct InitializeCommand {
    pub state: InitializeCommandState,
}

impl Default for InitializeCommand {
    fn default() -> (r: Self)
        ensures
            r.state is New,
    {
        InitializeCommand { state: InitializeCommandState::New }
    }
}

/// One operator delegation as the vault reported it.
#[derive(Clone, Copy, PartialEq, Eq, Structural, Debug)]
pub struct InitializeCommandResultRestakingVaultDelegationUpdate {
    pub operator: Pubkey,
    pub delegated_amount: u64,
    pub undelegating_amount: u64,
}

/// What one restaking vault update step did.
#[derive(Clone, Debug)]
pub struct InitializeCommandResultRestakingVaultUpdated {
    pub vault: Pubkey,
    pub epoch: u64,
    pub finalized: bool,
    pub supported_token_mint: Pubkey,
    pub delegations: Vec<InitializeCommandResultRestakingVaultDelegationUpdate>,
}

/// One wrapped token holder as brought up to date.
#[derive(Clone, Copy, PartialEq, Eq, Structural, Debug)]
pub struct InitializeCommandResultWrappedTokenHolderUpdate {
    pub wrapped_token_account: Pubkey,
    pub wrapped_token_amount: u64,
}

/// What one wrapped token update step did.
#[derive(Clone, Debug)]
pub struct InitializeCommandResultWrappedTokenUpdated {
    pub receipt_token_mint: Pubkey,
    pub finalized: bool,
    pub wrapped_token_holders: Vec<InitializeCommandResultWrappedTokenHolderUpdate>,
}

/// The result of an initializing step: at most one of the two updates.
#[derive(Clone, Debug)]
pub struct InitializeCommandResult {
    pub restaking_vault_updated: Option<InitializeCommandResultRestakingVaultUpdated>,
    pub wrapped_token_updated: Option<InitializeCommandResultWrappedTokenUpdated>,
}

impl InitializeCommandResult {
    /// The result of a restaking vault update step.
    pub fn from_restaking_vault_updated(value: InitializeCommandResultRestakingVaultUpdated) -> (r: Self)
        ensures
            r.restaking_vault_updated == Some(value),
            r.wrapped_token_updated is None,
    {
        InitializeCommandResult { restaking_vault_updated: Some(value), wrapped_token_updated: None }
    }

    /// The result of a wrapped token update step.
    pub fn from_wrapped_token_updated(value: InitializeCommandResultWrappedTokenUpdated) -> (r: Self)
        ensures
            r.restaking_vault_updated is None,
            r.wrapped_token_updated == Some(value),
    {
        InitializeCommandResult { restaking_vault_updated: None, wrapped_token_updated: Some(value) }
    }
}

/// What the vault update does with a vault priced by `source`: Jito vaults are
/// updated, Solv and virtual vaults are passed over, any other source fails.
pub open spec fn spec_update_decision(source: Option<TokenPricingSource>) -> StepDecision {
    match source {
        Some(TokenPricingSource::JitoRestakingVault { .. }) => StepDecision::Take,
        Some(TokenPricingSource::SolvBTCVault { .. }) => StepDecision::Skip,
        Some(TokenPricingSource::VirtualVault { .. }) => StepDecision::Skip,
        _ => StepDecision::Fail,
    }
}

/// Decides whether the vault update stops at a vault.
pub fn update_decision(source: &Option<TokenPricingSource>) -> (r: StepDecision)
    ensures
        r == spec_update_decision(*source),
{
    match source {
        Some(TokenPricingSource::JitoRestakingVault { .. }) => StepDecision::Take,
        Some(TokenPricingSource::SolvBTCVault { .. }) | Some(TokenPricingSource::VirtualVault { .. }) => StepDecision::Skip,
        _ => StepDecision::Fail,
    }
}

impl InitializeCommand {
    /// The `New` and `NewRestakingVaultUpdate` steps (and the move to the next
    /// vault): the Jito vault to update after `previous` among the fund's
    /// `vaults` (passing over Solv and virtual vaults), whose receipt tokens
    /// `decisions` classify. `None` when no vault is left: the wrapped token
    /// update comes next.
    pub fn next_restaking_vault_to_update(vaults: &Vec<Pubkey>, decisions: &Vec<StepDecision>, previous: Option<Pubkey>)
        -> (r: Result<Option<Pubkey>, ErrorCode>)
        requires
            vaults.len() == decisions.len(),
        ensures
            r == (match spec_next_after(vaults@, previous) {
                None => Ok(None),
                Some(start) => match spec_first_taken(decisions@, start) {
                    Ok(Some(i)) => Ok(Some(vaults@[i])),
                    Ok(None) => Ok(None),
                    Err(e) => Err(e),
                },
            }),
    {
        proof {
            if let Some(start) = spec_next_after(vaults@, previous) {
                if spec_first_taken(decisions@, start) matches Ok(Some(_)) {
                    crate::iteration::lemma_first_taken_bounds(decisions@, start);
                }
            }
        }
        match next_taken(vaults, decisions, previous) {
            Ok(Some(i)) => Ok(Some(vaults[i])),
            Ok(None) => Ok(None),
            Err(e) => Err(e),
        }
    }

    /// The `PrepareRestakingVaultUpdate` step's checks: for a Jito vault the
    /// accounts handed over hold the vault account third (`Ok(true)`: plan the
    /// first batch); Solv and virtual vaults give `Ok(false)` (go on with the
    /// next vault); any other vault fails.
    pub fn prepare_restaking_vault_update(source: Option<TokenPricingSource>, account_keys: &Vec<Pubkey>)
        -> (r: Result<bool, ErrorCode>)
        ensures
            match source {
                Some(TokenPricingSource::JitoRestakingVault { address }) =>
                    if account_keys.len() < 3 {
                        r == Err::<bool, ErrorCode>(ErrorCode::AccountNotEnoughKeys)
                    } else if account_keys@[2] != address {
                        r == Err::<bool, ErrorCode>(ErrorCode::RequireKeysEqViolated)
                    } else {
                        r == Ok::<bool, ErrorCode>(true)
                    },
                Some(TokenPricingSource::SolvBTCVault { .. }) | Some(TokenPricingSource::VirtualVault { .. }) =>
                    r == Ok::<bool, ErrorCode>(false),
                _ => r == Err::<bool, ErrorCode>(ErrorCode::FundOperationCommandExecutionFailedException),
            },
    {
        match source {
            Some(TokenPricingSource::JitoRestakingVault { address }) => {
                if account_keys.len() < 3 {
                    return Err(ErrorCode::AccountNotEnoughKeys);
                }
                if account_keys[2] != address {
                    return Err(ErrorCode::RequireKeysEqViolated);
                }
                Ok(true)
            },
            Some(TokenPricingSource::SolvBTCVault { .. }) | Some(TokenPricingSource::VirtualVault { .. }) => Ok(false),
            _ => Err(ErrorCode::FundOperationCommandExecutionFailedException),
        }
    }

    /// The next `ExecuteRestakingVaultUpdate` step of `vault`: the first batch
    /// of the delegation positions still to update (in the vault's update
    /// order), each with its operator, and the positions after the batch.
    /// Refused when a position has no delegation.
    pub fn create_next_restaking_vault_update_command(vault: Pubkey, delegation_operators: &Vec<Pubkey>, next_item_indices: &Vec<u64>)
        -> (r: Result<InitializeCommand, ErrorCode>)
        ensures
            ({
                let b = spec_batch_size(next_item_indices.len() as int, RESTAKING_VAULT_UPDATE_DELEGATIONS_BATCH_SIZE as int);
                &&& (forall|i: int| 0 <= i < b ==> #[trigger] next_item_indices@[i] < delegation_operators.len()) ==>
                    (r matches Ok(c) && c.state matches InitializeCommandState::ExecuteRestakingVaultUpdate { vault: v, items, next_item_indices: rest }
                        && v == vault && rest@ == next_item_indices@.skip(b) && items.len() == b
                        && forall|i: int| 0 <= i < b ==> #[trigger] items@[i] == (InitializeCommandRestakingVaultDelegationUpdateItem {
                            operator: delegation_operators@[next_item_indices@[i] as int],
                            index: next_item_indices@[i],
                        }))
                &&& !(forall|i: int| 0 <= i < b ==> #[trigger] next_item_indices@[i] < delegation_operators.len()) ==>
                    r == Err::<InitializeCommand, ErrorCode>(ErrorCode::RestakingVaultDelegationNotFound)
            }),
    {
        let batch = if next_item_indices.len() < RESTAKING_VAULT_UPDATE_DELEGATIONS_BATCH_SIZE {
            next_item_indices.len()
        } else {
            RESTAKING_VAULT_UPDATE_DELEGATIONS_BATCH_SIZE
        };
        let mut items: Vec<InitializeCommandRestakingVaultDelegationUpdateItem> = Vec::new();
        let mut i: usize = 0;
        while i < batch
            invariant
                i <= batch <= next_item_indices.len(),
                batch == spec_batch_size(next_item_indices.len() as int, RESTAKING_VAULT_UPDATE_DELEGATIONS_BATCH_SIZE as int),
                items.len() == i,
                forall|j: int| 0 <= j < i ==> #[trigger] next_item_indices@[j] < delegation_operators.len(),
                forall|j: int| 0 <= j < i ==> #[trigger] items@[j] == (InitializeCommandRestakingVaultDelegationUpdateItem {
                    operator: delegation_operators@[next_item_indices@[j] as int],
                    index: next_item_indices@[j],
                }),
            decreases batch - i,
        {
            let index = next_item_indices[i];
            if index >= delegation_operators.len() as u64 {
                assert(!(next_item_indices@[i as int] < delegation_operators.len()));
                return Err(ErrorCode::RestakingVaultDelegationNotFound);
            }
            items.push(InitializeCommandRestakingVaultDelegationUpdateItem { operator: delegation_operators[index as usize], index });
            i += 1;
        }
        let rest = skip_n(next_item_indices, batch);
        Ok(InitializeCommand {
            state: InitializeCommandState::ExecuteRestakingVaultUpdate { vault, items, next_item_indices: rest },
        })
    }

    /// The `ExecuteRestakingVaultUpdate` step's checks. For a Jito vault the
    /// accounts handed over hold the vault account third, then the update
    /// state tracker, then a (delegation account, operator) pair per item
    /// whose operator is the item's (`Ok(true)`: update). Solv and virtual
    /// vaults give `Ok(false)` (go on with the next vault); any other vault fails.
    pub fn execute_restaking_vault_update_check(source: Option<TokenPricingSource>,
        items: &Vec<InitializeCommandRestakingVaultDelegationUpdateItem>, account_keys: &Vec<Pubkey>)
        -> (r: Result<bool, ErrorCode>)
        ensures
            match source {
                Some(TokenPricingSource::JitoRestakingVault { address }) =>
                    if account_keys.len() < 4 {
                        r == Err::<bool, ErrorCode>(ErrorCode::AccountNotEnoughKeys)
                    } else if account_keys@[2] != address {
                        r == Err::<bool, ErrorCode>(ErrorCode::RequireKeysEqViolated)
                    } else if account_keys.len() - 4 < 2 * items.len() {
                        r == Err::<bool, ErrorCode>(ErrorCode::AccountNotEnoughKeys)
                    } else if exists|i: int| 0 <= i < items.len() && account_keys@[4 + 2 * i + 1] != #[trigger] items@[i].operator {
                        r == Err::<bool, ErrorCode>(ErrorCode::RequireKeysEqViolated)
                    } else {
                        r == Ok::<bool, ErrorCode>(true)
                    },
                Some(TokenPricingSource::SolvBTCVault { .. }) | Some(TokenPricingSource::VirtualVault { .. }) =>
                    r == Ok::<bool, ErrorCode>(false),
                _ => r == Err::<bool, ErrorCode>(ErrorCode::FundOperationCommandExecutionFailedException),
            },
    {
        match source {
            Some(TokenPricingSource::JitoRestakingVault { address }) => {
                if account_keys.len() < 4 {
                    return Err(ErrorCode::AccountNotEnoughKeys);
                }
                if account_keys[2] != address {
                    return Err(ErrorCode::RequireKeysEqViolated);
                }
                if (account_keys.len() - 4) / 2 < items.len() {
                    return Err(ErrorCode::AccountNotEnoughKeys);
                }
                let mut i: usize = 0;
                while i < items.len()
                    invariant
                        i <= items.len(),
                        source == Some(TokenPricingSource::JitoRestakingVault { address }),
                        account_keys@[2] == address,
                        account_keys.len() >= 4 + 2 * items.len(),
                        forall|j: int| 0 <= j < i ==> account_keys@[4 + 2 * j + 1] == #[trigger] items@[j].operator,
                    decreases items.len() - i,
                {
                    if account_keys[4 + 2 * i + 1] != items[i].operator {
                        assert(account_keys@[4 + 2 * i + 1] != items@[i as int].operator);
                        return Err(ErrorCode::RequireKeysEqViolated);
                    }
                    i += 1;
                }
                Ok(true)
            },
            Some(TokenPricingSource::SolvBTCVault { .. }) | Some(TokenPricingSource::VirtualVault { .. }) => Ok(false),
            _ => Err(ErrorCode::FundOperationCommandExecutionFailedException),
        }
    }
}

/// What the vault reported of one operator delegation.
#[derive(Clone, Copy, PartialEq, Eq, Structural, Debug)]
pub struct DelegationState {
    pub delegated_amount: u64,
    pub undelegation_requested_amount: u64,
    pub undelegating_amount: u64,
}

/// The result of a Jito vault update step: each item's delegation as the fund
/// now records it (what the vault reported, requested and ongoing
/// undelegations counted together), finalized when no position is left.
pub fn restaking_vault_updated(vault: Pubkey, epoch: u64, supported_token_mint: Pubkey,
    items: &Vec<InitializeCommandRestakingVaultDelegationUpdateItem>, states: &Vec<DelegationState>, next_item_indices: &Vec<u64>)
    -> (r: InitializeCommandResultRestakingVaultUpdated)
    requires
        items.len() == states.len(),
        forall|i: int| 0 <= i < states.len() ==>
            #[trigger] states@[i].undelegation_requested_amount + states@[i].undelegating_amount <= u64::MAX,
    ensures
        r.vault == vault,
        r.epoch == epoch,
        r.supported_token_mint == supported_token_mint,
        r.finalized == (next_item_indices.len() == 0),
        r.delegations.len() == items.len(),
        forall|i: int| 0 <= i < items.len() ==> #[trigger] r.delegations@[i] == (InitializeCommandResultRestakingVaultDelegationUpdate {
            operator: items@[i].operator,
            delegated_amount: states@[i].delegated_amount,
            undelegating_amount: (states@[i].undelegation_requested_amount + states@[i].undelegating_amount) as u64,
        }),
{
    let mut delegations: Vec<InitializeCommandResultRestakingVaultDelegationUpdate> = Vec::new();
    let mut i: usize = 0;
    while i < items.len()
        invariant
            i <= items.len(),
            items.len() == states.len(),
            delegations.len() == i,
            forall|j: int| 0 <= j < states.len() ==>
                #[trigger] states@[j].undelegation_requested_amount + states@[j].undelegating_amount <= u64::MAX,
            forall|j: int| 0 <= j < i ==> #[trigger] delegations@[j] == (InitializeCommandResultRestakingVaultDelegationUpdate {
                operator: items@[j].operator,
                delegated_amount: states@[j].delegated_amount,
                undelegating_amount: (states@[j].undelegation_requested_amount + states@[j].undelegating_amount) as u64,
            }),
        decreases items.len() - i,
    {
        let s = states[i];
        delegations.push(InitializeCommandResultRestakingVaultDelegationUpdate {
            operator: items[i].operator,
            delegated_amount: s.delegated_amount,
            undelegating_amount: s.undelegation_requested_amount + s.undelegating_amount,
        });
        i += 1;
    }
    InitializeCommandResultRestakingVaultUpdated {
        vault,
        epoch,
        finalized: next_item_indices.len() == 0,
        supported_token_mint,
        delegations,
    }
}

/// `s` turned left by `k` places (`slice::rotate_left`).
pub open spec fn rotated_left(s: Seq<Pubkey>, k: int) -> Seq<Pubkey> {
    Seq::new(s.len(), |i: int| s[(i + k) % (s.len() as int)])
}

/// The `NewWrappedTokenUpdate` step: the holders of the wrapped token (none
/// when the fund has no wrapped token), turned left by the slot modulo their
/// number so that no holder is always last.
pub fn wrapped_token_update_order(holders: Option<Vec<Pubkey>>, slot: u64) -> (r: Option<Vec<Pubkey>>)
    ensures
        holders is None ==> r is None,
        holders matches Some(h) ==> (r matches Some(o) && (h.len() == 0 ==> o@ == h@)
            && (h.len() > 0 ==> o@ == rotated_left(h@, (slot % (h.len() as u64)) as int))),
{
    match holders {
        None => None,
        Some(h) => {
            if h.len() == 0 {
                return Some(h);
            }
            let n = h.len();
            let start = (slot % (n as u64)) as usize;
            let mut o: Vec<Pubkey> = Vec::new();
            let mut i: usize = 0;
            while i < n
                invariant
                    i <= n,
                    n == h.len(),
                    n > 0,
                    start < n,
                    start == (slot % (n as u64)) as int,
                    o.len() == i,
                    forall|j: int| 0 <= j < i ==> #[trigger] o@[j] == h@[(j + start) % (n as int)],
                decreases n - i,
            {
                let k = if i < n - start { i + start } else { i - (n - start) };
                assert(k as int == (i + start) as int % (n as int)) by (nonlinear_arith)
                    requires
                        i < n, start < n,
                        k == (if i < n - start { i + start } else { i - (n - start) }),
                ;
                o.push(h[k]);
                i += 1;
            }
            assert(o@ =~= rotated_left(h@, (slot % (n as u64)) as int));
            Some(o)
        },
    }
}

/// Turning a list of holders left keeps every holder exactly once: the
/// holder at position `i` moves to position `i - k`, cyclically.
pub proof fn lemma_rotation_keeps_every_holder(s: Seq<Pubkey>, k: int, i: int)
    requires
        0 <= k < s.len(),
        0 <= i < s.len(),
    ensures
        rotated_left(s, k).len() == s.len(),
        rotated_left(s, k)[(i - k + s.len()) % (s.len() as int)] == s[i],
{
    let n = s.len() as int;
    let j = (i - k + n) % n;
    assert((j + k) % n == i) by (nonlinear_arith)
        requires 0 <= k < n, 0 <= i < n, j == (i - k + n) % n;
    assert(0 <= j < n) by (nonlinear_arith)
        requires 0 <= k < n, 0 <= i < n, j == (i - k + n) % n;
}

/// The accounts of a wrapped token update step: the reward account, the fund's
/// wrap account and its reward account, then for each holder of the batch its
/// token account and its reward account (the holders' reward accounts are
/// given in the same order as the holders).
pub open spec fn spec_wrapped_token_update_accounts(reward_account: Pubkey, fund_wrap_account: Pubkey,
    fund_wrap_account_reward_account: Pubkey, holders: Seq<Pubkey>, holder_reward_accounts: Seq<Pubkey>)
    -> Seq<OperationCommandAccountMeta>
{
    let b = spec_batch_size(holders.len() as int, WRAPPED_TOKEN_UPDATE_BATCH_SIZE as int);
    seq![
        OperationCommandAccountMeta { pubkey: reward_account, is_writable: true },
        OperationCommandAccountMeta { pubkey: fund_wrap_account, is_writable: false },
        OperationCommandAccountMeta { pubkey: fund_wrap_account_reward_account, is_writable: true },
    ] + Seq::new((2 * b) as nat, |j: int| if j % 2 == 0 {
        OperationCommandAccountMeta { pubkey: holders[j / 2], is_writable: false }
    } else {
        OperationCommandAccountMeta { pubkey: holder_reward_accounts[j / 2], is_writable: true }
    })
}

/// The `PrepareWrappedTokenUpdate` step: none when no holder is left (the
/// command is over), otherwise the `Execute` step with its required accounts.
pub fn prepare_wrapped_token_update(wrapped_token_accounts: Vec<Pubkey>, reward_account: Pubkey, fund_wrap_account: Pubkey,
    fund_wrap_account_reward_account: Pubkey, holder_reward_accounts: &Vec<Pubkey>)
    -> (r: Option<(InitializeCommand, Vec<OperationCommandAccountMeta>)>)
    requires
        holder_reward_accounts.len() >= spec_batch_size(wrapped_token_accounts.len() as int, WRAPPED_TOKEN_UPDATE_BATCH_SIZE as int),
    ensures
        wrapped_token_accounts.len() == 0 ==> r is None,
        wrapped_token_accounts.len() > 0 ==> (r matches Some((c, accounts))
            && c.state matches InitializeCommandState::ExecuteWrappedTokenUpdate { wrapped_token_accounts: w }
            && w@ == wrapped_token_accounts@
            && accounts@ == spec_wrapped_token_update_accounts(reward_account, fund_wrap_account,
                fund_wrap_account_reward_account, wrapped_token_accounts@, holder_reward_accounts@)),
{
    if wrapped_token_accounts.len() == 0 {
        return None;
    }
    let batch = if wrapped_token_accounts.len() < WRAPPED_TOKEN_UPDATE_BATCH_SIZE {
        wrapped_token_accounts.len()
    } else {
        WRAPPED_TOKEN_UPDATE_BATCH_SIZE
    };
    let mut accounts: Vec<OperationCommandAccountMeta> = Vec::new();
    accounts.push(OperationCommandAccountMeta { pubkey: reward_account, is_writable: true });
    accounts.push(OperationCommandAccountMeta { pubkey: fund_wrap_account, is_writable: false });
    accounts.push(OperationCommandAccountMeta { pubkey: fund_wrap_account_reward_account, is_writable: true });
    let ghost head = accounts@;
    let ghost tail = Seq::new((2 * batch) as nat, |j: int| if j % 2 == 0 {
        OperationCommandAccountMeta { pubkey: wrapped_token_accounts@[j / 2], is_writable: false }
    } else {
        OperationCommandAccountMeta { pubkey: holder_reward_accounts@[j / 2], is_writable: true }
    });
    let mut i: usize = 0;
    while i < batch
        invariant
            i <= batch <= wrapped_token_accounts.len(),
            batch <= holder_reward_accounts.len(),
            tail.len() == 2 * batch,
            forall|j: int| 0 <= j < tail.len() ==> #[trigger] tail[j] == (if j % 2 == 0 {
                OperationCommandAccountMeta { pubkey: wrapped_token_accounts@[j / 2], is_writable: false }
            } else {
                OperationCommandAccountMeta { pubkey: holder_reward_accounts@[j / 2], is_writable: true }
            }),
            head.len() == 3,
            accounts@ == head + tail.take(2 * i as int),
        decreases batch - i,
    {
        accounts.push(OperationCommandAccountMeta { pubkey: wrapped_token_accounts[i], is_writable: false });
        accounts.push(OperationCommandAccountMeta { pubkey: holder_reward_accounts[i], is_writable: true });
        proof {
            assert((2 * i) % 2 == 0 && (2 * i) / 2 == i) by (nonlinear_arith);
            assert((2 * i + 1) % 2 == 1 && (2 * i + 1) / 2 == i) by (nonlinear_arith);
            assert(tail[2 * i as int] == OperationCommandAccountMeta { pubkey: wrapped_token_accounts@[i as int], is_writable: false });
            assert(tail[2 * i as int + 1] == OperationCommandAccountMeta { pubkey: holder_reward_accounts@[i as int], is_writable: true });
        }
        i += 1;
        assert(accounts@ =~= head + tail.take(2 * i as int));
    }
    assert(tail.take(2 * batch as int) =~= tail);
    assert(accounts@ =~= spec_wrapped_token_update_accounts(reward_account, fund_wrap_account,
        fund_wrap_account_reward_account, wrapped_token_accounts@, holder_reward_accounts@));
    Some((InitializeCommand { state: InitializeCommandState::ExecuteWrappedTokenUpdate { wrapped_token_accounts } }, accounts))
}

/// The `ExecuteWrappedTokenUpdate` step's checks: the accounts handed over
/// hold three accounts, then a (holder token account, holder reward account)
/// pair per holder of the batch, whose token account is the holder's. Gives
/// the batch size (zero when no holder is left).
pub fn execute_wrapped_token_update_check(wrapped_token_accounts: &Vec<Pubkey>, account_keys: &Vec<Pubkey>)
    -> (r: Result<usize, ErrorCode>)
    ensures
        wrapped_token_accounts.len() == 0 ==> r == Ok::<usize, ErrorCode>(0),
        wrapped_token_accounts.len() > 0 ==> {
            let b = spec_batch_size(wrapped_token_accounts.len() as int, WRAPPED_TOKEN_UPDATE_BATCH_SIZE as int);
            if account_keys.len() < 3 || account_keys.len() - 3 < 2 * b {
                r == Err::<usize, ErrorCode>(ErrorCode::AccountNotEnoughKeys)
            } else if exists|i: int| 0 <= i < b && account_keys@[3 + 2 * i] != #[trigger] wrapped_token_accounts@[i] {
                r == Err::<usize, ErrorCode>(ErrorCode::RequireKeysEqViolated)
            } else {
                r == Ok::<usize, ErrorCode>(b as usize)
            }
        },
{
    if wrapped_token_accounts.len() == 0 {
        return Ok(0);
    }
    let batch = if wrapped_token_accounts.len() < WRAPPED_TOKEN_UPDATE_BATCH_SIZE {
        wrapped_token_accounts.len()
    } else {
        WRAPPED_TOKEN_UPDATE_BATCH_SIZE
    };
    if account_keys.len() < 3 || account_keys.len() - 3 < 2 * batch {
        return Err(ErrorCode::AccountNotEnoughKeys);
    }
    let mut i: usize = 0;
    while i < batch
        invariant
            i <= batch <= wrapped_token_accounts.len(),
            batch == spec_batch_size(wrapped_token_accounts.len() as int, WRAPPED_TOKEN_UPDATE_BATCH_SIZE as int),
            account_keys.len() >= 3 + 2 * batch,
            forall|j: int| 0 <= j < i ==> account_keys@[3 + 2 * j] == #[trigger] wrapped_token_accounts@[j],
        decreases batch - i,
    {
        if account_keys[3 + 2 * i] != wrapped_token_accounts[i] {
            assert(account_keys@[3 + 2 * i] != wrapped_token_accounts@[i as int]);
            return Err(ErrorCode::RequireKeysEqViolated);
        }
        i += 1;
    }
    Ok(batch)
}

/// The result of a wrapped token update step over the first `batch_size`
/// holders, and the holders still to update (none when the batch was the last).
pub fn wrapped_token_updated(receipt_token_mint: Pubkey, wrapped_token_accounts: &Vec<Pubkey>, batch_size: usize,
    holders: Vec<InitializeCommandResultWrappedTokenHolderUpdate>)
    -> (r: (InitializeCommandResultWrappedTokenUpdated, Vec<Pubkey>))
    requires
        batch_size <= wrapped_token_accounts.len(),
    ensures
        r.0.receipt_token_mint == receipt_token_mint,
        r.0.finalized == (batch_size == wrapped_token_accounts.len()),
        r.0.wrapped_token_holders@ == holders@,
        r.1@ == wrapped_token_accounts@.skip(batch_size as int),
{
    let rest = skip_n(wrapped_token_accounts, batch_size);
    (InitializeCommandResultWrappedTokenUpdated {
        receipt_token_mint,
        finalized: batch_size == wrapped_token_accounts.len(),
        wrapped_token_holders: holders,
    }, rest)
}

} // verus!
