use vstd::prelude::*;
use crate::errors::ErrorCode;
use crate::pricing::TokenPricingSource;
use crate::pubkey::Pubkey;

verus! {

/// One delegation to make: `delegation_amount` of `vault`'s reserve to `operator`.
#[derive(Clone, Copy, PartialEq, Eq, Structural, Debug)]
pub struct DelegateVSTCommandItem {
    pub vault: Pubkey,
    pub operator: Pubkey,
    pub delegation_amount: u64,
}

/// Where the delegation command stands.
#[derive(Clone, Debug)]
pub enum DelegateVSTCommandState {
    New,
    Prepare { items: Vec<DelegateVSTCommandItem> },
    Execute { items: Vec<DelegateVSTCommandItem> },
}

/// Delegates each restaking vault's reserve to its operators in equal shares,
/// one operator per step.
#[derive(Clone, Debug)]
pub struct DelegateVSTCommand {
    pub state: DelegateVSTCommandState,
}

impl Default for DelegateVSTCommand {
    fn default() -> (r: Self)
        ensures
            r.state is New,
    {
        DelegateVSTCommand { state: DelegateVSTCommandState::New }
    }
}

/// One delegation made.
#[derive(Clone, Copy, PartialEq, Eq, Structural, Debug)]
pub struct DelegateVSTCommandResult {
    pub vault_supported_token_mint: Pubkey,
    pub delegated_token_amount: u64,
    pub total_delegated_token_amount: u64,
}

/// A restaking vault as the `New` step reads it: its reserved receipt tokens
/// and its operators, in the fund's order.
#[derive(Clone, Debug)]
pub struct DelegationVaultInfo {
    pub vault: Pubkey,
    pub receipt_token_operation_reserved_amount: u64,
    pub operators: Vec<Pubkey>,
}

/// The items of one vault: each operator gets an equal share (rounded down) of the reserve.
pub open spec fn vault_items(vault: Pubkey, reserved: u64, operators: Seq<Pubkey>) -> Seq<DelegateVSTCommandItem> {
    Seq::new(operators.len(), |i: int| DelegateVSTCommandItem {
        vault,
        operator: operators[i],
        delegation_amount: (reserved as int / operators.len() as int) as u64,
    })
}

/// The items of all vaults, vault after vault.
pub open spec fn spec_plan_items(vaults: Seq<(Pubkey, u64, Seq<Pubkey>)>) -> Seq<DelegateVSTCommandItem>
    decreases vaults.len(),
{
    if vaults.len() == 0 {
        Seq::empty()
    } else {
        let (v, reserved, ops) = vaults.last();
        spec_plan_items(vaults.drop_last()) + vault_items(v, reserved, ops)
    }
}

/// The vaults as (address, reserve, operators).
pub open spec fn vault_infos(vaults: Seq<DelegationVaultInfo>) -> Seq<(Pubkey, u64, Seq<Pubkey>)> {
    vaults.map_values(|v: DelegationVaultInfo| (v.vault, v.receipt_token_operation_reserved_amount, v.operators@))
}

/// The total a vault's items delegate.
pub open spec fn items_total(items: Seq<DelegateVSTCommandItem>) -> int
    decreases items.len(),
{
    if items.len() == 0 {
        0
    } else {
        items_total(items.drop_last()) + items.last().delegation_amount
    }
}

proof fn lemma_equal_shares_total(vault: Pubkey, reserved: u64, operators: Seq<Pubkey>, k: int)
    requires
        0 <= k <= operators.len(),
        operators.len() > 0,
    ensures
        items_total(vault_items(vault, reserved, operators).take(k)) == k * (reserved as int / operators.len() as int),
    decreases k,
{
    if k > 0 {
        lemma_equal_shares_total(vault, reserved, operators, k - 1);
        assert(vault_items(vault, reserved, operators).take(k).drop_last()
            =~= vault_items(vault, reserved, operators).take(k - 1));
        assert(k * (reserved as int / operators.len() as int)
            == (k - 1) * (reserved as int / operators.len() as int) + (reserved as int / operators.len() as int))
            by (nonlinear_arith);
    } else {
        assert(vault_items(vault, reserved, operators).take(0) =~= Seq::<DelegateVSTCommandItem>::empty());
    }
}

/// Splitting a vault's reserve in equal shares among its operators never
/// delegates more than the reserve, and leaves less than one share per
/// operator undelegated.
pub proof fn lemma_equal_shares_within_reserve(vault: Pubkey, reserved: u64, operators: Seq<Pubkey>)
    requires
        operators.len() > 0,
    ensures
        items_total(vault_items(vault, reserved, operators)) <= reserved,
        reserved - items_total(vault_items(vault, reserved, operators)) < operators.len(),
{
    let n = operators.len() as int;
    lemma_equal_shares_total(vault, reserved, operators, n);
    assert(vault_items(vault, reserved, operators).take(n) =~= vault_items(vault, reserved, operators));
    let q = reserved as int / n;
    assert(n * q <= reserved && reserved - n * q < n) by (nonlinear_arith)
        requires n > 0, q == reserved as int / n, reserved >= 0;
}

impl DelegateVSTCommand {
    /// The `New` step's items: for every vault (in order) one item per
    /// operator, each an equal share of the vault's reserved receipt tokens.
    pub fn plan_items(vaults: &Vec<DelegationVaultInfo>) -> (items: Vec<DelegateVSTCommandItem>)
        ensures
            items@ == spec_plan_items(vault_infos(vaults@)),
    {
        let mut items: Vec<DelegateVSTCommandItem> = Vec::new();
        let mut k: usize = 0;
        while k < vaults.len()
            invariant
                k <= vaults.len(),
                items@ == spec_plan_items(vault_infos(vaults@.take(k as int))),
            decreases vaults.len() - k,
        {
            let v = &vaults[k];
            let n = v.operators.len();
            let start = Ghost(items@);
            let mut j: usize = 0;
            while j < n
                invariant
                    j <= n,
                    n == v.operators.len(),
                    items@ == start@ + vault_items(v.vault, v.receipt_token_operation_reserved_amount, v.operators@).take(j as int),
                decreases n - j,
            {
                let share = v.receipt_token_operation_reserved_amount / (n as u64);
                items.push(DelegateVSTCommandItem { vault: v.vault, operator: v.operators[j], delegation_amount: share });
                j += 1;
                assert(items@ =~= start@ + vault_items(v.vault, v.receipt_token_operation_reserved_amount, v.operators@).take(j as int));
            }
            proof {
                let infos = vault_infos(vaults@.take(k as int + 1));
                assert(infos.drop_last() =~= vault_infos(vaults@.take(k as int)));
                assert(vault_items(v.vault, v.receipt_token_operation_reserved_amount, v.operators@).take(n as int)
                    =~= vault_items(v.vault, v.receipt_token_operation_reserved_amount, v.operators@));
            }
            k += 1;
        }
        assert(vaults@.take(vaults.len() as int) =~= vaults@);
        items
    }

    /// Hands over to `Prepare` with the planned items: none when there is
    /// nothing to delegate, an error when the first item's vault is no Jito vault.
    pub fn execute_new(items: Vec<DelegateVSTCommandItem>, first_vault_source: Option<TokenPricingSource>)
        -> (r: Result<Option<DelegateVSTCommand>, ErrorCode>)
        ensures
            items.len() == 0 ==> r == Ok::<Option<DelegateVSTCommand>, ErrorCode>(None),
            (items.len() > 0 && first_vault_source matches Some(TokenPricingSource::JitoRestakingVault { .. })) ==>
                (r matches Ok(Some(c)) && c.state matches DelegateVSTCommandState::Prepare { items: p } && p@ == items@),
            items.len() > 0 && !(first_vault_source matches Some(TokenPricingSource::JitoRestakingVault { .. })) ==>
                r == Err::<Option<DelegateVSTCommand>, ErrorCode>(ErrorCode::FundOperationCommandExecutionFailedException),
    {
        if items.len() == 0 {
            return Ok(None);
        }
        match first_vault_source {
            Some(TokenPricingSource::JitoRestakingVault { .. }) =>
                Ok(Some(DelegateVSTCommand { state: DelegateVSTCommandState::Prepare { items } })),
            _ => Err(ErrorCode::FundOperationCommandExecutionFailedException),
        }
    }

    /// The `Prepare` step: the first item's vault must be a Jito vault whose
    /// account comes third among the accounts handed over; the items then go
    /// to `Execute`.
    pub fn execute_prepare(items: Vec<DelegateVSTCommandItem>, first_vault_source: Option<TokenPricingSource>, account_keys: &Vec<Pubkey>)
        -> (r: Result<Option<DelegateVSTCommand>, ErrorCode>)
        ensures
            items.len() == 0 ==> r == Ok::<Option<DelegateVSTCommand>, ErrorCode>(None),
            items.len() > 0 ==> match first_vault_source {
                Some(TokenPricingSource::JitoRestakingVault { address }) =>
                    if account_keys.len() < 3 {
                        r == Err::<Option<DelegateVSTCommand>, ErrorCode>(ErrorCode::AccountNotEnoughKeys)
                    } else if account_keys@[2] != address {
                        r == Err::<Option<DelegateVSTCommand>, ErrorCode>(ErrorCode::RequireKeysEqViolated)
                    } else {
                        r matches Ok(Some(c)) && c.state matches DelegateVSTCommandState::Execute { items: e } && e@ == items@
                    },
                _ => r == Err::<Option<DelegateVSTCommand>, ErrorCode>(ErrorCode::FundOperationCommandExecutionFailedException),
            },
    {
        if items.len() == 0 {
            return Ok(None);
        }
        match first_vault_source {
            Some(TokenPricingSource::JitoRestakingVault { address }) => {
                if account_keys.len() < 3 {
                    return Err(ErrorCode::AccountNotEnoughKeys);
                }
                if account_keys[2] != address {
                    return Err(ErrorCode::RequireKeysEqViolated);
                }
                Ok(Some(DelegateVSTCommand { state: DelegateVSTCommandState::Execute { items } }))
            },
            _ => Err(ErrorCode::FundOperationCommandExecutionFailedException),
        }
    }

    /// The `Execute` step's checks before delegating the first item: the vault
    /// is a Jito vault, and the accounts handed over hold the vault account
    /// third and the fund account (the delegation admin) sixth. Gives the item
    /// to delegate, none when no item is left.
    pub fn execute_check(items: &Vec<DelegateVSTCommandItem>, first_vault_source: Option<TokenPricingSource>,
        account_keys: &Vec<Pubkey>, fund_account: Pubkey)
        -> (r: Result<Option<DelegateVSTCommandItem>, ErrorCode>)
        ensures
            items.len() == 0 ==> r == Ok::<Option<DelegateVSTCommandItem>, ErrorCode>(None),
            items.len() > 0 ==> match first_vault_source {
                Some(TokenPricingSource::JitoRestakingVault { address }) =>
                    if account_keys.len() < 6 {
                        r == Err::<Option<DelegateVSTCommandItem>, ErrorCode>(ErrorCode::AccountNotEnoughKeys)
                    } else if account_keys@[2] != address || account_keys@[5] != fund_account {
                        r == Err::<Option<DelegateVSTCommandItem>, ErrorCode>(ErrorCode::RequireKeysEqViolated)
                    } else {
                        r == Ok::<Option<DelegateVSTCommandItem>, ErrorCode>(Some(items@[0]))
                    },
                _ => r == Err::<Option<DelegateVSTCommandItem>, ErrorCode>(ErrorCode::FundOperationCommandExecutionFailedException),
            },
    {
        if items.len() == 0 {
            return Ok(None);
        }
        match first_vault_source {
            Some(TokenPricingSource::JitoRestakingVault { address }) => {
                if account_keys.len() < 6 {
                    return Err(ErrorCode::AccountNotEnoughKeys);
                }
                if account_keys[2] != address || account_keys[5] != fund_account {
                    return Err(ErrorCode::RequireKeysEqViolated);
                }
                Ok(Some(items[0]))
            },
            _ => Err(ErrorCode::FundOperationCommandExecutionFailedException),
        }
    }
}

/// The fund's bookkeeping that one delegation changes.
#[derive(Clone, Copy, PartialEq, Eq, Structural, Debug)]
pub struct DelegationBook {
    /// The vault's reserved receipt tokens.
    pub receipt_token_operation_reserved_amount: u64,
    /// What the fund has delegated to the item's operator in this vault.
    pub supported_token_delegated_amount: u64,
}

/// After the vault accepted a delegation: the amount leaves the vault's
/// reserve and joins the operator's delegation.
pub fn apply_delegation(book: DelegationBook, item: DelegateVSTCommandItem, vault_supported_token_mint: Pubkey)
    -> (r: (DelegationBook, DelegateVSTCommandResult))
    requires
        item.delegation_amount <= book.receipt_token_operation_reserved_amount,
        book.supported_token_delegated_amount + item.delegation_amount <= u64::MAX,
    ensures
        r.0.receipt_token_operation_reserved_amount == book.receipt_token_operation_reserved_amount - item.delegation_amount,
        r.0.supported_token_delegated_amount == book.supported_token_delegated_amount + item.delegation_amount,
        r.1 == (DelegateVSTCommandResult {
            vault_supported_token_mint,
            delegated_token_amount: item.delegation_amount,
            total_delegated_token_amount: r.0.supported_token_delegated_amount,
        }),
{
    let nb = DelegationBook {
        receipt_token_operation_reserved_amount: book.receipt_token_operation_reserved_amount - item.delegation_amount,
        supported_token_delegated_amount: book.supported_token_delegated_amount + item.delegation_amount,
    };
    (nb, DelegateVSTCommandResult {
        vault_supported_token_mint,
        delegated_token_amount: item.delegation_amount,
        total_delegated_token_amount: nb.supported_token_delegated_amount,
    })
}

} // verus!
