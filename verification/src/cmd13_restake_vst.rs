use vstd::prelude::*;
use crate::errors::ErrorCode;
use crate::iteration::{first_index_of, is_first_index, occurs, skip_first};
use crate::math::reserve_surplus;
use crate::pricing::{spec_vault_kind, vault_kind, TokenPricingSource, VaultKind};
use crate::pubkey::Pubkey;

verus! {

/// Restaking a vault supported token below this value (in lamports) is not worth a deposit.
pub const RESTAKING_MINIMUM_DEPOSIT_LAMPORTS: u64 = 1_000_000_000;

/// One deposit to make: `allocated_token_amount` of `supported_token_mint` into `vault`.
#[derive(Clone, Copy, PartialEq, Eq, Structural, Debug)]
pub struct RestakeVSTCommandItem {
    pub vault: Pubkey,
    pub supported_token_mint: Pubkey,
    pub allocated_token_amount: u64,
}

/// Where the restaking command stands.
#[derive(Clone, Debug)]
pub enum RestakeVSTCommandState {
    /// Computes the items from the fund state and strategy.
    New,
    /// Prepares the deposit of the first item.
    Prepare { items: Vec<RestakeVSTCommandItem> },
    /// Deposits the first item, then moves on to the next one.
    Execute { items: Vec<RestakeVSTCommandItem> },
}

/// Deposits restakable tokens (supported tokens and the normalized token) into restaking vaults.
#[derive(Clone, Debug)]
pub struct RestakeVSTCommand {
    pub state: RestakeVSTCommandState,
}

impl Default for RestakeVSTCommand {
    fn default() -> (r: Self)
        ensures
            r.state is New,
    {
        RestakeVSTCommand { state: RestakeVSTCommandState::New }
    }
}

/// What one deposit did.
#[derive(Clone, Copy, PartialEq, Eq, Structural, Debug)]
pub struct RestakeVSTCommandResult {
    pub supported_token_mint: Pubkey,
    pub deposited_supported_token_amount: u64,
    pub deducted_supported_token_fee_amount: u64,
    pub minted_token_amount: u64,
    pub operation_reserved_token_amount: u64,
}

/// One participant's share of one restakable token, as the fund's weighted
/// allocation strategy and pricing computed it.
#[derive(Clone, Copy, PartialEq, Eq, Structural, Debug)]
pub struct RestakeAllocation {
    pub vault: Pubkey,
    pub supported_token_mint: Pubkey,
    /// The restakable amount of the token (all vaults of this token share it).
    pub token_amount: u64,
    /// The share allotted to this vault, in lamports.
    pub allocated_sol_amount: u64,
    /// That share converted back to the token, rounded down.
    pub allocated_sol_amount_as_token: u64,
}

/// A supported token's restakable amount: its net operation reserve above zero.
pub open spec fn spec_surplus(net: i128) -> int {
    if net > 0 { net as int } else { 0 }
}

/// The restakable tokens and amounts of the `New` step, in order: each
/// supported token (mint, net operation reserve) with its surplus, then the
/// normalized token (mint, reserved amount) when the fund has one.
pub open spec fn spec_restakable_tokens(supported: Seq<(Pubkey, i128)>, normalized: Option<(Pubkey, u64)>) -> Seq<(Pubkey, u64)> {
    let tokens = supported.map_values(|t: (Pubkey, i128)| (t.0, spec_surplus(t.1) as u64));
    match normalized {
        Some(nt) => tokens.push(nt),
        None => tokens,
    }
}

/// Lists the restakable tokens; refused when a supported token's surplus does
/// not fit in 64 bits.
pub fn restakable_tokens(supported: &Vec<(Pubkey, i128)>, normalized: Option<(Pubkey, u64)>) -> (r: Result<Vec<(Pubkey, u64)>, ErrorCode>)
    ensures
        (forall|i: int| 0 <= i < supported.len() ==> (#[trigger] supported@[i]).1 <= u64::MAX)
            ==> (r matches Ok(tokens) && tokens@ == spec_restakable_tokens(supported@, normalized)),
        !(forall|i: int| 0 <= i < supported.len() ==> (#[trigger] supported@[i]).1 <= u64::MAX)
            ==> r == Err::<Vec<(Pubkey, u64)>, ErrorCode>(ErrorCode::CalculationArithmeticException),
{
    let mut r: Vec<(Pubkey, u64)> = Vec::new();
    let mut i: usize = 0;
    while i < supported.len()
        invariant
            i <= supported.len(),
            r@ == supported@.take(i as int).map_values(|t: (Pubkey, i128)| (t.0, spec_surplus(t.1) as u64)),
            forall|j: int| 0 <= j < i ==> (#[trigger] supported@[j]).1 <= u64::MAX,
        decreases supported.len() - i,
    {
        let (mint, net) = supported[i];
        let amount = match reserve_surplus(net) {
            Ok(a) => a,
            Err(e) => return Err(e),
        };
        r.push((mint, amount));
        i += 1;
        assert(r@ =~= supported@.take(i as int).map_values(|t: (Pubkey, i128)| (t.0, spec_surplus(t.1) as u64)));
    }
    assert(supported@.take(supported.len() as int) =~= supported@);
    match normalized {
        Some(nt) => r.push(nt),
        None => {},
    }
    Ok(r)
}

/// The indexes of the vaults that restake a token (their supported token is
/// that token), in order.
pub open spec fn spec_restakable_vaults(token_mint: Pubkey, vault_supported_mints: Seq<Pubkey>) -> Seq<usize>
    decreases vault_supported_mints.len(),
{
    if vault_supported_mints.len() == 0 {
        Seq::empty()
    } else {
        let prev = spec_restakable_vaults(token_mint, vault_supported_mints.drop_last());
        if vault_supported_mints.last() == token_mint {
            prev.push((vault_supported_mints.len() - 1) as usize)
        } else {
            prev
        }
    }
}

/// Finds the vaults that restake a token.
pub fn restakable_vaults(token_mint: Pubkey, vault_supported_mints: &Vec<Pubkey>) -> (r: Vec<usize>)
    ensures
        r@ == spec_restakable_vaults(token_mint, vault_supported_mints@),
{
    let mut r: Vec<usize> = Vec::new();
    let mut i: usize = 0;
    while i < vault_supported_mints.len()
        invariant
            i <= vault_supported_mints.len(),
            r@ == spec_restakable_vaults(token_mint, vault_supported_mints@.take(i as int)),
        decreases vault_supported_mints.len() - i,
    {
        assert(vault_supported_mints@.take(i as int + 1).drop_last() =~= vault_supported_mints@.take(i as int));
        if vault_supported_mints[i] == token_mint {
            r.push(i);
        }
        i += 1;
    }
    assert(vault_supported_mints@.take(vault_supported_mints.len() as int) =~= vault_supported_mints@);
    r
}

/// The token amount to deposit for a share: one more than the rounded-down
/// conversion (to make up for rounding), but never more than there is.
pub open spec fn allocation_token_amount(a: RestakeAllocation) -> int {
    let want = a.allocated_sol_amount_as_token + 1;
    if want < a.token_amount { want } else { a.token_amount as int }
}

/// A share is deposited when it is worth at least the minimum deposit.
pub open spec fn allocation_is_deposited(a: RestakeAllocation) -> bool {
    a.allocated_sol_amount >= RESTAKING_MINIMUM_DEPOSIT_LAMPORTS
}

/// The vaults of the items, in order.
pub open spec fn item_vaults(items: Seq<RestakeVSTCommandItem>) -> Seq<Pubkey> {
    items.map_values(|it: RestakeVSTCommandItem| it.vault)
}

/// Adds a deposit to the list: to the item of the same vault when there is
/// one, as a new item at the end otherwise.
pub open spec fn merge_item(items: Seq<RestakeVSTCommandItem>, a: RestakeAllocation) -> Seq<RestakeVSTCommandItem> {
    let vaults = item_vaults(items);
    if occurs(vaults, a.vault) {
        let j = first_index_of(vaults, a.vault);
        items.update(j, RestakeVSTCommandItem {
            allocated_token_amount: (items[j].allocated_token_amount + allocation_token_amount(a)) as u64,
            ..items[j]
        })
    } else {
        items.push(RestakeVSTCommandItem {
            vault: a.vault,
            supported_token_mint: a.supported_token_mint,
            allocated_token_amount: allocation_token_amount(a) as u64,
        })
    }
}

/// The items made from the shares, in order.
pub open spec fn spec_plan_items(allocs: Seq<RestakeAllocation>) -> Seq<RestakeVSTCommandItem>
    decreases allocs.len(),
{
    if allocs.len() == 0 {
        Seq::empty()
    } else {
        let prev = spec_plan_items(allocs.drop_last());
        if allocation_is_deposited(allocs.last()) {
            merge_item(prev, allocs.last())
        } else {
            prev
        }
    }
}

/// The total of the deposited shares.
pub open spec fn deposited_total(allocs: Seq<RestakeAllocation>) -> int
    decreases allocs.len(),
{
    if allocs.len() == 0 {
        0
    } else {
        deposited_total(allocs.drop_last()) + if allocation_is_deposited(allocs.last()) {
            allocation_token_amount(allocs.last())
        } else {
            0
        }
    }
}

/// The total of the items' amounts.
pub open spec fn items_total(items: Seq<RestakeVSTCommandItem>) -> int
    decreases items.len(),
{
    if items.len() == 0 {
        0
    } else {
        items_total(items.drop_last()) + items.last().allocated_token_amount
    }
}

proof fn lemma_items_total_update(items: Seq<RestakeVSTCommandItem>, j: int, it: RestakeVSTCommandItem)
    requires
        0 <= j < items.len(),
    ensures
        items_total(items.update(j, it)) == items_total(items) - items[j].allocated_token_amount
            + it.allocated_token_amount,
    decreases items.len(),
{
    let u = items.update(j, it);
    if j == items.len() - 1 {
        assert(u.drop_last() =~= items.drop_last());
    } else {
        lemma_items_total_update(items.drop_last(), j, it);
        assert(u.drop_last() =~= items.drop_last().update(j, it));
    }
}

proof fn lemma_items_total_push(items: Seq<RestakeVSTCommandItem>, it: RestakeVSTCommandItem)
    ensures
        items_total(items.push(it)) == items_total(items) + it.allocated_token_amount,
{
    assert(items.push(it).drop_last() =~= items);
}

proof fn lemma_items_total_bounds(items: Seq<RestakeVSTCommandItem>, j: int)
    requires
        0 <= j < items.len(),
    ensures
        items[j].allocated_token_amount <= items_total(items),
    decreases items.len(),
{
    if j < items.len() - 1 {
        lemma_items_total_bounds(items.drop_last(), j);
    } else {
        lemma_items_total_nonneg(items.drop_last());
    }
}

proof fn lemma_items_total_nonneg(items: Seq<RestakeVSTCommandItem>)
    ensures
        items_total(items) >= 0,
    decreases items.len(),
{
    if items.len() > 0 {
        lemma_items_total_nonneg(items.drop_last());
    }
}

proof fn lemma_deposited_total_mono(allocs: Seq<RestakeAllocation>, k: int)
    requires
        0 <= k <= allocs.len(),
    ensures
        deposited_total(allocs.take(k)) <= deposited_total(allocs),
    decreases allocs.len() - k,
{
    if k < allocs.len() {
        lemma_deposited_total_mono(allocs, k + 1);
        assert(allocs.take(k + 1).drop_last() =~= allocs.take(k));
    } else {
        assert(allocs.take(k) =~= allocs);
    }
}

/// Merging keeps the totals in step and never lists a vault twice.
proof fn lemma_merge_item(items: Seq<RestakeVSTCommandItem>, a: RestakeAllocation)
    requires
        item_vaults(items).no_duplicates(),
        items_total(items) + allocation_token_amount(a) <= u64::MAX,
        allocation_token_amount(a) >= 0,
    ensures
        item_vaults(merge_item(items, a)).no_duplicates(),
        items_total(merge_item(items, a)) == items_total(items) + allocation_token_amount(a),
{
    let vaults = item_vaults(items);
    if occurs(vaults, a.vault) {
        let j = first_index_of(vaults, a.vault);
        lemma_items_total_bounds(items, j);
        let it = RestakeVSTCommandItem {
            allocated_token_amount: (items[j].allocated_token_amount + allocation_token_amount(a)) as u64,
            ..items[j]
        };
        lemma_items_total_update(items, j, it);
        assert(item_vaults(items.update(j, it)) =~= vaults);
    } else {
        let it = RestakeVSTCommandItem {
            vault: a.vault,
            supported_token_mint: a.supported_token_mint,
            allocated_token_amount: allocation_token_amount(a) as u64,
        };
        lemma_items_total_push(items, it);
        assert(item_vaults(items.push(it)) =~= vaults.push(a.vault));
        assert forall|i: int| 0 <= i < vaults.len() implies vaults[i] != a.vault by {
            if vaults[i] == a.vault {
                assert(exists|i2: int| 0 <= i2 < vaults.len() && vaults[i2] == a.vault);
                lemma_some_first_index(vaults, a.vault, i);
            }
        }
    }
}

/// A key that occurs at some position has a first position.
pub proof fn lemma_some_first_index(s: Seq<Pubkey>, k: Pubkey, i: int)
    requires
        0 <= i < s.len(),
        s[i] == k,
    ensures
        occurs(s, k),
    decreases i,
{
    if forall|j: int| 0 <= j < i ==> s[j] != k {
        assert(is_first_index(s, k, i));
    } else {
        let j = choose|j: int| 0 <= j < i && s[j] == k;
        lemma_some_first_index(s, k, j);
    }
}

/// Every step of planning keeps the vaults distinct and the total equal to the deposited shares.
proof fn lemma_plan_items(allocs: Seq<RestakeAllocation>)
    requires
        deposited_total(allocs) <= u64::MAX,
        forall|i: int| 0 <= i < allocs.len() ==> allocs[i].allocated_sol_amount_as_token < u64::MAX,
    ensures
        item_vaults(spec_plan_items(allocs)).no_duplicates(),
        items_total(spec_plan_items(allocs)) == deposited_total(allocs),
    decreases allocs.len(),
{
    if allocs.len() > 0 {
        let prev = allocs.drop_last();
        assert(prev =~= allocs.take(allocs.len() - 1));
        lemma_deposited_total_mono(allocs, allocs.len() - 1);
        lemma_plan_items(prev);
        if allocation_is_deposited(allocs.last()) {
            lemma_merge_item(spec_plan_items(prev), allocs.last());
        }
    }
}

/// Planning lists each vault at most once, and the items add up to exactly
/// the deposited shares: nothing is lost or counted twice when shares of
/// several tokens go to the same vault.
pub proof fn lemma_plan_items_conserves(allocs: Seq<RestakeAllocation>)
    requires
        deposited_total(allocs) <= u64::MAX,
        forall|i: int| 0 <= i < allocs.len() ==> allocs[i].allocated_sol_amount_as_token < u64::MAX,
    ensures
        item_vaults(spec_plan_items(allocs)).no_duplicates(),
        items_total(spec_plan_items(allocs)) == deposited_total(allocs),
{
    lemma_plan_items(allocs);
}

impl RestakeVSTCommand {
    /// The `New` step: turns the strategy's shares into deposit items, one per
    /// vault, skipping shares worth less than the minimum deposit.
    pub fn plan_items(allocs: &Vec<RestakeAllocation>) -> (items: Vec<RestakeVSTCommandItem>)
        requires
            deposited_total(allocs@) <= u64::MAX,
            forall|i: int| 0 <= i < allocs.len() ==> allocs[i].allocated_sol_amount_as_token < u64::MAX,
        ensures
            items@ == spec_plan_items(allocs@),
    {
        let mut items: Vec<RestakeVSTCommandItem> = Vec::new();
        let mut k: usize = 0;
        while k < allocs.len()
            invariant
                k <= allocs.len(),
                items@ == spec_plan_items(allocs@.take(k as int)),
                deposited_total(allocs@) <= u64::MAX,
                forall|i: int| 0 <= i < allocs.len() ==> allocs[i].allocated_sol_amount_as_token < u64::MAX,
            decreases allocs.len() - k,
        {
            let a = allocs[k];
            proof {
                assert(allocs@.take(k as int + 1).drop_last() =~= allocs@.take(k as int));
                assert(allocs@.take(k as int + 1).last() == a);
                lemma_deposited_total_mono(allocs@, k as int + 1);
                lemma_plan_items(allocs@.take(k as int + 1));
                lemma_plan_items(allocs@.take(k as int));
            }
            if a.allocated_sol_amount >= RESTAKING_MINIMUM_DEPOSIT_LAMPORTS {
                let want = a.allocated_sol_amount_as_token + 1;
                let amount = if want < a.token_amount { want } else { a.token_amount };
                let mut j: usize = 0;
                while j < items.len() && items[j].vault != a.vault
                    invariant
                        j <= items.len(),
                        forall|i: int| 0 <= i < j ==> items@[i].vault != a.vault,
                    decreases items.len() - j,
                {
                    j += 1;
                }
                let found = j < items.len();
                proof {
                    lemma_merge_item(items@, a);
                    lemma_items_total_nonneg(items@);
                }
                if found {
                    proof {
                        let vaults = item_vaults(items@);
                        assert(is_first_index(vaults, a.vault, j as int));
                        assert(occurs(vaults, a.vault));
                        let c = first_index_of(vaults, a.vault);
                        if c < j as int {
                            assert(vaults[c] == a.vault);
                        } else if c > j as int {
                            assert(vaults[j as int] == a.vault);
                        }
                        lemma_items_total_bounds(items@, j as int);
                    }
                    let old_item = items[j];
                    let new_item = RestakeVSTCommandItem {
                        allocated_token_amount: old_item.allocated_token_amount + amount,
                        ..old_item
                    };
                    items.set(j, new_item);
                } else {
                    proof {
                        let vaults = item_vaults(items@);
                        if occurs(vaults, a.vault) {
                            let c = first_index_of(vaults, a.vault);
                            assert(vaults[c] == a.vault);
                        }
                    }
                    items.push(RestakeVSTCommandItem {
                        vault: a.vault,
                        supported_token_mint: a.supported_token_mint,
                        allocated_token_amount: amount,
                    });
                }
            }
            k += 1;
        }
        assert(allocs@.take(allocs.len() as int) =~= allocs@);
        items
    }

    /// The `Prepare` step on a virtual vault: nothing to deposit, so the first
    /// item is dropped. (For Jito and Solv vaults the step moves on to
    /// `Execute` with the same items and the accounts the vault asks for.)
    pub fn prepare_next_state(items: &Vec<RestakeVSTCommandItem>, first_vault_kind: VaultKind)
        -> (r: Result<RestakeVSTCommandState, Vec<RestakeVSTCommandItem>>)
        ensures
            first_vault_kind == VaultKind::Virtual || items.len() == 0 ==>
                (r matches Err(rest) && (items.len() == 0 ==> rest@ == Seq::<RestakeVSTCommandItem>::empty())
                && (items.len() > 0 ==> rest@ == items@.drop_first())),
            first_vault_kind != VaultKind::Virtual && items.len() > 0 ==>
                (r matches Ok(RestakeVSTCommandState::Execute { items: e }) && e@ == items@),
    {
        if items.len() == 0 {
            return Err(Vec::new());
        }
        match first_vault_kind {
            VaultKind::Virtual => Err(skip_first(items)),
            _ => Ok(RestakeVSTCommandState::Execute { items: items.clone() }),
        }
    }

    /// Hands over after a step: the `Prepare` step of the first remaining item
    /// (whose vault must be a Jito, Solv or virtual vault), or none when no item
    /// remains (delegation comes next).
    pub fn next_command(remaining_items: Vec<RestakeVSTCommandItem>, first_vault_source: Option<TokenPricingSource>)
        -> (r: Result<Option<RestakeVSTCommand>, ErrorCode>)
        ensures
            remaining_items.len() == 0 ==> r == Ok::<Option<RestakeVSTCommand>, ErrorCode>(None),
            remaining_items.len() > 0 && spec_vault_kind(first_vault_source) is Some ==>
                (r matches Ok(Some(c)) && c.state matches RestakeVSTCommandState::Prepare { items } && items@ == remaining_items@),
            remaining_items.len() > 0 && spec_vault_kind(first_vault_source) is None ==>
                r == Err::<Option<RestakeVSTCommand>, ErrorCode>(ErrorCode::FundOperationCommandExecutionFailedException),
    {
        if remaining_items.len() == 0 {
            return Ok(None);
        }
        match vault_kind(&first_vault_source) {
            Ok(_) => Ok(Some(RestakeVSTCommand { state: RestakeVSTCommandState::Prepare { items: remaining_items } })),
            Err(e) => Err(e),
        }
    }

    /// The account checks of the `Prepare` step (`executing` false) and the
    /// `Execute` step (`executing` true) on the first item's vault: a Jito vault
    /// needs its vault account third, a Solv vault second, among at least three
    /// (Jito) or two (Solv) accounts to prepare and ten to execute; a virtual
    /// vault needs none. Gives the vault's kind; any other vault fails.
    pub fn check_vault_accounts(source: Option<TokenPricingSource>, account_keys: &Vec<Pubkey>, executing: bool)
        -> (r: Result<VaultKind, ErrorCode>)
        ensures
            r == (match source {
                Some(TokenPricingSource::JitoRestakingVault { address }) =>
                    if account_keys.len() < (if executing { 10int } else { 3int }) {
                        Err(ErrorCode::AccountNotEnoughKeys)
                    } else if account_keys@[2] != address {
                        Err(ErrorCode::RequireKeysEqViolated)
                    } else {
                        Ok(VaultKind::Jito)
                    },
                Some(TokenPricingSource::SolvBTCVault { address }) =>
                    if account_keys.len() < (if executing { 10int } else { 2int }) {
                        Err(ErrorCode::AccountNotEnoughKeys)
                    } else if account_keys@[1] != address {
                        Err(ErrorCode::RequireKeysEqViolated)
                    } else {
                        Ok(VaultKind::SolvBTC)
                    },
                Some(TokenPricingSource::VirtualVault { .. }) => Ok(VaultKind::Virtual),
                _ => Err(ErrorCode::FundOperationCommandExecutionFailedException),
            }),
    {
        match source {
            Some(TokenPricingSource::JitoRestakingVault { address }) => {
                let needed: usize = if executing { 10 } else { 3 };
                if account_keys.len() < needed {
                    return Err(ErrorCode::AccountNotEnoughKeys);
                }
                if account_keys[2] != address {
                    return Err(ErrorCode::RequireKeysEqViolated);
                }
                Ok(VaultKind::Jito)
            },
            Some(TokenPricingSource::SolvBTCVault { address }) => {
                let needed: usize = if executing { 10 } else { 2 };
                if account_keys.len() < needed {
                    return Err(ErrorCode::AccountNotEnoughKeys);
                }
                if account_keys[1] != address {
                    return Err(ErrorCode::RequireKeysEqViolated);
                }
                Ok(VaultKind::SolvBTC)
            },
            Some(TokenPricingSource::VirtualVault { .. }) => Ok(VaultKind::Virtual),
            _ => Err(ErrorCode::FundOperationCommandExecutionFailedException),
        }
    }
}

/// The fund's bookkeeping that a deposit changes.
#[derive(Clone, Copy, PartialEq, Eq, Structural, Debug)]
pub struct RestakeBook {
    /// Operation-reserved amount of the deposited token (supported or normalized).
    pub token_operation_reserved_amount: u64,
    /// Operation-receivable amount of the deposited supported token.
    pub token_operation_receivable_amount: u64,
    /// Operation-receivable SOL of the fund.
    pub sol_operation_receivable_amount: u64,
    /// Vault receipt tokens the fund holds in reserve for this vault.
    pub vault_receipt_token_operation_reserved_amount: u64,
}

/// What the vault reported for one deposit.
#[derive(Clone, Copy, PartialEq, Eq, Structural, Debug)]
pub struct RestakeDeposit {
    pub deposited_supported_token_amount: u64,
    pub deducted_supported_token_fee_amount: u64,
    /// The fee converted to lamports (used when the normalized token was deposited).
    pub deducted_fee_as_sol: u64,
    pub minted_vault_receipt_token_amount: u64,
    /// The balance of the fund's vault receipt token account after the deposit.
    pub to_vault_receipt_token_account_amount: u64,
}

/// The bookkeeping after a deposit: the deposited amount leaves the token's
/// reserve, the fee becomes receivable (as SOL for the normalized token, as
/// the token itself otherwise), and the minted receipt tokens join the
/// vault's reserve.
pub open spec fn spec_apply_deposit(book: RestakeBook, d: RestakeDeposit, is_normalized_token: bool) -> RestakeBook {
    RestakeBook {
        token_operation_reserved_amount: (book.token_operation_reserved_amount - d.deposited_supported_token_amount) as u64,
        token_operation_receivable_amount: if is_normalized_token {
            book.token_operation_receivable_amount
        } else {
            (book.token_operation_receivable_amount + d.deducted_supported_token_fee_amount) as u64
        },
        sol_operation_receivable_amount: if is_normalized_token {
            (book.sol_operation_receivable_amount + d.deducted_fee_as_sol) as u64
        } else {
            book.sol_operation_receivable_amount
        },
        vault_receipt_token_operation_reserved_amount:
            (book.vault_receipt_token_operation_reserved_amount + d.minted_vault_receipt_token_amount) as u64,
    }
}

/// The `Execute` step's bookkeeping for one deposit (Jito or Solv vault).
/// Refused when the fund's receipt token account holds less than its
/// bookkeeping says.
pub fn apply_deposit(book: RestakeBook, d: RestakeDeposit, is_normalized_token: bool, supported_token_mint: Pubkey)
    -> (r: Result<(RestakeBook, RestakeVSTCommandResult), ErrorCode>)
    requires
        d.deposited_supported_token_amount <= book.token_operation_reserved_amount,
        !is_normalized_token ==> book.token_operation_receivable_amount + d.deducted_supported_token_fee_amount <= u64::MAX,
        is_normalized_token ==> book.sol_operation_receivable_amount + d.deducted_fee_as_sol <= u64::MAX,
        book.vault_receipt_token_operation_reserved_amount + d.minted_vault_receipt_token_amount <= u64::MAX,
    ensures
        ({
            let nb = spec_apply_deposit(book, d, is_normalized_token);
            &&& d.to_vault_receipt_token_account_amount >= nb.vault_receipt_token_operation_reserved_amount ==>
                r == Ok::<(RestakeBook, RestakeVSTCommandResult), ErrorCode>((nb, RestakeVSTCommandResult {
                    supported_token_mint,
                    deposited_supported_token_amount: d.deposited_supported_token_amount,
                    deducted_supported_token_fee_amount: d.deducted_supported_token_fee_amount,
                    minted_token_amount: d.minted_vault_receipt_token_amount,
                    operation_reserved_token_amount: nb.vault_receipt_token_operation_reserved_amount,
                }))
            &&& d.to_vault_receipt_token_account_amount < nb.vault_receipt_token_operation_reserved_amount ==>
                r == Err::<(RestakeBook, RestakeVSTCommandResult), ErrorCode>(ErrorCode::RequireGteViolated)
        }),
        r matches Ok((nb, res)) ==> {
            &&& nb.token_operation_reserved_amount + d.deposited_supported_token_amount == book.token_operation_reserved_amount
            &&& nb.vault_receipt_token_operation_reserved_amount
                == book.vault_receipt_token_operation_reserved_amount + d.minted_vault_receipt_token_amount
            &&& is_normalized_token ==> nb.sol_operation_receivable_amount == book.sol_operation_receivable_amount + d.deducted_fee_as_sol
                && nb.token_operation_receivable_amount == book.token_operation_receivable_amount
            &&& !is_normalized_token ==> nb.token_operation_receivable_amount
                == book.token_operation_receivable_amount + d.deducted_supported_token_fee_amount
                && nb.sol_operation_receivable_amount == book.sol_operation_receivable_amount
            &&& res.deposited_supported_token_amount == d.deposited_supported_token_amount
            &&& res.operation_reserved_token_amount == nb.vault_receipt_token_operation_reserved_amount
        },
{
    let mut nb = book;
    nb.token_operation_reserved_amount = book.token_operation_reserved_amount - d.deposited_supported_token_amount;
    if is_normalized_token {
        nb.sol_operation_receivable_amount = book.sol_operation_receivable_amount + d.deducted_fee_as_sol;
    } else {
        nb.token_operation_receivable_amount = book.token_operation_receivable_amount + d.deducted_supported_token_fee_amount;
    }
    nb.vault_receipt_token_operation_reserved_amount =
        book.vault_receipt_token_operation_reserved_amount + d.minted_vault_receipt_token_amount;
    if d.to_vault_receipt_token_account_amount < nb.vault_receipt_token_operation_reserved_amount {
        return Err(ErrorCode::RequireGteViolated);
    }
    Ok((nb, RestakeVSTCommandResult {
        supported_token_mint,
        deposited_supported_token_amount: d.deposited_supported_token_amount,
        deducted_supported_token_fee_amount: d.deducted_supported_token_fee_amount,
        minted_token_amount: d.minted_vault_receipt_token_amount,
        operation_reserved_token_amount: nb.vault_receipt_token_operation_reserved_amount,
    }))
}

/// A deposit moves exactly the deposited amount out of the token's reserve
/// and exactly the minted amount into the vault's reserve.
pub proof fn lemma_deposit_conserves(book: RestakeBook, d: RestakeDeposit, is_normalized_token: bool)
    requires
        d.deposited_supported_token_amount <= book.token_operation_reserved_amount,
        book.vault_receipt_token_operation_reserved_amount + d.minted_vault_receipt_token_amount <= u64::MAX,
    ensures
        spec_apply_deposit(book, d, is_normalized_token).token_operation_reserved_amount + d.deposited_supported_token_amount
            == book.token_operation_reserved_amount,
        spec_apply_deposit(book, d, is_normalized_token).vault_receipt_token_operation_reserved_amount
            == book.vault_receipt_token_operation_reserved_amount + d.minted_vault_receipt_token_amount,
{
}

} // verus!
