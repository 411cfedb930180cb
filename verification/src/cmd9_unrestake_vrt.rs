use vstd::prelude::*;
use crate::errors::ErrorCode;
use crate::iteration::skip_first;
use crate::operation_command::OperationCommandAccountMeta;
use crate::pricing::{spec_vault_kind, TokenPricingSource, VaultKind};
use crate::programs::{associated_token_address, associated_token_address_found, get_associated_token_address_with_program_id, token_program_id};
use crate::pubkey::Pubkey;

verus! {

/// Unrestaking less than this many vault receipt tokens is not worth a withdrawal request.
pub const UNRESTAKING_MINIMUM_RECEIPT_TOKEN_AMOUNT: u64 = 1_000_000_000;

/// One withdrawal request to make: `allocated_receipt_token_amount` receipt tokens of `vault`.
#[derive(Clone, Copy, PartialEq, Eq, Structural, Debug)]
pub struct UnrestakeVSTCommandItem {
    pub vault: Pubkey,
    pub receipt_token_mint: Pubkey,
    pub supported_token_mint: Pubkey,
    pub allocated_receipt_token_amount: u64,
}

/// Where the unrestaking command stands.
#[derive(Clone, Debug)]
pub enum UnrestakeVRTCommandState {
    New,
    Prepare { items: Vec<UnrestakeVSTCommandItem> },
    Execute { items: Vec<UnrestakeVSTCommandItem> },
}

/// Requests withdrawals from restaking vaults to meet the fund's withdrawal obligations.
#[derive(Clone, Debug)]
pub struct UnrestakeVRTCommand {
    pub state: UnrestakeVRTCommandState,
}

impl Default for UnrestakeVRTCommand {
    fn default() -> (r: Self)
        ensures
            r.state is New,
    {
        UnrestakeVRTCommand { state: UnrestakeVRTCommandState::New }
    }
}

/// What a withdrawal request did.
#[derive(Clone, Copy, PartialEq, Eq, Structural, Debug)]
pub struct UnrestakeVRTCommandResult {
    pub vault: Pubkey,
    pub token_mint: Pubkey,
    pub unrestaking_token_amount: u64,
    pub total_unrestaking_token_amount: u64,
    pub operation_reserved_token_amount: u64,
}

/// `x - y`, or zero when `y` is larger.
pub open spec fn sat_sub(x: int, y: int) -> int {
    if x > y { x - y } else { 0 }
}

/// The SOL obligation left after what is already reserved: the total
/// obligation less (saturating) the normalized token ready to unstake and each
/// supported token's reserved amount, all as SOL.
pub open spec fn spec_extra_obligation(total: u64, reductions: Seq<u64>) -> int
    decreases reductions.len(),
{
    if reductions.len() == 0 {
        total as int
    } else {
        sat_sub(spec_extra_obligation(total, reductions.drop_last()), reductions.last() as int)
    }
}

/// The extra unrestaking obligation of the `New` step.
pub fn extra_obligation(total: u64, reductions: &Vec<u64>) -> (r: u64)
    ensures
        r == spec_extra_obligation(total, reductions@),
{
    let mut x = total;
    let mut i: usize = 0;
    while i < reductions.len()
        invariant
            i <= reductions.len(),
            x == spec_extra_obligation(total, reductions@.take(i as int)),
        decreases reductions.len() - i,
    {
        assert(reductions@.take(i as int + 1).drop_last() =~= reductions@.take(i as int));
        x = x.saturating_sub(reductions[i]);
        i += 1;
    }
    assert(reductions@.take(reductions.len() as int) =~= reductions@);
    x
}

/// Subtracting in steps is subtracting the total, as long as nothing goes below zero first.
pub proof fn lemma_extra_obligation_is_total_less_reductions(total: u64, reductions: Seq<u64>)
    ensures
        spec_extra_obligation(total, reductions) == sat_sub(total as int, seq_sum(reductions)),
    decreases reductions.len(),
{
    if reductions.len() > 0 {
        lemma_extra_obligation_is_total_less_reductions(total, reductions.drop_last());
        lemma_seq_sum_nonneg(reductions.drop_last());
    }
}

/// The sum of the amounts.
pub open spec fn seq_sum(s: Seq<u64>) -> int
    decreases s.len(),
{
    if s.len() == 0 { 0 } else { seq_sum(s.drop_last()) + s.last() }
}

proof fn lemma_seq_sum_nonneg(s: Seq<u64>)
    ensures
        seq_sum(s) >= 0,
    decreases s.len(),
{
    if s.len() > 0 {
        lemma_seq_sum_nonneg(s.drop_last());
    }
}

/// How a vault can unrestake a supported token: directly, when the vault's
/// supported token is that token (`Some(false)`), or through the normalized
/// token pool, when the vault's supported token is the pool's normalized token
/// and the pool holds that token (`Some(true)`). `pool` is the pool's
/// normalized token mint and whether it holds the supported token.
pub open spec fn spec_unrestakable(token_mint: Pubkey, vault_supported_mint: Pubkey, pool: Option<(Pubkey, bool)>) -> Option<bool> {
    if vault_supported_mint == token_mint {
        Some(false)
    } else if pool matches Some((normalized_token_mint, holds_token)) && normalized_token_mint == vault_supported_mint && holds_token {
        Some(true)
    } else {
        None
    }
}

/// The vaults that can unrestake a supported token, in order: each vault's
/// index and whether it goes through the normalized token pool.
pub open spec fn spec_unrestakable_vaults(token_mint: Pubkey, vault_supported_mints: Seq<Pubkey>, pool: Option<(Pubkey, bool)>)
    -> Seq<(usize, bool)>
    decreases vault_supported_mints.len(),
{
    if vault_supported_mints.len() == 0 {
        Seq::empty()
    } else {
        let prev = spec_unrestakable_vaults(token_mint, vault_supported_mints.drop_last(), pool);
        match spec_unrestakable(token_mint, vault_supported_mints.last(), pool) {
            Some(normalized) => prev.push(((vault_supported_mints.len() - 1) as usize, normalized)),
            None => prev,
        }
    }
}

/// The vaults listed for a supported token are exactly those that can
/// unrestake it, each once, in the vaults' order, each marked with the way it
/// unrestakes the token.
pub proof fn lemma_unrestakable_vaults_are_the_matching_ones(token_mint: Pubkey, vault_supported_mints: Seq<Pubkey>, pool: Option<(Pubkey, bool)>)
    requires
        vault_supported_mints.len() <= usize::MAX,
    ensures
        ({
            let r = spec_unrestakable_vaults(token_mint, vault_supported_mints, pool);
            &&& forall|k: int| 0 <= k < r.len() ==> (#[trigger] r[k]).0 < vault_supported_mints.len()
                    && spec_unrestakable(token_mint, vault_supported_mints[r[k].0 as int], pool) == Some(r[k].1)
            &&& forall|k1: int, k2: int| 0 <= k1 < k2 < r.len() ==> (#[trigger] r[k1]).0 < (#[trigger] r[k2]).0
            &&& forall|j: int| 0 <= j < vault_supported_mints.len()
                    && (#[trigger] spec_unrestakable(token_mint, vault_supported_mints[j], pool)) is Some
                    ==> exists|k: int| 0 <= k < r.len() && r[k].0 == j
        }),
    decreases vault_supported_mints.len(),
{
    if vault_supported_mints.len() > 0 {
        let s = vault_supported_mints;
        let prev_s = s.drop_last();
        lemma_unrestakable_vaults_are_the_matching_ones(token_mint, prev_s, pool);
        let prev = spec_unrestakable_vaults(token_mint, prev_s, pool);
        let r = spec_unrestakable_vaults(token_mint, s, pool);
        assert forall|j: int| 0 <= j < s.len() && (#[trigger] spec_unrestakable(token_mint, s[j], pool)) is Some
            implies exists|k: int| 0 <= k < r.len() && r[k].0 == j by {
            if j < s.len() - 1 {
                assert(prev_s[j] == s[j]);
                assert(spec_unrestakable(token_mint, prev_s[j], pool) is Some);
                let k = choose|k: int| 0 <= k < prev.len() && prev[k].0 == j;
                assert(r[k] == prev[k]);
            } else {
                assert(s.last() == s[j]);
                let n = spec_unrestakable(token_mint, s.last(), pool).unwrap();
                assert(r == prev.push(((s.len() - 1) as usize, n)));
                assert(r[prev.len() as int].0 == j);
            }
        }
    }
}

/// The vaults that can unrestake a supported token (given each vault's
/// supported token mint), at most `max` of them: all of them to sum what the
/// token could unrestake, the first four to allot its unrestaking.
pub fn unrestakable_vaults(token_mint: Pubkey, vault_supported_mints: &Vec<Pubkey>, pool: Option<(Pubkey, bool)>, max: usize)
    -> (r: Vec<(usize, bool)>)
    ensures
        ({
            let all = spec_unrestakable_vaults(token_mint, vault_supported_mints@, pool);
            r@ == if max < all.len() { all.take(max as int) } else { all }
        }),
{
    let mut r: Vec<(usize, bool)> = Vec::new();
    let mut i: usize = 0;
    while i < vault_supported_mints.len()
        invariant
            i <= vault_supported_mints.len(),
            r@ == spec_unrestakable_vaults(token_mint, vault_supported_mints@.take(i as int), pool),
        decreases vault_supported_mints.len() - i,
    {
        assert(vault_supported_mints@.take(i as int + 1).drop_last() =~= vault_supported_mints@.take(i as int));
        let mint = vault_supported_mints[i];
        if mint == token_mint {
            r.push((i, false));
        } else {
            match pool {
                Some((normalized_token_mint, holds_token)) => {
                    if normalized_token_mint == mint && holds_token {
                        r.push((i, true));
                    }
                },
                None => {},
            }
        }
        i += 1;
    }
    assert(vault_supported_mints@.take(vault_supported_mints.len() as int) =~= vault_supported_mints@);
    let ghost all = r@;
    r.truncate(max);
    assert(max < all.len() ==> all.subrange(0, max as int) =~= all.take(max as int));
    r
}

/// The `New` step's starting items: one per restaking vault, in order, with
/// nothing allotted yet. `vaults` gives each vault's address, receipt token
/// mint and supported token mint.
pub fn initial_items(vaults: &Vec<(Pubkey, Pubkey, Pubkey)>) -> (r: Vec<UnrestakeVSTCommandItem>)
    ensures
        r@ == vaults@.map_values(|v: (Pubkey, Pubkey, Pubkey)| UnrestakeVSTCommandItem {
            vault: v.0,
            receipt_token_mint: v.1,
            supported_token_mint: v.2,
            allocated_receipt_token_amount: 0,
        }),
{
    let mut r: Vec<UnrestakeVSTCommandItem> = Vec::new();
    let mut i: usize = 0;
    while i < vaults.len()
        invariant
            i <= vaults.len(),
            r@ == vaults@.take(i as int).map_values(|v: (Pubkey, Pubkey, Pubkey)| UnrestakeVSTCommandItem {
                vault: v.0,
                receipt_token_mint: v.1,
                supported_token_mint: v.2,
                allocated_receipt_token_amount: 0,
            }),
        decreases vaults.len() - i,
    {
        let (vault, receipt_token_mint, supported_token_mint) = vaults[i];
        r.push(UnrestakeVSTCommandItem { vault, receipt_token_mint, supported_token_mint, allocated_receipt_token_amount: 0 });
        i += 1;
        assert(r@ =~= vaults@.take(i as int).map_values(|v: (Pubkey, Pubkey, Pubkey)| UnrestakeVSTCommandItem {
            vault: v.0,
            receipt_token_mint: v.1,
            supported_token_mint: v.2,
            allocated_receipt_token_amount: 0,
        }));
    }
    assert(vaults@.take(vaults.len() as int) =~= vaults@);
    r
}

/// The items after the strategy allotted them: each vault's allotment less
/// (saturating) what it is already unrestaking, keeping only allotments of at
/// least the minimum.
pub open spec fn spec_finalize_items(items: Seq<UnrestakeVSTCommandItem>, receivables: Seq<u64>) -> Seq<UnrestakeVSTCommandItem>
    decreases items.len(),
{
    if items.len() == 0 {
        Seq::empty()
    } else {
        let prev = spec_finalize_items(items.drop_last(), receivables);
        let it = items.last();
        let amount = sat_sub(it.allocated_receipt_token_amount as int, receivables[items.len() - 1] as int);
        if amount >= UNRESTAKING_MINIMUM_RECEIPT_TOKEN_AMOUNT {
            prev.push(UnrestakeVSTCommandItem { allocated_receipt_token_amount: amount as u64, ..it })
        } else {
            prev
        }
    }
}

impl UnrestakeVRTCommand {
    /// Adds a vault's allotment (as receipt tokens) to its item, one vault at a time.
    pub fn add_allotments(items: &mut Vec<UnrestakeVSTCommandItem>, vault_indexes: &Vec<usize>, amounts: &Vec<u64>)
        requires
            vault_indexes.len() == amounts.len(),
            forall|k: int| 0 <= k < vault_indexes.len() ==> #[trigger] vault_indexes@[k] < old(items).len(),
            forall|k: int| 0 <= k < vault_indexes.len() ==> old(items)@[vault_indexes@[k] as int].allocated_receipt_token_amount
                + amounts@[k] <= u64::MAX,
            forall|k1: int, k2: int| 0 <= k1 < k2 < vault_indexes.len() ==> vault_indexes@[k1] != vault_indexes@[k2],
        ensures
            final(items).len() == old(items).len(),
            forall|j: int| 0 <= j < old(items).len() ==> {
                &&& #[trigger] final(items)@[j].vault == old(items)@[j].vault
                &&& final(items)@[j].receipt_token_mint == old(items)@[j].receipt_token_mint
                &&& final(items)@[j].supported_token_mint == old(items)@[j].supported_token_mint
            },
            forall|k: int| 0 <= k < vault_indexes.len() ==>
                final(items)@[#[trigger] vault_indexes@[k] as int].allocated_receipt_token_amount
                    == old(items)@[vault_indexes@[k] as int].allocated_receipt_token_amount + amounts@[k],
            forall|j: int| 0 <= j < old(items).len() && !(exists|k: int| 0 <= k < vault_indexes.len() && vault_indexes@[k] == j) ==>
                #[trigger] final(items)@[j] == old(items)@[j],
    {
        let ghost orig = items@;
        let mut k: usize = 0;
        while k < vault_indexes.len()
            invariant
                k <= vault_indexes.len(),
                vault_indexes.len() == amounts.len(),
                items.len() == orig.len(),
                forall|k2: int| 0 <= k2 < vault_indexes.len() ==> #[trigger] vault_indexes@[k2] < orig.len(),
                forall|k2: int| 0 <= k2 < vault_indexes.len() ==> orig[vault_indexes@[k2] as int].allocated_receipt_token_amount
                    + amounts@[k2] <= u64::MAX,
                forall|k1: int, k2: int| 0 <= k1 < k2 < vault_indexes.len() ==> vault_indexes@[k1] != vault_indexes@[k2],
                forall|j: int| 0 <= j < orig.len() ==> {
                    &&& #[trigger] items@[j].vault == orig[j].vault
                    &&& items@[j].receipt_token_mint == orig[j].receipt_token_mint
                    &&& items@[j].supported_token_mint == orig[j].supported_token_mint
                },
                forall|k2: int| 0 <= k2 < k ==>
                    items@[#[trigger] vault_indexes@[k2] as int].allocated_receipt_token_amount
                        == orig[vault_indexes@[k2] as int].allocated_receipt_token_amount + amounts@[k2],
                forall|j: int| 0 <= j < orig.len() && !(exists|k2: int| 0 <= k2 < k && vault_indexes@[k2] == j) ==>
                    #[trigger] items@[j] == orig[j],
            decreases vault_indexes.len() - k,
        {
            let j = vault_indexes[k];
            assert(!(exists|k2: int| 0 <= k2 < k && vault_indexes@[k2] == j));
            let it = items[j];
            items.set(j, UnrestakeVSTCommandItem { allocated_receipt_token_amount: it.allocated_receipt_token_amount + amounts[k], ..it });
            k += 1;
            assert forall|j2: int| 0 <= j2 < orig.len() && !(exists|k2: int| 0 <= k2 < k && vault_indexes@[k2] == j2)
                implies #[trigger] items@[j2] == orig[j2] by {
                assert(vault_indexes@[k - 1] != j2);
                assert(!(exists|k2: int| 0 <= k2 < k - 1 && vault_indexes@[k2] == j2)) by {
                    if exists|k2: int| 0 <= k2 < k - 1 && vault_indexes@[k2] == j2 {
                        let k2 = choose|k2: int| 0 <= k2 < k - 1 && vault_indexes@[k2] == j2;
                        assert(0 <= k2 < k && vault_indexes@[k2] == j2);
                    }
                }
            }
        }
    }

    /// Finishes the `New` step's items (`receivables[i]` is what vault `i` is
    /// already unrestaking).
    pub fn finalize_items(items: &Vec<UnrestakeVSTCommandItem>, receivables: &Vec<u64>) -> (r: Vec<UnrestakeVSTCommandItem>)
        requires
            items.len() == receivables.len(),
        ensures
            r@ == spec_finalize_items(items@, receivables@),
    {
        let mut r: Vec<UnrestakeVSTCommandItem> = Vec::new();
        let mut i: usize = 0;
        while i < items.len()
            invariant
                i <= items.len(),
                items.len() == receivables.len(),
                r@ == spec_finalize_items(items@.take(i as int), receivables@),
            decreases items.len() - i,
        {
            assert(items@.take(i as int + 1).drop_last() =~= items@.take(i as int));
            let it = items[i];
            let amount = it.allocated_receipt_token_amount.saturating_sub(receivables[i]);
            if amount >= UNRESTAKING_MINIMUM_RECEIPT_TOKEN_AMOUNT {
                r.push(UnrestakeVSTCommandItem { allocated_receipt_token_amount: amount, ..it });
            }
            i += 1;
        }
        assert(items@.take(items.len() as int) =~= items@);
        r
    }

    /// Hands over with the remaining items: the `Prepare` step of the first one
    /// (from a Jito or Solv vault; any other vault fails), or none when no item
    /// is left (undelegation comes next).
    pub fn create_prepare_command_with_items(items: Vec<UnrestakeVSTCommandItem>, first_vault_source: Option<TokenPricingSource>)
        -> (r: Result<Option<UnrestakeVRTCommand>, ErrorCode>)
        ensures
            items.len() == 0 ==> r == Ok::<Option<UnrestakeVRTCommand>, ErrorCode>(None),
            items.len() > 0 && (spec_vault_kind(first_vault_source) == Some(VaultKind::Jito)
                || spec_vault_kind(first_vault_source) == Some(VaultKind::SolvBTC)) ==>
                (r matches Ok(Some(c)) && c.state matches UnrestakeVRTCommandState::Prepare { items: p } && p@ == items@),
            items.len() > 0 && !(spec_vault_kind(first_vault_source) == Some(VaultKind::Jito)
                || spec_vault_kind(first_vault_source) == Some(VaultKind::SolvBTC)) ==>
                r == Err::<Option<UnrestakeVRTCommand>, ErrorCode>(ErrorCode::FundOperationCommandExecutionFailedException),
    {
        if items.len() == 0 {
            return Ok(None);
        }
        match first_vault_source {
            Some(TokenPricingSource::JitoRestakingVault { .. }) | Some(TokenPricingSource::SolvBTCVault { .. }) => {
                Ok(Some(UnrestakeVRTCommand { state: UnrestakeVRTCommandState::Prepare { items } }))
            },
            _ => Err(ErrorCode::FundOperationCommandExecutionFailedException),
        }
    }

    /// The checks of the `Prepare` step (`executing` false) and the `Execute`
    /// step (`executing` true) on the first item's vault. A Jito vault must be
    /// the item's vault, with at least three accounts to prepare; to execute,
    /// nine, followed by five withdrawal ticket candidates of three accounts
    /// each. A Solv vault needs none (it is passed over). Gives the vault's
    /// kind; any other vault is a misconfigured fund.
    pub fn check_vault_accounts(source: &Option<TokenPricingSource>, item_vault: Pubkey, account_keys: &Vec<Pubkey>, executing: bool)
        -> (r: Result<VaultKind, ErrorCode>)
        ensures
            r == (match *source {
                Some(TokenPricingSource::JitoRestakingVault { address }) =>
                    if address != item_vault {
                        Err(ErrorCode::RequireKeysEqViolated)
                    } else if account_keys.len() < (if executing { 24int } else { 3int }) {
                        Err(ErrorCode::AccountNotEnoughKeys)
                    } else {
                        Ok(VaultKind::Jito)
                    },
                Some(TokenPricingSource::SolvBTCVault { .. }) => Ok(VaultKind::SolvBTC),
                _ => Err(ErrorCode::FundOperationCommandExecutionFailedException),
            }),
    {
        match source {
            Some(TokenPricingSource::JitoRestakingVault { address }) => {
                if *address != item_vault {
                    return Err(ErrorCode::RequireKeysEqViolated);
                }
                let needed: usize = if executing { 24 } else { 3 };
                if account_keys.len() < needed {
                    return Err(ErrorCode::AccountNotEnoughKeys);
                }
                Ok(VaultKind::Jito)
            },
            Some(TokenPricingSource::SolvBTCVault { .. }) => Ok(VaultKind::SolvBTC),
            _ => Err(ErrorCode::FundOperationCommandExecutionFailedException),
        }
    }

    /// The items left after the first one.
    pub fn remaining_items(items: &Vec<UnrestakeVSTCommandItem>) -> (r: Vec<UnrestakeVSTCommandItem>)
        ensures
            items.len() > 0 ==> r@ == items@.drop_first(),
            items.len() == 0 ==> r@ == Seq::<UnrestakeVSTCommandItem>::empty(),
    {
        skip_first(items)
    }
}

/// The withdrawal ticket accounts of a Jito withdrawal request: for each
/// ticket its account, its receipt token account (the associated token
/// account for the receipt token under the token program) and its base account.
pub open spec fn spec_request_ticket_accounts(tickets: Seq<(Pubkey, Pubkey)>, receipt_token_mint: Pubkey) -> Seq<OperationCommandAccountMeta>
    decreases tickets.len(),
{
    if tickets.len() == 0 {
        Seq::empty()
    } else {
        let (ticket, base) = tickets.last();
        spec_request_ticket_accounts(tickets.drop_last(), receipt_token_mint)
            .push(OperationCommandAccountMeta { pubkey: ticket, is_writable: true })
            .push(OperationCommandAccountMeta {
                pubkey: associated_token_address(ticket, receipt_token_mint,
                    Pubkey { w0: 0x93a165d7e1f6dd06, w1: 0xac79ebce46e1cbd9, w2: 0x91375b5fed85b41c, w3: 0xa900ff7e85f58c3a }),
                is_writable: true,
            })
            .push(OperationCommandAccountMeta { pubkey: base, is_writable: false })
    }
}

/// Lists the ticket accounts (ticket, base) of a withdrawal request; refused
/// when a ticket's receipt token account address cannot be derived.
pub fn request_ticket_accounts(tickets: &Vec<(Pubkey, Pubkey)>, receipt_token_mint: Pubkey) -> (r: Result<Vec<OperationCommandAccountMeta>, ErrorCode>)
    ensures
        r matches Ok(accounts) ==> accounts@ == spec_request_ticket_accounts(tickets@, receipt_token_mint),
        r is Ok <==> forall|i: int| 0 <= i < tickets.len() ==>
            associated_token_address_found((#[trigger] tickets@[i]).0, receipt_token_mint, Pubkey { w0: 0x93a165d7e1f6dd06, w1: 0xac79ebce46e1cbd9, w2: 0x91375b5fed85b41c, w3: 0xa900ff7e85f58c3a }),
        r is Err ==> r == Err::<Vec<OperationCommandAccountMeta>, ErrorCode>(ErrorCode::ProgramAddressNotFound),
{
    let mut r: Vec<OperationCommandAccountMeta> = Vec::new();
    let token_program = token_program_id();
    let mut i: usize = 0;
    while i < tickets.len()
        invariant
            i <= tickets.len(),
            token_program == (Pubkey { w0: 0x93a165d7e1f6dd06, w1: 0xac79ebce46e1cbd9, w2: 0x91375b5fed85b41c, w3: 0xa900ff7e85f58c3a }),
            r@ == spec_request_ticket_accounts(tickets@.take(i as int), receipt_token_mint),
            forall|j: int| 0 <= j < i ==> associated_token_address_found((#[trigger] tickets@[j]).0, receipt_token_mint, token_program),
        decreases tickets.len() - i,
    {
        let (ticket, base) = tickets[i];
        assert(tickets@.take(i as int + 1).drop_last() =~= tickets@.take(i as int));
        r.push(OperationCommandAccountMeta { pubkey: ticket, is_writable: true });
        let ata = match get_associated_token_address_with_program_id(&ticket, &receipt_token_mint, &token_program) {
            Some(a) => a,
            None => return Err(ErrorCode::ProgramAddressNotFound),
        };
        r.push(OperationCommandAccountMeta { pubkey: ata, is_writable: true });
        r.push(OperationCommandAccountMeta { pubkey: base, is_writable: false });
        i += 1;
    }
    assert(tickets@.take(tickets.len() as int) =~= tickets@);
    Ok(r)
}

/// The first ticket slot that is free (its account not yet initialized).
pub fn first_free_ticket(initialized: &Vec<bool>) -> (r: Option<usize>)
    ensures
        r matches Some(i) ==> i < initialized.len() && !initialized@[i as int]
            && forall|j: int| 0 <= j < i ==> initialized@[j],
        r is None ==> forall|j: int| 0 <= j < initialized.len() ==> initialized@[j],
{
    let mut i: usize = 0;
    while i < initialized.len()
        invariant
            i <= initialized.len(),
            forall|j: int| 0 <= j < i ==> initialized@[j],
        decreases initialized.len() - i,
    {
        if !initialized[i] {
            return Some(i);
        }
        i += 1;
    }
    None
}

/// The vault's receipt token bookkeeping.
#[derive(Clone, Copy, PartialEq, Eq, Structural, Debug)]
pub struct VaultReceiptBook {
    pub receipt_token_operation_reserved_amount: u64,
    pub receipt_token_operation_receivable_amount: u64,
}

/// What the vault reported for a withdrawal request.
#[derive(Clone, Copy, PartialEq, Eq, Structural, Debug)]
pub struct WithdrawalRequest {
    /// The fund's receipt token balance after the request.
    pub from_vault_receipt_token_account_amount: u64,
    pub enqueued_vault_receipt_token_amount: u64,
    /// The fund reserve's lamports after the request.
    pub fund_reserve_lamports: u64,
}

/// The bookkeeping after a withdrawal request.
pub open spec fn spec_apply_request(book: VaultReceiptBook, enqueued: u64) -> VaultReceiptBook {
    VaultReceiptBook {
        receipt_token_operation_reserved_amount: (book.receipt_token_operation_reserved_amount - enqueued) as u64,
        receipt_token_operation_receivable_amount: (book.receipt_token_operation_receivable_amount + enqueued) as u64,
    }
}

/// The `Execute` step's bookkeeping for a Jito withdrawal request: the enqueued
/// receipt tokens move from reserved to receivable. Refused when the fund
/// reserve holds fewer lamports than the fund's total reserved SOL, or the
/// fund's receipt token account holds less than the new reserve.
pub fn apply_request(book: VaultReceiptBook, req: WithdrawalRequest, sol_total_reserved_amount: u64, item: UnrestakeVSTCommandItem)
    -> (r: Result<(VaultReceiptBook, UnrestakeVRTCommandResult), ErrorCode>)
    requires
        req.enqueued_vault_receipt_token_amount <= book.receipt_token_operation_reserved_amount,
        book.receipt_token_operation_receivable_amount + req.enqueued_vault_receipt_token_amount <= u64::MAX,
    ensures
        ({
            let nb = spec_apply_request(book, req.enqueued_vault_receipt_token_amount);
            let ok = req.fund_reserve_lamports >= sol_total_reserved_amount
                && req.from_vault_receipt_token_account_amount >= nb.receipt_token_operation_reserved_amount;
            &&& ok ==> r == Ok::<(VaultReceiptBook, UnrestakeVRTCommandResult), ErrorCode>((nb, UnrestakeVRTCommandResult {
                vault: item.vault,
                token_mint: item.receipt_token_mint,
                unrestaking_token_amount: req.enqueued_vault_receipt_token_amount,
                total_unrestaking_token_amount: nb.receipt_token_operation_receivable_amount,
                operation_reserved_token_amount: nb.receipt_token_operation_reserved_amount,
            }))
            &&& !ok ==> r == Err::<(VaultReceiptBook, UnrestakeVRTCommandResult), ErrorCode>(ErrorCode::RequireGteViolated)
        }),
        r matches Ok((nb, res)) ==> {
            &&& nb.receipt_token_operation_reserved_amount + req.enqueued_vault_receipt_token_amount
                == book.receipt_token_operation_reserved_amount
            &&& nb.receipt_token_operation_receivable_amount
                == book.receipt_token_operation_receivable_amount + req.enqueued_vault_receipt_token_amount
            &&& res.unrestaking_token_amount == req.enqueued_vault_receipt_token_amount
            &&& res.vault == item.vault
        },
{
    if req.fund_reserve_lamports < sol_total_reserved_amount {
        return Err(ErrorCode::RequireGteViolated);
    }
    let nb = VaultReceiptBook {
        receipt_token_operation_reserved_amount: book.receipt_token_operation_reserved_amount - req.enqueued_vault_receipt_token_amount,
        receipt_token_operation_receivable_amount: book.receipt_token_operation_receivable_amount + req.enqueued_vault_receipt_token_amount,
    };
    if req.from_vault_receipt_token_account_amount < nb.receipt_token_operation_reserved_amount {
        return Err(ErrorCode::RequireGteViolated);
    }
    Ok((nb, UnrestakeVRTCommandResult {
        vault: item.vault,
        token_mint: item.receipt_token_mint,
        unrestaking_token_amount: req.enqueued_vault_receipt_token_amount,
        total_unrestaking_token_amount: nb.receipt_token_operation_receivable_amount,
        operation_reserved_token_amount: nb.receipt_token_operation_reserved_amount,
    }))
}

/// A withdrawal request moves receipt tokens from reserved to receivable and
/// keeps their sum unchanged.
pub proof fn lemma_request_keeps_receipt_total(book: VaultReceiptBook, enqueued: u64)
    requires
        enqueued <= book.receipt_token_operation_reserved_amount,
        book.receipt_token_operation_receivable_amount + enqueued <= u64::MAX,
    ensures
        spec_apply_request(book, enqueued).receipt_token_operation_reserved_amount
            + spec_apply_request(book, enqueued).receipt_token_operation_receivable_amount
            == book.receipt_token_operation_reserved_amount + book.receipt_token_operation_receivable_amount,
{
}

/// Every finished item requests at least the minimum.
pub proof fn lemma_finalized_items_minimum(items: Seq<UnrestakeVSTCommandItem>, receivables: Seq<u64>)
    ensures
        forall|i: int| 0 <= i < spec_finalize_items(items, receivables).len() ==>
            #[trigger] spec_finalize_items(items, receivables)[i].allocated_receipt_token_amount >= UNRESTAKING_MINIMUM_RECEIPT_TOKEN_AMOUNT,
    decreases items.len(),
{
    if items.len() > 0 {
        lemma_finalized_items_minimum(items.drop_last(), receivables);
        let it = items.last();
        let amount = sat_sub(it.allocated_receipt_token_amount as int, receivables[items.len() - 1] as int);
        assert(0 <= amount <= it.allocated_receipt_token_amount);
        let prev = spec_finalize_items(items.drop_last(), receivables);
        if amount >= UNRESTAKING_MINIMUM_RECEIPT_TOKEN_AMOUNT {
            let pushed = UnrestakeVSTCommandItem { allocated_receipt_token_amount: amount as u64, ..it };
            assert(spec_finalize_items(items, receivables) == prev.push(pushed));
            assert forall|i: int| 0 <= i < prev.len() + 1 implies
                #[trigger] prev.push(pushed)[i].allocated_receipt_token_amount >= UNRESTAKING_MINIMUM_RECEIPT_TOKEN_AMOUNT by {
                if i < prev.len() {
                    assert(prev.push(pushed)[i] == prev[i]);
                }
            }
        }
    }
}

} // verus!
