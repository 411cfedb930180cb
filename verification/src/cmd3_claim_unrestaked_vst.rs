use vstd::prelude::*;
use crate::errors::ErrorCode;
use crate::iteration::{next_taken, spec_first_taken, spec_next_after, StepDecision};
use crate::operation_command::OperationCommandAccountMeta;
use crate::pricing::{spec_vault_kind, TokenPricingSource, VaultKind};
use crate::programs::{associated_token_address, associated_token_address_found, get_associated_token_address_with_program_id, token_program_id};
use crate::pubkey::Pubkey;

verus! {

/// Where the claim command stands.
#[derive(Clone, Copy, PartialEq, Eq, Structural, Debug)]
pub enum ClaimUnrestakedVSTCommandState {
    /// Looks for the first vault with something to claim.
    New,
    /// Gathers the accounts to claim from the vault.
    Prepare { vault: Pubkey },
    /// Claims from the vault, then looks at the next vault.
    Execute { vault: Pubkey },
}

/// Claims the supported tokens that restaking vaults have finished unrestaking.
#[derive(Clone, Copy, PartialEq, Eq, Structural, Debug)]
pub struct ClaimUnrestakedVSTCommand {
    pub state: ClaimUnrestakedVSTCommandState,
}

impl Default for ClaimUnrestakedVSTCommand {
    fn default() -> (r: Self)
        ensures
            r.state is New,
    {
        ClaimUnrestakedVSTCommand { state: ClaimUnrestakedVSTCommandState::New }
    }
}

/// An asset receivable offset by a claim.
#[derive(Clone, Copy, PartialEq, Eq, Structural, Debug)]
pub struct ClaimUnrestakedVSTCommandResultAssetReceivable {
    pub asset_token_mint: Option<Pubkey>,
    pub asset_amount: u64,
}

/// What a claim did.
#[derive(Clone, Debug)]
pub struct ClaimUnrestakedVSTCommandResult {
    pub vault: Pubkey,
    pub receipt_token_mint: Pubkey,
    pub total_unrestaking_receipt_token_amount: u64,
    pub unrestaked_receipt_token_amount: u64,
    pub deducted_receipt_token_fee_amount: u64,
    pub supported_token_mint: Pubkey,
    pub claimed_supported_token_amount: u64,
    pub transferred_supported_token_revenue_amount: u64,
    pub offsetted_supported_token_receivable_amount: u64,
    pub offsetted_asset_receivables: Vec<ClaimUnrestakedVSTCommandResultAssetReceivable>,
    pub operation_reserved_supported_token_amount: u64,
    pub operation_receivable_supported_token_amount: u64,
}

/// Whether a vault has anything to claim: a Jito vault when it is still
/// unrestaking receipt tokens, a Solv vault always, a virtual vault never;
/// a receipt token from anything else is a misconfigured fund.
pub open spec fn spec_claim_decision(source: Option<TokenPricingSource>, receipt_token_operation_receivable_amount: u64) -> StepDecision {
    match spec_vault_kind(source) {
        Some(VaultKind::Jito) => if receipt_token_operation_receivable_amount == 0 { StepDecision::Skip } else { StepDecision::Take },
        Some(VaultKind::SolvBTC) => StepDecision::Take,
        Some(VaultKind::Virtual) => StepDecision::Skip,
        None => StepDecision::Fail,
    }
}

/// Decides whether the `New` step stops at a vault.
pub fn claim_decision(source: &Option<TokenPricingSource>, receipt_token_operation_receivable_amount: u64) -> (r: StepDecision)
    ensures
        r == spec_claim_decision(*source, receipt_token_operation_receivable_amount),
{
    match source {
        Some(TokenPricingSource::JitoRestakingVault { .. }) => {
            if receipt_token_operation_receivable_amount == 0 { StepDecision::Skip } else { StepDecision::Take }
        },
        Some(TokenPricingSource::SolvBTCVault { .. }) => StepDecision::Take,
        Some(TokenPricingSource::VirtualVault { .. }) => StepDecision::Skip,
        _ => StepDecision::Fail,
    }
}

/// The account checks of the `Prepare` step (`executing` false) and the
/// `Execute` step (`executing` true) on a vault. A Jito vault needs its vault
/// account third, among at least three accounts to prepare; to execute, among
/// at least eleven, followed by ten withdrawal ticket candidates. A Solv vault
/// needs its vault account second, among at least two accounts to prepare and
/// twelve to execute. A virtual vault needs none. Gives the vault's kind; any
/// other receipt token is a misconfigured fund.
pub fn check_vault_accounts(source: &Option<TokenPricingSource>, account_keys: &Vec<Pubkey>, executing: bool)
    -> (r: Result<VaultKind, ErrorCode>)
    ensures
        r == (match *source {
            Some(TokenPricingSource::JitoRestakingVault { address }) =>
                if account_keys.len() < (if executing { 11int } else { 3int }) {
                    Err(ErrorCode::AccountNotEnoughKeys)
                } else if account_keys@[2] != address {
                    Err(ErrorCode::RequireKeysEqViolated)
                } else if executing && account_keys.len() < 21 {
                    Err(ErrorCode::AccountNotEnoughKeys)
                } else {
                    Ok(VaultKind::Jito)
                },
            Some(TokenPricingSource::SolvBTCVault { address }) =>
                if account_keys.len() < (if executing { 12int } else { 2int }) {
                    Err(ErrorCode::AccountNotEnoughKeys)
                } else if account_keys@[1] != address {
                    Err(ErrorCode::RequireKeysEqViolated)
                } else {
                    Ok(VaultKind::SolvBTC)
                },
            Some(TokenPricingSource::VirtualVault { .. }) => Ok(VaultKind::Virtual),
            _ => Err(ErrorCode::FundOperationCommandExecutionFailedException),
        }),
{
    match source {
        Some(TokenPricingSource::JitoRestakingVault { address }) => {
            let needed: usize = if executing { 11 } else { 3 };
            if account_keys.len() < needed {
                return Err(ErrorCode::AccountNotEnoughKeys);
            }
            if account_keys[2] != *address {
                return Err(ErrorCode::RequireKeysEqViolated);
            }
            if executing && account_keys.len() < 21 {
                return Err(ErrorCode::AccountNotEnoughKeys);
            }
            Ok(VaultKind::Jito)
        },
        Some(TokenPricingSource::SolvBTCVault { address }) => {
            let needed: usize = if executing { 12 } else { 2 };
            if account_keys.len() < needed {
                return Err(ErrorCode::AccountNotEnoughKeys);
            }
            if account_keys[1] != *address {
                return Err(ErrorCode::RequireKeysEqViolated);
            }
            Ok(VaultKind::SolvBTC)
        },
        Some(TokenPricingSource::VirtualVault { .. }) => Ok(VaultKind::Virtual),
        _ => Err(ErrorCode::FundOperationCommandExecutionFailedException),
    }
}

/// A restaking vault as the claim command reads it.
#[derive(Clone, Copy, PartialEq, Eq, Structural, Debug)]
pub struct ClaimVaultInfo {
    pub vault: Pubkey,
    pub receipt_token_pricing_source: Option<TokenPricingSource>,
    pub receipt_token_operation_receivable_amount: u64,
}

/// The vaults' addresses, in order.
pub open spec fn vault_keys(vaults: Seq<ClaimVaultInfo>) -> Seq<Pubkey> {
    vaults.map_values(|v: ClaimVaultInfo| v.vault)
}

/// What the claim decides at each vault, in order.
pub open spec fn vault_decisions(vaults: Seq<ClaimVaultInfo>) -> Seq<StepDecision> {
    vaults.map_values(|v: ClaimVaultInfo| spec_claim_decision(v.receipt_token_pricing_source, v.receipt_token_operation_receivable_amount))
}

impl ClaimUnrestakedVSTCommand {
    /// The `New` step (also taken after each vault): the `Prepare` step of the
    /// next vault after `previous` with something to claim, or none when no
    /// vault is left (denormalization comes next).
    pub fn execute_new(vaults: &Vec<ClaimVaultInfo>, previous: Option<Pubkey>) -> (r: Result<Option<ClaimUnrestakedVSTCommand>, ErrorCode>)
        ensures
            r == (match spec_next_after(vault_keys(vaults@), previous) {
                None => Ok(None),
                Some(start) => match spec_first_taken(vault_decisions(vaults@), start) {
                    Ok(Some(i)) => Ok(Some(ClaimUnrestakedVSTCommand { state: ClaimUnrestakedVSTCommandState::Prepare { vault: vaults@[i].vault } })),
                    Ok(None) => Ok(None),
                    Err(e) => Err(e),
                },
            }),
    {
        let mut keys: Vec<Pubkey> = Vec::new();
        let mut ds: Vec<StepDecision> = Vec::new();
        let mut i: usize = 0;
        while i < vaults.len()
            invariant
                i <= vaults.len(),
                keys@ == vault_keys(vaults@.take(i as int)),
                ds@ == vault_decisions(vaults@.take(i as int)),
            decreases vaults.len() - i,
        {
            let v = vaults[i];
            keys.push(v.vault);
            ds.push(claim_decision(&v.receipt_token_pricing_source, v.receipt_token_operation_receivable_amount));
            i += 1;
            assert(keys@ =~= vault_keys(vaults@.take(i as int)));
            assert(ds@ =~= vault_decisions(vaults@.take(i as int)));
        }
        assert(vaults@.take(vaults.len() as int) =~= vaults@);
        proof {
            if let Some(start) = spec_next_after(vault_keys(vaults@), previous) {
                if spec_first_taken(vault_decisions(vaults@), start) matches Ok(Some(_)) {
                    crate::iteration::lemma_first_taken_bounds(vault_decisions(vaults@), start);
                }
            }
        }
        match next_taken(&keys, &ds, previous) {
            Ok(Some(j)) => Ok(Some(ClaimUnrestakedVSTCommand { state: ClaimUnrestakedVSTCommandState::Prepare { vault: vaults[j].vault } })),
            Ok(None) => Ok(None),
            Err(e) => Err(e),
        }
    }
}

/// The withdrawal ticket accounts a Jito claim reads: each ticket, followed
/// by the ticket's receipt token account (its associated token account for
/// the vault receipt token under the token program).
pub open spec fn spec_ticket_accounts(tickets: Seq<Pubkey>, receipt_token_mint: Pubkey) -> Seq<OperationCommandAccountMeta>
    decreases tickets.len(),
{
    if tickets.len() == 0 {
        Seq::empty()
    } else {
        spec_ticket_accounts(tickets.drop_last(), receipt_token_mint)
            .push(OperationCommandAccountMeta { pubkey: tickets.last(), is_writable: true })
            .push(OperationCommandAccountMeta {
                pubkey: associated_token_address(tickets.last(), receipt_token_mint,
                    Pubkey { w0: 0x93a165d7e1f6dd06, w1: 0xac79ebce46e1cbd9, w2: 0x91375b5fed85b41c, w3: 0xa900ff7e85f58c3a }),
                is_writable: true,
            })
    }
}

/// Lists the Jito withdrawal tickets and their receipt token accounts;
/// refused when a receipt token account address cannot be derived.
pub fn ticket_accounts(tickets: &Vec<Pubkey>, receipt_token_mint: Pubkey) -> (r: Result<Vec<OperationCommandAccountMeta>, ErrorCode>)
    ensures
        r matches Ok(accounts) ==> accounts@ == spec_ticket_accounts(tickets@, receipt_token_mint),
        r is Ok <==> forall|i: int| 0 <= i < tickets.len() ==>
            associated_token_address_found(#[trigger] tickets@[i], receipt_token_mint, Pubkey { w0: 0x93a165d7e1f6dd06, w1: 0xac79ebce46e1cbd9, w2: 0x91375b5fed85b41c, w3: 0xa900ff7e85f58c3a }),
        r is Err ==> r == Err::<Vec<OperationCommandAccountMeta>, ErrorCode>(ErrorCode::ProgramAddressNotFound),
{
    let mut r: Vec<OperationCommandAccountMeta> = Vec::new();
    let token_program = token_program_id();
    let mut i: usize = 0;
    while i < tickets.len()
        invariant
            i <= tickets.len(),
            token_program == (Pubkey { w0: 0x93a165d7e1f6dd06, w1: 0xac79ebce46e1cbd9, w2: 0x91375b5fed85b41c, w3: 0xa900ff7e85f58c3a }),
            r@ == spec_ticket_accounts(tickets@.take(i as int), receipt_token_mint),
            forall|j: int| 0 <= j < i ==> associated_token_address_found(#[trigger] tickets@[j], receipt_token_mint, token_program),
        decreases tickets.len() - i,
    {
        let t = tickets[i];
        assert(tickets@.take(i as int + 1).drop_last() =~= tickets@.take(i as int));
        r.push(OperationCommandAccountMeta { pubkey: t, is_writable: true });
        let ata = match get_associated_token_address_with_program_id(&t, &receipt_token_mint, &token_program) {
            Some(a) => a,
            None => return Err(ErrorCode::ProgramAddressNotFound),
        };
        r.push(OperationCommandAccountMeta { pubkey: ata, is_writable: true });
        i += 1;
    }
    assert(tickets@.take(tickets.len() as int) =~= tickets@);
    Ok(r)
}

/// The positions of the claimable tickets among the candidates, in order.
pub open spec fn spec_claimable_indices(claimable: Seq<bool>) -> Seq<usize>
    decreases claimable.len(),
{
    if claimable.len() == 0 {
        Seq::empty()
    } else {
        let prev = spec_claimable_indices(claimable.drop_last());
        if claimable.last() { prev.push((claimable.len() - 1) as usize) } else { prev }
    }
}

/// The claimable positions are exactly the positions of the claimable
/// tickets, each once, in increasing order.
pub proof fn lemma_claimable_indices_are_the_claimable_positions(claimable: Seq<bool>)
    requires
        claimable.len() <= usize::MAX,
    ensures
        ({
            let items = spec_claimable_indices(claimable);
            &&& items.len() == items.len()
            &&& forall|k: int| 0 <= k < items.len() ==> {
                &&& 0 <= #[trigger] (items[k] as int) < claimable.len()
            }
            &&& forall|k1: int, k2: int| 0 <= k1 < k2 < items.len() ==> #[trigger] (items[k1] as int) < #[trigger] (items[k2] as int)
            &&& forall|j: int| 0 <= j < claimable.len() ==>
                (claimable[j] <==> exists|k: int| 0 <= k < items.len() && (items[k] as int) == j)
        }),
    decreases claimable.len(),
{
    if claimable.len() == 0 {
    } else {
        let n = claimable.len() - 1;
        let rest = claimable.drop_last();
        let prev = spec_claimable_indices(rest);
        let items = spec_claimable_indices(claimable);
        lemma_claimable_indices_are_the_claimable_positions(rest);
        assert forall|i: int| 0 <= i < n implies rest[i] == claimable[i] by {}
        if claimable[n] {
            
            assert(items == prev.push(n as usize));
            assert forall|k: int| 0 <= k < items.len() implies {
                &&& 0 <= #[trigger] (items[k] as int) < claimable.len()
            } by {
                if k < prev.len() {
                    assert((items[k] as int) == (prev[k] as int));
                    assert(items[k] == prev[k]);
                } else {
                    assert((items[k] as int) == n);
                }
            }
            assert forall|j: int| 0 <= j < claimable.len() implies
                (claimable[j] <==> exists|k: int| 0 <= k < items.len() && (items[k] as int) == j) by {
                if j < n {
                    if claimable[j] {
                        assert(rest[j]);
                        let k = choose|k: int| 0 <= k < prev.len() && (prev[k] as int) == j;
                        assert((items[k] as int) == j);
                    }
                    if exists|k: int| 0 <= k < items.len() && (items[k] as int) == j {
                        let k = choose|k: int| 0 <= k < items.len() && (items[k] as int) == j;
                        assert(k < prev.len());
                        assert((prev[k] as int) == j);
                        assert(rest[j]);
                    }
                } else {
                    assert((items[prev.len() as int] as int) == j);
                }
            }
        } else {
            assert(items == prev);
            assert forall|j: int| 0 <= j < claimable.len() implies
                (claimable[j] <==> exists|k: int| 0 <= k < prev.len() && (prev[k] as int) == j) by {
                if j < n {
                    assert(rest[j] == claimable[j]);
                } else {
                    if exists|k: int| 0 <= k < prev.len() && (prev[k] as int) == j {
                        let k = choose|k: int| 0 <= k < prev.len() && (prev[k] as int) == j;
                        assert((prev[k] as int) < rest.len());
                    }
                }
            }
        }
    }
}

/// Which of the candidate tickets can be claimed now.
pub fn claimable_ticket_indices(claimable: &Vec<bool>) -> (r: Vec<usize>)
    ensures
        r@ == spec_claimable_indices(claimable@),
{
    let mut r: Vec<usize> = Vec::new();
    let mut i: usize = 0;
    while i < claimable.len()
        invariant
            i <= claimable.len(),
            r@ == spec_claimable_indices(claimable@.take(i as int)),
        decreases claimable.len() - i,
    {
        assert(claimable@.take(i as int + 1).drop_last() =~= claimable@.take(i as int));
        if claimable[i] {
            r.push(i);
        }
        i += 1;
    }
    assert(claimable@.take(claimable.len() as int) =~= claimable@);
    r
}

/// What the vault reported for one claimed ticket.
#[derive(Clone, Copy, PartialEq, Eq, Structural, Debug)]
pub struct TicketWithdrawal {
    pub to_vault_supported_token_amount: u64,
    pub unrestaked_receipt_token_amount: u64,
    pub claimed_supported_token_amount: u64,
    pub deducted_program_fee_receipt_token_amount: u64,
    pub deducted_vault_fee_receipt_token_amount: u64,
    /// The fund reserve's lamports after the claim.
    pub fund_reserve_lamports: u64,
}

/// The totals over the claimed tickets.
#[derive(Clone, Copy, PartialEq, Eq, Structural, Debug)]
pub struct WithdrawalTotals {
    pub claimed_supported_token_amount: u64,
    pub unrestaked_receipt_token_amount: u64,
    pub deducted_receipt_token_fee_amount: u64,
    /// The supported token balance the vault reported after the last claim (0 when none).
    pub last_to_vault_supported_token_amount: u64,
}

/// The totals of the claimed tickets, and the balance reported after the last one.
pub open spec fn spec_totals(ws: Seq<TicketWithdrawal>) -> WithdrawalTotals
    decreases ws.len(),
{
    if ws.len() == 0 {
        WithdrawalTotals {
            claimed_supported_token_amount: 0,
            unrestaked_receipt_token_amount: 0,
            deducted_receipt_token_fee_amount: 0,
            last_to_vault_supported_token_amount: 0,
        }
    } else {
        let p = spec_totals(ws.drop_last());
        let w = ws.last();
        WithdrawalTotals {
            claimed_supported_token_amount: (p.claimed_supported_token_amount + w.claimed_supported_token_amount) as u64,
            unrestaked_receipt_token_amount: (p.unrestaked_receipt_token_amount + w.unrestaked_receipt_token_amount) as u64,
            deducted_receipt_token_fee_amount: (p.deducted_receipt_token_fee_amount
                + w.deducted_program_fee_receipt_token_amount + w.deducted_vault_fee_receipt_token_amount) as u64,
            last_to_vault_supported_token_amount: w.to_vault_supported_token_amount,
        }
    }
}

/// The running totals never exceed 64 bits.
pub open spec fn totals_fit(ws: Seq<TicketWithdrawal>) -> bool
    decreases ws.len(),
{
    if ws.len() == 0 {
        true
    } else {
        let p = spec_totals(ws.drop_last());
        let w = ws.last();
        &&& totals_fit(ws.drop_last())
        &&& p.claimed_supported_token_amount + w.claimed_supported_token_amount <= u64::MAX
        &&& p.unrestaked_receipt_token_amount + w.unrestaked_receipt_token_amount <= u64::MAX
        &&& w.deducted_program_fee_receipt_token_amount + w.deducted_vault_fee_receipt_token_amount <= u64::MAX
        &&& p.deducted_receipt_token_fee_amount + w.deducted_program_fee_receipt_token_amount
                + w.deducted_vault_fee_receipt_token_amount <= u64::MAX
    }
}

proof fn lemma_totals_fit_prefix(ws: Seq<TicketWithdrawal>, k: int)
    requires
        totals_fit(ws),
        0 <= k <= ws.len(),
    ensures
        totals_fit(ws.take(k)),
    decreases ws.len() - k,
{
    if k < ws.len() {
        lemma_totals_fit_prefix(ws, k + 1);
        assert(ws.take(k + 1).drop_last() =~= ws.take(k));
    } else {
        assert(ws.take(k) =~= ws);
    }
}

/// Adds up the claimed tickets; refused as soon as the fund reserve holds
/// fewer lamports than the fund's total reserved SOL after a claim.
pub fn sum_withdrawals(ws: &Vec<TicketWithdrawal>, sol_total_reserved_amount: u64) -> (r: Result<WithdrawalTotals, ErrorCode>)
    requires
        totals_fit(ws@),
    ensures
        (forall|i: int| 0 <= i < ws.len() ==> #[trigger] ws@[i].fund_reserve_lamports >= sol_total_reserved_amount)
            ==> r == Ok::<WithdrawalTotals, ErrorCode>(spec_totals(ws@)),
        !(forall|i: int| 0 <= i < ws.len() ==> #[trigger] ws@[i].fund_reserve_lamports >= sol_total_reserved_amount)
            ==> r == Err::<WithdrawalTotals, ErrorCode>(ErrorCode::RequireGteViolated),
{
    let mut t = WithdrawalTotals {
        claimed_supported_token_amount: 0,
        unrestaked_receipt_token_amount: 0,
        deducted_receipt_token_fee_amount: 0,
        last_to_vault_supported_token_amount: 0,
    };
    let mut i: usize = 0;
    while i < ws.len()
        invariant
            i <= ws.len(),
            totals_fit(ws@),
            t == spec_totals(ws@.take(i as int)),
            forall|j: int| 0 <= j < i ==> #[trigger] ws@[j].fund_reserve_lamports >= sol_total_reserved_amount,
        decreases ws.len() - i,
    {
        let w = ws[i];
        proof {
            assert(ws@.take(i as int + 1).drop_last() =~= ws@.take(i as int));
            lemma_totals_fit_prefix(ws@, i as int + 1);
        }
        if w.fund_reserve_lamports < sol_total_reserved_amount {
            return Err(ErrorCode::RequireGteViolated);
        }
        t = WithdrawalTotals {
            claimed_supported_token_amount: t.claimed_supported_token_amount + w.claimed_supported_token_amount,
            unrestaked_receipt_token_amount: t.unrestaked_receipt_token_amount + w.unrestaked_receipt_token_amount,
            deducted_receipt_token_fee_amount: t.deducted_receipt_token_fee_amount
                + (w.deducted_program_fee_receipt_token_amount + w.deducted_vault_fee_receipt_token_amount),
            last_to_vault_supported_token_amount: w.to_vault_supported_token_amount,
        };
        i += 1;
    }
    assert(ws@.take(ws.len() as int) =~= ws@);
    Ok(t)
}

/// The fund's bookkeeping that a Jito claim changes.
#[derive(Clone, Copy, PartialEq, Eq, Structural, Debug)]
pub struct ClaimBook {
    pub vault_receipt_token_operation_receivable_amount: u64,
    /// Operation-reserved amount of the claimed token (the normalized token or the supported token).
    pub token_operation_reserved_amount: u64,
    pub token_operation_receivable_amount: u64,
    pub sol_operation_receivable_amount: u64,
}

/// The fee, priced for the bookkeeping of the claimed token.
#[derive(Clone, Copy, PartialEq, Eq, Structural, Debug)]
pub struct ClaimFeePrices {
    /// The deducted receipt tokens as lamports (for the normalized token).
    pub fee_as_sol: u64,
    /// The deducted receipt tokens as the supported token (for a supported token).
    pub fee_as_supported_token: u64,
}

/// The bookkeeping after a Jito claim.
pub open spec fn spec_apply_jito_claim(book: ClaimBook, t: WithdrawalTotals, is_normalized_token: bool, prices: ClaimFeePrices) -> ClaimBook {
    ClaimBook {
        vault_receipt_token_operation_receivable_amount:
            (book.vault_receipt_token_operation_receivable_amount - t.unrestaked_receipt_token_amount) as u64,
        token_operation_reserved_amount: (book.token_operation_reserved_amount + t.claimed_supported_token_amount) as u64,
        token_operation_receivable_amount: if is_normalized_token {
            book.token_operation_receivable_amount
        } else {
            (book.token_operation_receivable_amount + prices.fee_as_supported_token) as u64
        },
        sol_operation_receivable_amount: if is_normalized_token {
            (book.sol_operation_receivable_amount + prices.fee_as_sol) as u64
        } else {
            book.sol_operation_receivable_amount
        },
    }
}

/// The Jito claim's bookkeeping: the unrestaked receipt tokens are no longer
/// receivable, the claimed tokens join the reserve, and the fee becomes
/// receivable (as SOL for the normalized token, as the supported token
/// otherwise). Refused when the vault's reported balance is below the new reserve.
pub fn apply_jito_claim(book: ClaimBook, t: WithdrawalTotals, is_normalized_token: bool, prices: ClaimFeePrices)
    -> (r: Result<ClaimBook, ErrorCode>)
    requires
        t.unrestaked_receipt_token_amount <= book.vault_receipt_token_operation_receivable_amount,
        book.token_operation_reserved_amount + t.claimed_supported_token_amount <= u64::MAX,
        book.token_operation_receivable_amount + prices.fee_as_supported_token <= u64::MAX,
        book.sol_operation_receivable_amount + prices.fee_as_sol <= u64::MAX,
    ensures
        ({
            let nb = spec_apply_jito_claim(book, t, is_normalized_token, prices);
            &&& t.last_to_vault_supported_token_amount >= nb.token_operation_reserved_amount ==> r == Ok::<ClaimBook, ErrorCode>(nb)
            &&& t.last_to_vault_supported_token_amount < nb.token_operation_reserved_amount ==>
                r == Err::<ClaimBook, ErrorCode>(ErrorCode::RequireGteViolated)
        }),
        r matches Ok(nb) ==> {
            &&& nb.vault_receipt_token_operation_receivable_amount + t.unrestaked_receipt_token_amount
                == book.vault_receipt_token_operation_receivable_amount
            &&& nb.token_operation_reserved_amount == book.token_operation_reserved_amount + t.claimed_supported_token_amount
            &&& is_normalized_token ==> nb.sol_operation_receivable_amount == book.sol_operation_receivable_amount + prices.fee_as_sol
                && nb.token_operation_receivable_amount == book.token_operation_receivable_amount
            &&& !is_normalized_token ==> nb.token_operation_receivable_amount
                == book.token_operation_receivable_amount + prices.fee_as_supported_token
                && nb.sol_operation_receivable_amount == book.sol_operation_receivable_amount
            &&& t.last_to_vault_supported_token_amount >= nb.token_operation_reserved_amount
        },
{
    let mut nb = book;
    nb.vault_receipt_token_operation_receivable_amount =
        book.vault_receipt_token_operation_receivable_amount - t.unrestaked_receipt_token_amount;
    nb.token_operation_reserved_amount = book.token_operation_reserved_amount + t.claimed_supported_token_amount;
    if is_normalized_token {
        nb.sol_operation_receivable_amount = book.sol_operation_receivable_amount + prices.fee_as_sol;
    } else {
        nb.token_operation_receivable_amount = book.token_operation_receivable_amount + prices.fee_as_supported_token;
    }
    if t.last_to_vault_supported_token_amount < nb.token_operation_reserved_amount {
        return Err(ErrorCode::RequireGteViolated);
    }
    Ok(nb)
}

/// A claim keeps the receipt tokens accounted for: what the vault still owes
/// plus what it just unrestaked is what it owed before.
pub proof fn lemma_claim_conserves_receivable(book: ClaimBook, t: WithdrawalTotals, is_normalized_token: bool, prices: ClaimFeePrices)
    requires
        t.unrestaked_receipt_token_amount <= book.vault_receipt_token_operation_receivable_amount,
    ensures
        spec_apply_jito_claim(book, t, is_normalized_token, prices).vault_receipt_token_operation_receivable_amount
            + t.unrestaked_receipt_token_amount == book.vault_receipt_token_operation_receivable_amount,
{
}

/// A claim's fee, deducted from the unrestaked receipt tokens, becomes
/// receivable: in SOL for the normalized token, in the supported token
/// otherwise, the other receivable untouched; the claimed tokens join the
/// token's reserve.
pub proof fn lemma_claim_fee_becomes_receivable(book: ClaimBook, t: WithdrawalTotals, is_normalized_token: bool, prices: ClaimFeePrices)
    requires
        book.token_operation_reserved_amount + t.claimed_supported_token_amount <= u64::MAX,
        book.token_operation_receivable_amount + prices.fee_as_supported_token <= u64::MAX,
        book.sol_operation_receivable_amount + prices.fee_as_sol <= u64::MAX,
    ensures
        ({
            let nb = spec_apply_jito_claim(book, t, is_normalized_token, prices);
            &&& nb.token_operation_reserved_amount == book.token_operation_reserved_amount + t.claimed_supported_token_amount
            &&& is_normalized_token ==> nb.sol_operation_receivable_amount == book.sol_operation_receivable_amount + prices.fee_as_sol
                && nb.token_operation_receivable_amount == book.token_operation_receivable_amount
            &&& !is_normalized_token ==> nb.token_operation_receivable_amount
                == book.token_operation_receivable_amount + prices.fee_as_supported_token
                && nb.sol_operation_receivable_amount == book.sol_operation_receivable_amount
        }),
{
}

/// The result of a Jito claim: none when no ticket was claimable; otherwise
/// the claimed totals, what the vault still owes (`book.vault_receipt_token_operation_receivable_amount`
/// after the claim), the claimed token's reserved amount after the claim, and
/// its receivable amount (`operation_receivable_supported_token_amount`: for
/// the normalized token, the fund's SOL receivable valued in that token). A
/// Jito claim transfers no revenue and offsets no receivable.
pub fn jito_claim_result(
    vault: Pubkey,
    receipt_token_mint: Pubkey,
    supported_token_mint: Pubkey,
    num_claimable_tickets: usize,
    t: WithdrawalTotals,
    book: ClaimBook,
    operation_receivable_supported_token_amount: u64,
) -> (r: Option<ClaimUnrestakedVSTCommandResult>)
    ensures
        num_claimable_tickets == 0 ==> r is None,
        num_claimable_tickets > 0 ==> (r matches Some(res)
            && res.vault == vault
            && res.receipt_token_mint == receipt_token_mint
            && res.total_unrestaking_receipt_token_amount == book.vault_receipt_token_operation_receivable_amount
            && res.unrestaked_receipt_token_amount == t.unrestaked_receipt_token_amount
            && res.deducted_receipt_token_fee_amount == t.deducted_receipt_token_fee_amount
            && res.supported_token_mint == supported_token_mint
            && res.claimed_supported_token_amount == t.claimed_supported_token_amount
            && res.transferred_supported_token_revenue_amount == 0
            && res.offsetted_supported_token_receivable_amount == 0
            && res.offsetted_asset_receivables@ == Seq::<ClaimUnrestakedVSTCommandResultAssetReceivable>::empty()
            && res.operation_reserved_supported_token_amount == book.token_operation_reserved_amount
            && res.operation_receivable_supported_token_amount == operation_receivable_supported_token_amount),
{
    if num_claimable_tickets == 0 {
        return None;
    }
    Some(ClaimUnrestakedVSTCommandResult {
        vault,
        receipt_token_mint,
        total_unrestaking_receipt_token_amount: book.vault_receipt_token_operation_receivable_amount,
        unrestaked_receipt_token_amount: t.unrestaked_receipt_token_amount,
        deducted_receipt_token_fee_amount: t.deducted_receipt_token_fee_amount,
        supported_token_mint,
        claimed_supported_token_amount: t.claimed_supported_token_amount,
        transferred_supported_token_revenue_amount: 0,
        offsetted_supported_token_receivable_amount: 0,
        offsetted_asset_receivables: Vec::new(),
        operation_reserved_supported_token_amount: book.token_operation_reserved_amount,
        operation_receivable_supported_token_amount,
    })
}

/// A Solv claim that unrestaked nothing produces no result.
pub fn solv_claim_has_result(unrestaked_receipt_token_amount: u64) -> (r: bool)
    ensures
        r == (unrestaked_receipt_token_amount != 0),
{
    unrestaked_receipt_token_amount != 0
}

} // verus!
