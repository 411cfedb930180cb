use vstd::prelude::*;
use crate::errors::ErrorCode;
use crate::iteration::keys_match_from;
use crate::math::div_ceil_2;
use crate::operation_command::OperationCommandAccountMeta;
use crate::pricing::TokenPricingSource;
use crate::programs::{associated_token_address, associated_token_address_found, associated_token_program_id, get_associated_token_address_with_program_id};
use crate::pubkey::Pubkey;

verus! {

/// Where the withdrawal processing command stands. An asset is `None` for SOL
/// and the token's mint otherwise.
#[derive(Clone, Copy, PartialEq, Eq, Structural, Debug)]
pub enum ProcessWithdrawalBatchCommandState {
    /// Looks for the first asset with pending withdrawals.
    New,
    /// Gathers the accounts to process the asset's withdrawal batches.
    Prepare { asset_token_mint: Option<Pubkey> },
    /// Processes the asset's withdrawal batches, then moves on to the next asset.
    Execute { asset_token_mint: Option<Pubkey>, num_processing_batches: u8, receipt_token_amount: u64 },
}

/// Processes the queued withdrawal batches of each asset.
#[derive(Clone, Copy, PartialEq, Eq, Structural, Debug)]
pub struct ProcessWithdrawalBatchCommand {
    pub state: ProcessWithdrawalBatchCommandState,
    pub forced: bool,
}

impl Default for ProcessWithdrawalBatchCommand {
    fn default() -> (r: Self)
        ensures
            r.state is New,
            !r.forced,
    {
        ProcessWithdrawalBatchCommand { state: ProcessWithdrawalBatchCommandState::New, forced: false }
    }
}

/// An asset receivable offset while processing.
#[derive(Clone, Copy, PartialEq, Eq, Structural, Debug)]
pub struct ProcessWithdrawalBatchCommandResultAssetReceivable {
    pub asset_token_mint: Option<Pubkey>,
    pub asset_amount: u64,
}

/// What processing did.
#[derive(Clone, Debug)]
pub struct ProcessWithdrawalBatchCommandResult {
    pub requested_receipt_token_amount: u64,
    pub processed_receipt_token_amount: u64,
    pub asset_token_mint: Option<Pubkey>,
    pub reserved_asset_user_amount: u64,
    pub deducted_asset_fee_amount: u64,
    pub offsetted_asset_receivables: Vec<ProcessWithdrawalBatchCommandResultAssetReceivable>,
    pub transferred_asset_revenue_amount: u64,
    pub withdrawal_fee_rate_bps: u16,
}

/// The asset the command handles now: none for `New`, the state's asset otherwise.
pub open spec fn spec_current_asset(state: ProcessWithdrawalBatchCommandState) -> Option<Option<Pubkey>> {
    match state {
        ProcessWithdrawalBatchCommandState::New => None,
        ProcessWithdrawalBatchCommandState::Prepare { asset_token_mint } => Some(asset_token_mint),
        ProcessWithdrawalBatchCommandState::Execute { asset_token_mint, .. } => Some(asset_token_mint),
    }
}

/// `i` is the first position of `a` among the assets.
pub open spec fn is_first_asset_index(s: Seq<Option<Pubkey>>, a: Option<Pubkey>, i: int) -> bool {
    &&& 0 <= i < s.len()
    &&& s[i] == a
    &&& forall|j: int| 0 <= j < i ==> s[j] != a
}

/// The next asset with pending withdrawals: the first one when there is no
/// current asset or the current one no longer has any; the one right after
/// the current one otherwise (none after the last).
pub open spec fn spec_next_asset(targets: Seq<Option<Pubkey>>, current: Option<Option<Pubkey>>) -> Option<Option<Pubkey>> {
    match current {
        Some(c) if exists|i: int| is_first_asset_index(targets, c, i) => {
            let i = choose|i: int| is_first_asset_index(targets, c, i);
            if i + 1 < targets.len() { Some(targets[i + 1]) } else { None }
        },
        _ => if targets.len() > 0 { Some(targets[0]) } else { None },
    }
}

impl ProcessWithdrawalBatchCommand {
    /// Chooses the next asset to process among those with pending withdrawals
    /// (`targets`, in the fund's order); none means staking comes next.
    pub fn next_asset(targets: &Vec<Option<Pubkey>>, state: ProcessWithdrawalBatchCommandState) -> (r: Option<Option<Pubkey>>)
        ensures
            r == spec_next_asset(targets@, spec_current_asset(state)),
    {
        let current = match state {
            ProcessWithdrawalBatchCommandState::New => None,
            ProcessWithdrawalBatchCommandState::Prepare { asset_token_mint } => Some(asset_token_mint),
            ProcessWithdrawalBatchCommandState::Execute { asset_token_mint, .. } => Some(asset_token_mint),
        };
        let first = if targets.len() > 0 { Some(targets[0]) } else { None };
        match current {
            None => first,
            Some(c) => {
                let mut i: usize = 0;
                while i < targets.len()
                    invariant
                        i <= targets.len(),
                        current == Some(c),
                        current == spec_current_asset(state),
                        first == (if targets.len() > 0 { Some(targets@[0]) } else { None }),
                        forall|j: int| 0 <= j < i ==> targets@[j] != c,
                    decreases targets.len() - i,
                {
                    if targets[i] == c {
                        proof {
                            assert(is_first_asset_index(targets@, c, i as int));
                            let k = choose|k: int| is_first_asset_index(targets@, c, k);
                            if k < i as int {
                                assert(targets@[k] == c);
                            } else if k > i as int {
                                assert(targets@[i as int] == c);
                            }
                        }
                        if i + 1 < targets.len() {
                            return Some(targets[i + 1]);
                        } else {
                            return None;
                        }
                    }
                    i += 1;
                }
                first
            },
        }
    }

    /// Hands over to the `Prepare` step of the next asset, or to staking (none).
    pub fn next_command(next_asset: Option<Option<Pubkey>>) -> (r: Option<ProcessWithdrawalBatchCommand>)
        ensures
            next_asset is None ==> r is None,
            next_asset matches Some(a) ==> r == Some(ProcessWithdrawalBatchCommand {
                state: ProcessWithdrawalBatchCommandState::Prepare { asset_token_mint: a },
                forced: false,
            }),
    {
        match next_asset {
            None => None,
            Some(a) => Some(ProcessWithdrawalBatchCommand {
                state: ProcessWithdrawalBatchCommandState::Prepare { asset_token_mint: a },
                forced: false,
            }),
        }
    }

    /// The `Prepare` step moves on to `Execute` for the same asset, with the
    /// number of batches to process and the receipt tokens requested.
    pub fn prepare(asset_token_mint: Option<Pubkey>, num_processing_batches: u8, requested_receipt_token_amount: u64)
        -> (r: ProcessWithdrawalBatchCommand)
        ensures
            r == (ProcessWithdrawalBatchCommand {
                state: ProcessWithdrawalBatchCommandState::Execute {
                    asset_token_mint,
                    num_processing_batches,
                    receipt_token_amount: requested_receipt_token_amount,
                },
                forced: false,
            }),
    {
        ProcessWithdrawalBatchCommand {
            state: ProcessWithdrawalBatchCommandState::Execute {
                asset_token_mint,
                num_processing_batches,
                receipt_token_amount: requested_receipt_token_amount,
            },
            forced: false,
        }
    }
}

/// A supported token whose pool publishes a cycle fee: Marinade, SPL and
/// single-validator Sanctum pools.
pub open spec fn has_lst_cycle_fee(s: Option<TokenPricingSource>) -> bool {
    match s {
        Some(TokenPricingSource::MarinadeStakePool { .. }) => true,
        Some(TokenPricingSource::SPLStakePool { .. }) => true,
        Some(TokenPricingSource::SanctumSingleValidatorSPLStakePool { .. }) => true,
        _ => false,
    }
}

/// The pool address of a liquid staking token.
pub open spec fn lst_pool_address(s: Option<TokenPricingSource>) -> Pubkey {
    match s {
        Some(TokenPricingSource::MarinadeStakePool { address }) => address,
        Some(TokenPricingSource::SPLStakePool { address }) => address,
        Some(TokenPricingSource::SanctumSingleValidatorSPLStakePool { address }) => address,
        _ => Pubkey::spec_zero(),
    }
}

/// The vault address of a vault receipt token.
pub open spec fn vrt_vault_address(s: Option<TokenPricingSource>) -> Pubkey {
    match s {
        Some(TokenPricingSource::JitoRestakingVault { address }) => address,
        _ => Pubkey::spec_zero(),
    }
}

/// The pool account of a liquid staking token, read only.
pub open spec fn lst_pool_meta(s: Option<TokenPricingSource>) -> OperationCommandAccountMeta {
    OperationCommandAccountMeta { pubkey: lst_pool_address(s), is_writable: false }
}

/// The vault account of a vault receipt token, read only.
pub open spec fn vrt_vault_meta(s: Option<TokenPricingSource>) -> OperationCommandAccountMeta {
    OperationCommandAccountMeta { pubkey: vrt_vault_address(s), is_writable: false }
}

/// A Jito vault receipt token.
pub open spec fn is_jito_vault(s: Option<TokenPricingSource>) -> bool {
    s matches Some(TokenPricingSource::JitoRestakingVault { .. })
}

/// The accounts the `Execute` step needs, as the `Prepare` step lists them:
/// the program revenue account, then (for a token asset) its revenue token
/// account and the associated token program, or two zero placeholders (for
/// SOL), then the accounts to process the batches, then the pool of each
/// supported token and the vault of each restaking vault (to read cycle fees).
pub open spec fn spec_prepare_accounts(
    program_revenue: Pubkey,
    asset: Option<(Pubkey, Pubkey)>,
    batch_accounts: Seq<OperationCommandAccountMeta>,
    supported_sources: Seq<Option<TokenPricingSource>>,
    vault_sources: Seq<Option<TokenPricingSource>>,
) -> Seq<OperationCommandAccountMeta> {
    let head = seq![
        OperationCommandAccountMeta { pubkey: program_revenue, is_writable: true },
        match asset {
            Some((mint, program)) => OperationCommandAccountMeta {
                pubkey: associated_token_address(program_revenue, mint, program),
                is_writable: true,
            },
            None => OperationCommandAccountMeta { pubkey: Pubkey::spec_zero(), is_writable: false },
        },
        match asset {
            Some(_) => OperationCommandAccountMeta {
                pubkey: Pubkey { w0: 0xf189244e8f25978c, w1: 0x830d8e1429103dbb, w2: 0x8410ffda99135a0b, w3: 0x59f8e9dbd87b8e04 },
                is_writable: false,
            },
            None => OperationCommandAccountMeta { pubkey: Pubkey::spec_zero(), is_writable: false },
        },
    ];
    head + batch_accounts
        + supported_sources.map_values(|s: Option<TokenPricingSource>| lst_pool_meta(s))
        + vault_sources.map_values(|s: Option<TokenPricingSource>| vrt_vault_meta(s))
}

/// The `Prepare` step's account list; refused when a supported token has no
/// pool cycle fee or a restaking vault is not a Jito vault, or when the
/// revenue token account of a token asset cannot be derived.
pub fn prepare_accounts(
    program_revenue: Pubkey,
    asset: Option<(Pubkey, Pubkey)>,
    batch_accounts: Vec<OperationCommandAccountMeta>,
    supported_sources: &Vec<Option<TokenPricingSource>>,
    vault_sources: &Vec<Option<TokenPricingSource>>,
) -> (r: Result<Vec<OperationCommandAccountMeta>, ErrorCode>)
    ensures
        ({
            let well_configured = (forall|i: int| 0 <= i < supported_sources.len() ==> has_lst_cycle_fee(#[trigger] supported_sources@[i]))
                && (forall|i: int| 0 <= i < vault_sources.len() ==> is_jito_vault(#[trigger] vault_sources@[i]));
            let not_derived = asset matches Some((mint, program)) && !associated_token_address_found(program_revenue, mint, program);
            &&& not_derived ==> r == Err::<Vec<OperationCommandAccountMeta>, ErrorCode>(ErrorCode::ProgramAddressNotFound)
            &&& !not_derived && !well_configured ==>
                r == Err::<Vec<OperationCommandAccountMeta>, ErrorCode>(ErrorCode::FundOperationCommandExecutionFailedException)
            &&& !not_derived && well_configured ==> (r matches Ok(accounts)
                && accounts@ == spec_prepare_accounts(program_revenue, asset, batch_accounts@, supported_sources@, vault_sources@))
        }),
{
    let mut accounts: Vec<OperationCommandAccountMeta> = Vec::new();
    accounts.push(OperationCommandAccountMeta { pubkey: program_revenue, is_writable: true });
    match asset {
        Some((mint, program)) => {
            let ata = match get_associated_token_address_with_program_id(&program_revenue, &mint, &program) {
                Some(a) => a,
                None => return Err(ErrorCode::ProgramAddressNotFound),
            };
            accounts.push(OperationCommandAccountMeta { pubkey: ata, is_writable: true });
            let ata_program = associated_token_program_id();
            accounts.push(OperationCommandAccountMeta { pubkey: ata_program, is_writable: false });
        },
        None => {
            accounts.push(OperationCommandAccountMeta { pubkey: Pubkey::zero(), is_writable: false });
            accounts.push(OperationCommandAccountMeta { pubkey: Pubkey::zero(), is_writable: false });
        },
    }
    let ghost head = accounts@;
    let mut i: usize = 0;
    while i < batch_accounts.len()
        invariant
            i <= batch_accounts.len(),
            !(asset matches Some((mint, program)) && !associated_token_address_found(program_revenue, mint, program)),
            accounts@ == head + batch_accounts@.take(i as int),
        decreases batch_accounts.len() - i,
    {
        accounts.push(batch_accounts[i]);
        i += 1;
        assert(accounts@ =~= head + batch_accounts@.take(i as int));
    }
    assert(batch_accounts@.take(batch_accounts.len() as int) =~= batch_accounts@);
    let ghost mid = accounts@;
    let mut i: usize = 0;
    while i < supported_sources.len()
        invariant
            i <= supported_sources.len(),
            !(asset matches Some((mint, program)) && !associated_token_address_found(program_revenue, mint, program)),
            accounts@ == mid + supported_sources@.take(i as int).map_values(|s: Option<TokenPricingSource>| lst_pool_meta(s)),
            forall|j: int| 0 <= j < i ==> has_lst_cycle_fee(#[trigger] supported_sources@[j]),
        decreases supported_sources.len() - i,
    {
        let address = match supported_sources[i] {
            Some(TokenPricingSource::MarinadeStakePool { address })
            | Some(TokenPricingSource::SPLStakePool { address })
            | Some(TokenPricingSource::SanctumSingleValidatorSPLStakePool { address }) => address,
            _ => return Err(ErrorCode::FundOperationCommandExecutionFailedException),
        };
        assert(lst_pool_meta(supported_sources@[i as int]) == OperationCommandAccountMeta { pubkey: address, is_writable: false });
        assert(supported_sources@.take(i as int + 1) =~= supported_sources@.take(i as int).push(supported_sources@[i as int]));
        accounts.push(OperationCommandAccountMeta { pubkey: address, is_writable: false });
        i += 1;
        assert(accounts@ =~= mid + supported_sources@.take(i as int).map_values(|s: Option<TokenPricingSource>| lst_pool_meta(s)));
    }
    assert(supported_sources@.take(supported_sources.len() as int) =~= supported_sources@);
    let ghost mid2 = accounts@;
    let mut i: usize = 0;
    while i < vault_sources.len()
        invariant
            i <= vault_sources.len(),
            !(asset matches Some((mint, program)) && !associated_token_address_found(program_revenue, mint, program)),
            accounts@ == mid2 + vault_sources@.take(i as int).map_values(|s: Option<TokenPricingSource>| vrt_vault_meta(s)),
            forall|j: int| 0 <= j < i ==> is_jito_vault(#[trigger] vault_sources@[j]),
        decreases vault_sources.len() - i,
    {
        let address = match vault_sources[i] {
            Some(TokenPricingSource::JitoRestakingVault { address }) => address,
            _ => return Err(ErrorCode::FundOperationCommandExecutionFailedException),
        };
        assert(vrt_vault_meta(vault_sources@[i as int]) == OperationCommandAccountMeta { pubkey: address, is_writable: false });
        assert(vault_sources@.take(i as int + 1) =~= vault_sources@.take(i as int).push(vault_sources@[i as int]));
        accounts.push(OperationCommandAccountMeta { pubkey: address, is_writable: false });
        i += 1;
        assert(accounts@ =~= mid2 + vault_sources@.take(i as int).map_values(|s: Option<TokenPricingSource>| vrt_vault_meta(s)));
    }
    assert(vault_sources@.take(vault_sources.len() as int) =~= vault_sources@);
    assert(accounts@ =~= spec_prepare_accounts(program_revenue, asset, batch_accounts@, supported_sources@, vault_sources@));
    Ok(accounts)
}

/// How the `Execute` step splits the accounts after its eleven fixed ones:
/// the uninitialized withdrawal batch accounts, the supported tokens' pools,
/// the restaking vaults, then the pricing sources. Refused when too few were
/// handed over.
pub fn split_execute_accounts(num_remaining: usize, num_processing_batches: u8, num_supported_tokens: usize, num_restaking_vaults: usize)
    -> (r: Result<(usize, usize, usize), ErrorCode>)
    ensures
        num_remaining < num_processing_batches + num_supported_tokens + num_restaking_vaults ==>
            r == Err::<(usize, usize, usize), ErrorCode>(ErrorCode::AccountNotEnoughKeys),
        num_remaining >= num_processing_batches + num_supported_tokens + num_restaking_vaults ==>
            r == Ok::<(usize, usize, usize), ErrorCode>((
                num_processing_batches as usize,
                (num_processing_batches + num_supported_tokens) as usize,
                (num_processing_batches + num_supported_tokens + num_restaking_vaults) as usize,
            )),
{
    let b = num_processing_batches as usize;
    if num_supported_tokens > num_remaining || num_restaking_vaults > num_remaining - num_supported_tokens
        || b > num_remaining - num_supported_tokens - num_restaking_vaults {
        return Err(ErrorCode::AccountNotEnoughKeys);
    }
    Ok((b, b + num_supported_tokens, b + num_supported_tokens + num_restaking_vaults))
}

/// The pool addresses of the supported tokens, when each has a pool cycle fee.
fn lst_pool_addresses(supported_sources: &Vec<Option<TokenPricingSource>>) -> (r: Option<Vec<Pubkey>>)
    ensures
        (forall|i: int| 0 <= i < supported_sources.len() ==> has_lst_cycle_fee(#[trigger] supported_sources@[i]))
            ==> (r matches Some(keys) && keys@ == supported_sources@.map_values(|s: Option<TokenPricingSource>| lst_pool_address(s))),
        !(forall|i: int| 0 <= i < supported_sources.len() ==> has_lst_cycle_fee(#[trigger] supported_sources@[i])) ==> r is None,
{
    let mut keys: Vec<Pubkey> = Vec::new();
    let mut i: usize = 0;
    while i < supported_sources.len()
        invariant
            i <= supported_sources.len(),
            keys@ == supported_sources@.take(i as int).map_values(|s: Option<TokenPricingSource>| lst_pool_address(s)),
            forall|j: int| 0 <= j < i ==> has_lst_cycle_fee(#[trigger] supported_sources@[j]),
        decreases supported_sources.len() - i,
    {
        let address = match supported_sources[i] {
            Some(TokenPricingSource::MarinadeStakePool { address })
            | Some(TokenPricingSource::SPLStakePool { address })
            | Some(TokenPricingSource::SanctumSingleValidatorSPLStakePool { address }) => address,
            _ => return None,
        };
        keys.push(address);
        i += 1;
        assert(keys@ =~= supported_sources@.take(i as int).map_values(|s: Option<TokenPricingSource>| lst_pool_address(s)));
    }
    assert(supported_sources@.take(supported_sources.len() as int) =~= supported_sources@);
    Some(keys)
}

/// The vault addresses of the restaking vaults, when each is a Jito vault.
fn vrt_vault_addresses(vault_sources: &Vec<Option<TokenPricingSource>>) -> (r: Option<Vec<Pubkey>>)
    ensures
        (forall|i: int| 0 <= i < vault_sources.len() ==> is_jito_vault(#[trigger] vault_sources@[i]))
            ==> (r matches Some(keys) && keys@ == vault_sources@.map_values(|s: Option<TokenPricingSource>| vrt_vault_address(s))),
        !(forall|i: int| 0 <= i < vault_sources.len() ==> is_jito_vault(#[trigger] vault_sources@[i])) ==> r is None,
{
    let mut keys: Vec<Pubkey> = Vec::new();
    let mut i: usize = 0;
    while i < vault_sources.len()
        invariant
            i <= vault_sources.len(),
            keys@ == vault_sources@.take(i as int).map_values(|s: Option<TokenPricingSource>| vrt_vault_address(s)),
            forall|j: int| 0 <= j < i ==> is_jito_vault(#[trigger] vault_sources@[j]),
        decreases vault_sources.len() - i,
    {
        let address = match vault_sources[i] {
            Some(TokenPricingSource::JitoRestakingVault { address }) => address,
            _ => return None,
        };
        keys.push(address);
        i += 1;
        assert(keys@ =~= vault_sources@.take(i as int).map_values(|s: Option<TokenPricingSource>| vrt_vault_address(s)));
    }
    assert(vault_sources@.take(vault_sources.len() as int) =~= vault_sources@);
    Some(keys)
}

/// The account checks of the `Execute` step: eleven fixed accounts, then the
/// uninitialized withdrawal batch accounts, the pool of each supported token
/// and the vault of each restaking vault, in order, each at its address.
/// A supported token without a pool cycle fee, or a restaking vault that is
/// not a Jito vault, fails.
pub fn check_execute_accounts(
    account_keys: &Vec<Pubkey>,
    num_processing_batches: u8,
    supported_sources: &Vec<Option<TokenPricingSource>>,
    vault_sources: &Vec<Option<TokenPricingSource>>,
) -> (r: Result<(), ErrorCode>)
    ensures
        ({
            let b = num_processing_batches as int;
            let ns = supported_sources.len() as int;
            let nv = vault_sources.len() as int;
            r == (if account_keys.len() < 11 {
                Err(ErrorCode::AccountNotEnoughKeys)
            } else if !((forall|i: int| 0 <= i < ns ==> has_lst_cycle_fee(#[trigger] supported_sources@[i]))
                && (forall|i: int| 0 <= i < nv ==> is_jito_vault(#[trigger] vault_sources@[i]))) {
                Err(ErrorCode::FundOperationCommandExecutionFailedException)
            } else if account_keys.len() < 11 + b + ns + nv {
                Err(ErrorCode::AccountNotEnoughKeys)
            } else if account_keys@.subrange(11 + b, 11 + b + ns)
                    != supported_sources@.map_values(|s: Option<TokenPricingSource>| lst_pool_address(s))
                || account_keys@.subrange(11 + b + ns, 11 + b + ns + nv)
                    != vault_sources@.map_values(|s: Option<TokenPricingSource>| vrt_vault_address(s)) {
                Err(ErrorCode::RequireKeysEqViolated)
            } else {
                Ok(())
            })
        }),
{
    if account_keys.len() < 11 {
        return Err(ErrorCode::AccountNotEnoughKeys);
    }
    let lst_keys = match lst_pool_addresses(supported_sources) {
        Some(keys) => keys,
        None => return Err(ErrorCode::FundOperationCommandExecutionFailedException),
    };
    let vrt_keys = match vrt_vault_addresses(vault_sources) {
        Some(keys) => keys,
        None => return Err(ErrorCode::FundOperationCommandExecutionFailedException),
    };
    let (_, vault_offset, end) = match split_execute_accounts(account_keys.len() - 11, num_processing_batches,
        lst_keys.len(), vrt_keys.len()) {
        Ok(split) => split,
        Err(e) => return Err(e),
    };
    let lst_offset: usize = 11 + num_processing_batches as usize;
    assert(lst_keys@.take(lst_keys.len() as int) =~= lst_keys@);
    assert(vrt_keys@.take(vrt_keys.len() as int) =~= vrt_keys@);
    if !keys_match_from(account_keys, lst_offset, &lst_keys, lst_keys.len()) {
        return Err(ErrorCode::RequireKeysEqViolated);
    }
    if !keys_match_from(account_keys, 11 + vault_offset, &vrt_keys, vrt_keys.len()) {
        return Err(ErrorCode::RequireKeysEqViolated);
    }
    Ok(())
}

/// The denominator a cycle fee is read with: a zero denominator counts as one
/// (the fee rate is `numerator / max(denominator, 1)`).
pub open spec fn fee_denominator(d: u64) -> int {
    if d == 0 { 1 } else { d as int }
}

/// Whether cycle fee `a` is larger than cycle fee `b`, as fractions.
pub open spec fn fee_greater(a: (u64, u64), b: (u64, u64)) -> bool {
    a.0 * fee_denominator(b.1) > b.0 * fee_denominator(a.1)
}

/// The cycle fee kept after looking at the fees so far: a fee replaces the
/// kept one when it is larger (starting from no fee, `(0, 0)`), so the first
/// of the largest fees is kept.
pub open spec fn spec_max_cycle_fee(fees: Seq<(u64, u64)>) -> (u64, u64)
    decreases fees.len(),
{
    if fees.len() == 0 {
        (0, 0)
    } else {
        let kept = spec_max_cycle_fee(fees.drop_last());
        if fee_greater(fees.last(), kept) { fees.last() } else { kept }
    }
}

proof fn lemma_fee_order_transitive(a: (u64, u64), b: (u64, u64), c: (u64, u64))
    requires
        !fee_greater(a, b),
        !fee_greater(b, c),
    ensures
        !fee_greater(a, c),
{
    let (da, db, dc) = (fee_denominator(a.1), fee_denominator(b.1), fee_denominator(c.1));
    let (na, nb, nc) = (a.0 as int, b.0 as int, c.0 as int);
    assert(na * dc <= nc * da) by (nonlinear_arith)
        requires
            na * db <= nb * da,
            nb * dc <= nc * db,
            da > 0, db > 0, dc > 0,
            na >= 0, nb >= 0, nc >= 0,
    {
        assert(na * db * dc <= nb * da * dc);
        assert(nb * dc * da <= nc * db * da);
        assert(na * dc * db <= nc * da * db);
    }
}

/// The selected cycle fee is the largest: no fee in the list is larger, and it
/// is one of the fees (or no fee, `(0, 0)`, when the list is empty or every
/// fee is zero).
pub proof fn lemma_max_cycle_fee_is_largest(fees: Seq<(u64, u64)>)
    ensures
        forall|i: int| 0 <= i < fees.len() ==> !fee_greater(#[trigger] fees[i], spec_max_cycle_fee(fees)),
        spec_max_cycle_fee(fees) == (0u64, 0u64) || exists|i: int| 0 <= i < fees.len() && fees[i] == spec_max_cycle_fee(fees),
    decreases fees.len(),
{
    if fees.len() > 0 {
        let prev = fees.drop_last();
        lemma_max_cycle_fee_is_largest(prev);
        let kept = spec_max_cycle_fee(prev);
        let r = spec_max_cycle_fee(fees);
        assert forall|i: int| 0 <= i < fees.len() implies !fee_greater(#[trigger] fees[i], r) by {
            if i < fees.len() - 1 {
                assert(fees[i] == prev[i]);
                if fee_greater(fees.last(), kept) {
                    lemma_fee_order_transitive(fees[i], kept, fees.last());
                }
            }
        }
        if r != (0u64, 0u64) {
            if fee_greater(fees.last(), kept) {
                assert(fees[fees.len() - 1] == r);
            } else {
                let i = choose|i: int| 0 <= i < prev.len() && prev[i] == kept;
                assert(fees[i] == r);
            }
        }
    }
}

/// Selects the cycle fee (numerator, denominator) the fund uses to bound its
/// withdrawal fee: the largest of the pools' (or vaults') cycle fees, scanning
/// them in order; `(0, 0)` when there is none.
pub fn max_cycle_fee(fees: &Vec<(u64, u64)>) -> (r: (u64, u64))
    ensures
        r == spec_max_cycle_fee(fees@),
        forall|i: int| 0 <= i < fees.len() ==> !fee_greater(#[trigger] fees@[i], r),
        r == (0u64, 0u64) || exists|i: int| 0 <= i < fees.len() && fees@[i] == r,
{
    let mut kn: u64 = 0;
    let mut kd: u64 = 0;
    let mut i: usize = 0;
    while i < fees.len()
        invariant
            i <= fees.len(),
            (kn, kd) == spec_max_cycle_fee(fees@.take(i as int)),
        decreases fees.len() - i,
    {
        let (n, d) = fees[i];
        proof {
            assert(fees@.take(i as int + 1).drop_last() =~= fees@.take(i as int));
        }
        let d_read: u128 = if d == 0 { 1 } else { d as u128 };
        let kd_read: u128 = if kd == 0 { 1 } else { kd as u128 };
        assert((n as u128) * kd_read <= u64::MAX as u128 * u64::MAX as u128) by (nonlinear_arith)
            requires n <= u64::MAX, kd_read <= u64::MAX;
        assert((kn as u128) * d_read <= u64::MAX as u128 * u64::MAX as u128) by (nonlinear_arith)
            requires kn <= u64::MAX, d_read <= u64::MAX;
        if (n as u128) * kd_read > (kn as u128) * d_read {
            kn = n;
            kd = d;
        }
        i += 1;
    }
    assert(fees@.take(fees.len() as int) =~= fees@);
    proof { lemma_max_cycle_fee_is_largest(fees@); }
    (kn, kd)
}

/// How the deposit capacities grow after withdrawals of `processed_as_sol`
/// were processed: half of it (rounded down) goes to SOL when SOL is
/// depositable, and the rest is offered to the supported tokens' allocation
/// strategy, which places what it can (each token's capacity grows by what it
/// placed there); what it could not place goes to SOL as well. When SOL is
/// not depositable, all of it is offered to the tokens.
#[derive(Clone, Copy, PartialEq, Eq, Structural, Debug)]
pub struct CapacityIncrease {
    /// What the strategy placed with the supported tokens, in SOL.
    pub supported_token_increasing_capacity_as_sol: u64,
    /// SOL's capacity growth.
    pub sol_increasing_capacity: u64,
}

/// The part of the processed amount offered to the supported tokens.
pub open spec fn spec_offered_to_tokens(processed_as_sol: u64, sol_depositable: bool) -> int {
    if sol_depositable { (processed_as_sol + 1) / 2 } else { processed_as_sol as int }
}

/// The tokens' placed share and SOL's growth, given what the strategy could not place.
pub open spec fn spec_capacity_increase(processed_as_sol: u64, sol_depositable: bool, strategy_remaining: u64) -> CapacityIncrease {
    let tokens = spec_offered_to_tokens(processed_as_sol, sol_depositable) - strategy_remaining;
    CapacityIncrease {
        supported_token_increasing_capacity_as_sol: tokens as u64,
        sol_increasing_capacity: if sol_depositable { (processed_as_sol - tokens) as u64 } else { 0 },
    }
}

/// The amount to offer the supported tokens' allocation strategy: half the
/// processed amount (rounded up) when SOL is depositable, all of it otherwise.
pub fn capacity_offered_to_tokens(processed_as_sol: u64, sol_depositable: bool) -> (r: u64)
    ensures
        r == spec_offered_to_tokens(processed_as_sol, sol_depositable),
{
    if sol_depositable { div_ceil_2(processed_as_sol) } else { processed_as_sol }
}

/// Computes the tokens' placed share and SOL's capacity growth, given what
/// the strategy could not place of the amount offered to it.
pub fn capacity_increase(processed_as_sol: u64, sol_depositable: bool, strategy_remaining: u64) -> (r: CapacityIncrease)
    requires
        strategy_remaining <= spec_offered_to_tokens(processed_as_sol, sol_depositable),
    ensures
        r == spec_capacity_increase(processed_as_sol, sol_depositable, strategy_remaining),
{
    let base = capacity_offered_to_tokens(processed_as_sol, sol_depositable);
    let tokens = base - strategy_remaining;
    CapacityIncrease {
        supported_token_increasing_capacity_as_sol: tokens,
        sol_increasing_capacity: if sol_depositable { processed_as_sol - tokens } else { 0 },
    }
}

/// When SOL is depositable, the capacity added to SOL and to the supported
/// tokens together is exactly the processed amount: SOL gets at least half
/// (rounded down), and the tokens at most the other half (rounded up).
pub proof fn lemma_capacity_increase_splits(processed_as_sol: u64, strategy_remaining: u64)
    requires
        strategy_remaining <= spec_offered_to_tokens(processed_as_sol, true),
    ensures
        ({
            let c = spec_capacity_increase(processed_as_sol, true, strategy_remaining);
            &&& c.sol_increasing_capacity + c.supported_token_increasing_capacity_as_sol == processed_as_sol
            &&& c.sol_increasing_capacity >= processed_as_sol / 2
            &&& c.supported_token_increasing_capacity_as_sol <= (processed_as_sol + 1) / 2
            &&& c.sol_increasing_capacity == processed_as_sol / 2 + strategy_remaining
        }),
{
}

/// A capacity grown by `increase` (saturating at the largest amount).
pub fn grown_capacity(capacity: u64, increase: u64) -> (r: u64)
    ensures
        r == (if capacity + increase > u64::MAX { u64::MAX as int } else { capacity + increase }),
{
    capacity.saturating_add(increase)
}

/// A capacity grown by `increase`, saturating at the largest amount.
pub open spec fn spec_grown(capacity: u64, increase: u64) -> u64 {
    if capacity + increase > u64::MAX { u64::MAX } else { (capacity + increase) as u64 }
}

/// The deposit capacities after a batch of withdrawals of `processed_as_sol`
/// was processed: nothing changes when nothing was processed; otherwise each
/// supported token's capacity grows (saturating) by what the allocation
/// strategy placed with it, converted to the token (`placed_as_token[i]`),
/// and, when SOL is depositable, SOL's capacity grows by its share (half the
/// processed amount, rounded down, plus what the strategy could not place of
/// the amount offered to it). Returns SOL's capacity and the tokens'.
pub fn capacities_after_batch(processed_as_sol: u64, sol_depositable: bool, sol_capacity: u64,
    token_capacities: &Vec<u64>, placed_as_token: &Vec<u64>, strategy_remaining: u64)
    -> (r: (u64, Vec<u64>))
    requires
        token_capacities.len() == placed_as_token.len(),
        strategy_remaining <= spec_offered_to_tokens(processed_as_sol, sol_depositable),
    ensures
        processed_as_sol == 0 ==> r.0 == sol_capacity && r.1@ == token_capacities@,
        processed_as_sol > 0 ==> r.0 == (if sol_depositable {
            spec_grown(sol_capacity, spec_capacity_increase(processed_as_sol, true, strategy_remaining).sol_increasing_capacity)
        } else {
            sol_capacity
        }),
        processed_as_sol > 0 ==> r.1.len() == token_capacities.len()
            && forall|i: int| 0 <= i < token_capacities.len() ==>
                #[trigger] r.1@[i] == spec_grown(token_capacities@[i], placed_as_token@[i]),
{
    if processed_as_sol == 0 {
        return (sol_capacity, token_capacities.clone());
    }
    let increase = capacity_increase(processed_as_sol, sol_depositable, strategy_remaining);
    let mut tokens: Vec<u64> = Vec::new();
    let mut i: usize = 0;
    while i < token_capacities.len()
        invariant
            i <= token_capacities.len(),
            token_capacities.len() == placed_as_token.len(),
            tokens.len() == i,
            forall|j: int| 0 <= j < i ==> #[trigger] tokens@[j] == spec_grown(token_capacities@[j], placed_as_token@[j]),
        decreases token_capacities.len() - i,
    {
        tokens.push(grown_capacity(token_capacities[i], placed_as_token[i]));
        i += 1;
    }
    let sol = if sol_depositable { grown_capacity(sol_capacity, increase.sol_increasing_capacity) } else { sol_capacity };
    (sol, tokens)
}

} // verus!
