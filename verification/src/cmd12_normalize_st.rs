use vstd::prelude::*;
use crate::errors::ErrorCode;
use crate::iteration::skip_first;
use crate::pubkey::Pubkey;

verus! {

/// Normalizing less than one SOL's worth is not worth a deposit into the pool.
pub const NTP_MINIMUM_DEPOSIT_LAMPORTS: u64 = 1_000_000_000;

/// One normalization to make: `allocated_token_amount` of `supported_token_mint` into the pool.
#[derive(Clone, Copy, PartialEq, Eq, Structural, Debug)]
pub struct NormalizeSTCommandItem {
    pub supported_token_mint: Pubkey,
    pub allocated_token_amount: u64,
}

/// Where the normalization stands.
#[derive(Clone, Debug)]
pub enum NormalizeSTCommandState {
    New,
    Prepare { items: Vec<NormalizeSTCommandItem> },
    Execute { items: Vec<NormalizeSTCommandItem> },
}

/// Deposits supported tokens into the normalized token pool, for vaults that take the normalized token.
#[derive(Clone, Debug)]
pub struct NormalizeSTCommand {
    pub state: NormalizeSTCommandState,
}

impl Default for NormalizeSTCommand {
    fn default() -> (r: Self)
        ensures
            r.state is New,
    {
        NormalizeSTCommand { state: NormalizeSTCommandState::New }
    }
}

/// What one normalization did.
#[derive(Clone, Copy, PartialEq, Eq, Structural, Debug)]
pub struct NormalizeSTCommandResult {
    pub supported_token_mint: Pubkey,
    pub normalized_supported_token_amount: u64,
    pub minted_token_amount: u64,
    pub operation_reserved_token_amount: u64,
}

/// A supported token as the `New` step reads it.
#[derive(Clone, Debug)]
pub struct NormalizeCandidate {
    pub supported_token_mint: Pubkey,
    /// Whether the normalized token pool takes this token.
    pub pool_has_supported_token: bool,
    /// The token's restakable amount as SOL, as the token strategy left it.
    pub restakable_amount_as_sol: u64,
    /// Whether each vault the token could go to takes the normalized token, and the SOL the vault strategy put there.
    pub vault_shares: Vec<(bool, u64)>,
    /// The token's operation-reserved amount.
    pub operation_reserved_amount: u64,
    /// `normalized_share_as_sol` converted to the token, as the pricing computes it.
    pub normalized_share_as_token: u64,
}

/// The SOL the vault strategy put into vaults that take the normalized token.
pub open spec fn spec_normalized_share(shares: Seq<(bool, u64)>) -> int
    decreases shares.len(),
{
    if shares.len() == 0 {
        0
    } else {
        spec_normalized_share(shares.drop_last()) + if shares.last().0 { shares.last().1 as int } else { 0 }
    }
}

/// The `New` step's item for a token, if any: none unless the pool takes the
/// token, it has something to restake, and at least one SOL of it goes to
/// vaults that take the normalized token; then that share as the token, no
/// more than is reserved.
pub open spec fn spec_normalize_item(c: NormalizeCandidate) -> Option<NormalizeSTCommandItem> {
    if !c.pool_has_supported_token || c.restakable_amount_as_sol == 0 {
        None
    } else if spec_normalized_share(c.vault_shares@) >= NTP_MINIMUM_DEPOSIT_LAMPORTS {
        Some(NormalizeSTCommandItem {
            supported_token_mint: c.supported_token_mint,
            allocated_token_amount: if c.normalized_share_as_token < c.operation_reserved_amount {
                c.normalized_share_as_token
            } else {
                c.operation_reserved_amount
            },
        })
    } else {
        None
    }
}

/// A token is normalized only when the pool takes it, it has something to
/// restake and at least the minimum of its SOL goes to vaults that take the
/// normalized token; then exactly the smaller of that share (as the token) and
/// the token's reserve is normalized, never more than either.
pub proof fn lemma_normalize_item_is_the_smaller_share(c: NormalizeCandidate)
    ensures
        spec_normalize_item(c) is Some <==> c.pool_has_supported_token && c.restakable_amount_as_sol > 0
            && spec_normalized_share(c.vault_shares@) >= NTP_MINIMUM_DEPOSIT_LAMPORTS,
        spec_normalize_item(c) matches Some(it) ==> it.supported_token_mint == c.supported_token_mint
            && it.allocated_token_amount <= c.normalized_share_as_token
            && it.allocated_token_amount <= c.operation_reserved_amount
            && (it.allocated_token_amount == c.normalized_share_as_token
                || it.allocated_token_amount == c.operation_reserved_amount),
{
}

proof fn lemma_share_prefix(shares: Seq<(bool, u64)>, k: int)
    requires
        0 <= k <= shares.len(),
    ensures
        0 <= spec_normalized_share(shares.take(k)) <= spec_normalized_share(shares),
    decreases shares.len() - k,
{
    if k < shares.len() {
        lemma_share_prefix(shares, k + 1);
        assert(shares.take(k + 1).drop_last() =~= shares.take(k));
        lemma_share_nonneg(shares.take(k));
    } else {
        assert(shares.take(k) =~= shares);
        lemma_share_nonneg(shares);
    }
}

proof fn lemma_share_nonneg(shares: Seq<(bool, u64)>)
    ensures
        0 <= spec_normalized_share(shares),
    decreases shares.len(),
{
    if shares.len() > 0 {
        lemma_share_nonneg(shares.drop_last());
    }
}

impl NormalizeSTCommand {
    /// Nothing to normalize without a normalized token, or when no vault takes it.
    pub fn has_normalized_token_vault(normalized_token_mint: Option<Pubkey>, vault_supported_token_mints: &Vec<Pubkey>) -> (r: bool)
        ensures
            r == (normalized_token_mint matches Some(m)
                && exists|i: int| 0 <= i < vault_supported_token_mints.len() && vault_supported_token_mints@[i] == m),
    {
        match normalized_token_mint {
            None => false,
            Some(m) => {
                let mut i: usize = 0;
                while i < vault_supported_token_mints.len()
                    invariant
                        i <= vault_supported_token_mints.len(),
                        normalized_token_mint == Some(m),
                        forall|j: int| 0 <= j < i ==> vault_supported_token_mints@[j] != m,
                    decreases vault_supported_token_mints.len() - i,
                {
                    if vault_supported_token_mints[i] == m {
                        assert(vault_supported_token_mints@[i as int] == m);
                        return true;
                    }
                    i += 1;
                }
                false
            },
        }
    }

    /// The SOL put into vaults that take the normalized token.
    pub fn normalized_share(shares: &Vec<(bool, u64)>) -> (r: u64)
        requires
            spec_normalized_share(shares@) <= u64::MAX,
        ensures
            r == spec_normalized_share(shares@),
    {
        let mut t: u64 = 0;
        let mut i: usize = 0;
        while i < shares.len()
            invariant
                i <= shares.len(),
                spec_normalized_share(shares@) <= u64::MAX,
                t == spec_normalized_share(shares@.take(i as int)),
            decreases shares.len() - i,
        {
            assert(shares@.take(i as int + 1).drop_last() =~= shares@.take(i as int));
            proof { lemma_share_prefix(shares@, i as int + 1); }
            let (is_nt, amount) = shares[i];
            if is_nt {
                t = t + amount;
            }
            i += 1;
        }
        assert(shares@.take(shares.len() as int) =~= shares@);
        t
    }

    /// The `New` step's item for one supported token.
    pub fn normalize_item(c: &NormalizeCandidate) -> (r: Option<NormalizeSTCommandItem>)
        requires
            spec_normalized_share(c.vault_shares@) <= u64::MAX,
        ensures
            r == spec_normalize_item(*c),
            r is Some <==> c.pool_has_supported_token && c.restakable_amount_as_sol > 0
                && spec_normalized_share(c.vault_shares@) >= NTP_MINIMUM_DEPOSIT_LAMPORTS,
            r matches Some(it) ==> it.supported_token_mint == c.supported_token_mint
                && it.allocated_token_amount <= c.normalized_share_as_token
                && it.allocated_token_amount <= c.operation_reserved_amount
                && (it.allocated_token_amount == c.normalized_share_as_token
                    || it.allocated_token_amount == c.operation_reserved_amount),
    {
        if !c.pool_has_supported_token || c.restakable_amount_as_sol == 0 {
            return None;
        }
        let share = Self::normalized_share(&c.vault_shares);
        if share >= NTP_MINIMUM_DEPOSIT_LAMPORTS {
            Some(NormalizeSTCommandItem {
                supported_token_mint: c.supported_token_mint,
                allocated_token_amount: if c.normalized_share_as_token < c.operation_reserved_amount {
                    c.normalized_share_as_token
                } else {
                    c.operation_reserved_amount
                },
            })
        } else {
            None
        }
    }

    /// The `Prepare` step: `Execute` with the same items; no items, nothing to normalize.
    pub fn prepare(items: Vec<NormalizeSTCommandItem>) -> (r: Option<NormalizeSTCommand>)
        ensures
            items.len() == 0 ==> r is None,
            items.len() > 0 ==> (r matches Some(c) && c.state matches NormalizeSTCommandState::Execute { items: e } && e@ == items@),
    {
        if items.len() == 0 {
            None
        } else {
            Some(NormalizeSTCommand { state: NormalizeSTCommandState::Execute { items } })
        }
    }

    /// The account check of the `Execute` step: the pool, its mint and program,
    /// the supported token's mint, program and reserve, the two token accounts
    /// and the fund's reserve, nine accounts before the pricing sources.
    pub fn check_execute_accounts(account_keys: &Vec<Pubkey>) -> (r: Result<(), ErrorCode>)
        ensures
            account_keys.len() < 9 <==> r == Err::<(), ErrorCode>(ErrorCode::AccountNotEnoughKeys),
            account_keys.len() >= 9 <==> r == Ok::<(), ErrorCode>(()),
    {
        if account_keys.len() < 9 {
            Err(ErrorCode::AccountNotEnoughKeys)
        } else {
            Ok(())
        }
    }

    /// After `Execute`, the `Prepare` step of the remaining items.
    pub fn next_command(items: &Vec<NormalizeSTCommandItem>) -> (r: NormalizeSTCommand)
        ensures
            r.state matches NormalizeSTCommandState::Prepare { items: p }
                && (items.len() > 0 ==> p@ == items@.drop_first())
                && (items.len() == 0 ==> p@ == Seq::<NormalizeSTCommandItem>::empty()),
    {
        NormalizeSTCommand { state: NormalizeSTCommandState::Prepare { items: skip_first(items) } }
    }
}

/// The pool's mint check: the normalized tokens minted match the supported
/// tokens' price, up to one unit of rounding.
pub fn normalize_mint_is_consistent(expected_minted: u64, minted: u64) -> (r: bool)
    ensures
        r == ((if expected_minted > minted { expected_minted - minted } else { minted - expected_minted }) <= 1),
{
    let diff = if expected_minted > minted { expected_minted - minted } else { minted - expected_minted };
    diff <= 1
}

/// The `Execute` step's bookkeeping: the supported tokens leave their reserve,
/// the minted normalized tokens join the normalized token's reserve. Refused
/// when the fund's normalized token account holds less than that reserve.
pub fn apply_normalize(supported_token_operation_reserved_amount: u64, normalized_token_operation_reserved_amount: u64,
    item: NormalizeSTCommandItem, minted: u64, to_normalized_token_account_amount: u64)
    -> (r: Result<(u64, u64, NormalizeSTCommandResult), ErrorCode>)
    requires
        item.allocated_token_amount <= supported_token_operation_reserved_amount,
        normalized_token_operation_reserved_amount + minted <= u64::MAX,
    ensures
        to_normalized_token_account_amount >= normalized_token_operation_reserved_amount + minted ==>
            r == Ok::<(u64, u64, NormalizeSTCommandResult), ErrorCode>((
                (supported_token_operation_reserved_amount - item.allocated_token_amount) as u64,
                (normalized_token_operation_reserved_amount + minted) as u64,
                NormalizeSTCommandResult {
                    supported_token_mint: item.supported_token_mint,
                    normalized_supported_token_amount: item.allocated_token_amount,
                    minted_token_amount: minted,
                    operation_reserved_token_amount: (normalized_token_operation_reserved_amount + minted) as u64,
                },
            )),
        to_normalized_token_account_amount < normalized_token_operation_reserved_amount + minted ==>
            r == Err::<(u64, u64, NormalizeSTCommandResult), ErrorCode>(ErrorCode::RequireGteViolated),
{
    let st = supported_token_operation_reserved_amount - item.allocated_token_amount;
    let nt = normalized_token_operation_reserved_amount + minted;
    if to_normalized_token_account_amount < nt {
        return Err(ErrorCode::RequireGteViolated);
    }
    Ok((st, nt, NormalizeSTCommandResult {
        supported_token_mint: item.supported_token_mint,
        normalized_supported_token_amount: item.allocated_token_amount,
        minted_token_amount: minted,
        operation_reserved_token_amount: nt,
    }))
}

} // verus!
