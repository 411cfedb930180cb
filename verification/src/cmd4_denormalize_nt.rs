use vstd::prelude::*;
use crate::errors::ErrorCode;
use crate::iteration::skip_first;
use crate::pricing::TokenPricingSource;
use crate::pubkey::Pubkey;

verus! {

/// One denormalization to make: burn `allocated_normalized_token_amount` of
/// the normalized token for `supported_token_mint`.
#[derive(Clone, Copy, PartialEq, Eq, Structural, Debug)]
pub struct DenormalizeNTCommandItem {
    pub supported_token_mint: Pubkey,
    pub allocated_normalized_token_amount: u64,
}

/// Where the denormalization stands.
#[derive(Clone, Debug)]
pub enum DenormalizeNTCommandState {
    New,
    Prepare { items: Vec<DenormalizeNTCommandItem> },
    Execute { items: Vec<DenormalizeNTCommandItem> },
}

/// Turns the fund's normalized token back into supported tokens to meet token withdrawals.
#[derive(Clone, Debug)]
pub struct DenormalizeNTCommand {
    pub state: DenormalizeNTCommandState,
}

impl Default for DenormalizeNTCommand {
    fn default() -> (r: Self)
        ensures
            r.state is New,
    {
        DenormalizeNTCommand { state: DenormalizeNTCommandState::New }
    }
}

/// What one denormalization did.
#[derive(Clone, Copy, PartialEq, Eq, Structural, Debug)]
pub struct DenormalizeNTCommandResult {
    pub supported_token_mint: Pubkey,
    pub burnt_normalized_token_amount: u64,
    pub operation_reserved_normalized_token_amount: u64,
    pub denormalized_supported_token_amount: u64,
    pub operation_reserved_supported_token_amount: u64,
}

/// A supported token the normalized token pool holds, as the `New` step reads it.
#[derive(Clone, Copy, PartialEq, Eq, Structural, Debug)]
pub struct DenormalizeCandidate {
    pub supported_token_mint: Pubkey,
    /// The pool's locked amount of the token.
    pub locked_amount: u64,
    /// The token's net operation-reserved amount (negative when withdrawals need more).
    pub net_operation_reserved_amount: i128,
    /// The normalized token worth of the amount this pass allocates
    /// (`min(locked, obligation)` converted), as the pricing computes it.
    pub allocation_as_normalized_token: u64,
}

/// The supported token amount a candidate needs for its withdrawals: the
/// pool's locked amount, capped by the shortfall of its net reserve.
pub open spec fn spec_obligated_allocation(c: DenormalizeCandidate) -> int {
    let obligated: int = if c.net_operation_reserved_amount < 0 { -c.net_operation_reserved_amount } else { 0 };
    if c.locked_amount < obligated { c.locked_amount as int } else { obligated }
}

/// The first pass of the `New` step: each candidate in turn takes the
/// normalized tokens its shortfall is worth, but no more than is left.
/// Returns the items (one per candidate) and what is left.
pub open spec fn spec_first_pass(cs: Seq<DenormalizeCandidate>, total: u64) -> (Seq<DenormalizeNTCommandItem>, int)
    decreases cs.len(),
{
    if cs.len() == 0 {
        (Seq::empty(), total as int)
    } else {
        let (items, remaining) = spec_first_pass(cs.drop_last(), total);
        let c = cs.last();
        let alloc: int = if spec_obligated_allocation(c) > 0 {
            if c.allocation_as_normalized_token < remaining { c.allocation_as_normalized_token as int } else { remaining }
        } else {
            0
        };
        (items.push(DenormalizeNTCommandItem { supported_token_mint: c.supported_token_mint, allocated_normalized_token_amount: alloc as u64 }),
            remaining - alloc)
    }
}

/// The total of the items' amounts.
pub open spec fn items_sum(items: Seq<DenormalizeNTCommandItem>) -> int
    decreases items.len(),
{
    if items.len() == 0 { 0 } else { items_sum(items.drop_last()) + items.last().allocated_normalized_token_amount }
}

proof fn lemma_first_pass(cs: Seq<DenormalizeCandidate>, total: u64)
    ensures
        0 <= spec_first_pass(cs, total).1 <= total,
        items_sum(spec_first_pass(cs, total).0) + spec_first_pass(cs, total).1 == total,
        spec_first_pass(cs, total).0.len() == cs.len(),
    decreases cs.len(),
{
    if cs.len() > 0 {
        lemma_first_pass(cs.drop_last(), total);
        let (items, remaining) = spec_first_pass(cs.drop_last(), total);
        let c = cs.last();
        let alloc: int = if spec_obligated_allocation(c) > 0 {
            if c.allocation_as_normalized_token < remaining { c.allocation_as_normalized_token as int } else { remaining }
        } else {
            0
        };
        let it = DenormalizeNTCommandItem { supported_token_mint: c.supported_token_mint, allocated_normalized_token_amount: alloc as u64 };
        assert(items.push(it).drop_last() =~= items);
    }
}

/// The first pass never hands out more normalized tokens than the fund
/// reserves: the items and what is left add up to the reserve.
pub proof fn lemma_first_pass_conserves(cs: Seq<DenormalizeCandidate>, total: u64)
    ensures
        items_sum(spec_first_pass(cs, total).0) + spec_first_pass(cs, total).1 == total,
        0 <= spec_first_pass(cs, total).1,
{
    lemma_first_pass(cs, total);
}

impl DenormalizeNTCommand {
    /// The first pass of the `New` step; refused when a shortfall does not fit in 64 bits.
    pub fn first_pass(cs: &Vec<DenormalizeCandidate>, total: u64) -> (r: Result<(Vec<DenormalizeNTCommandItem>, u64), ErrorCode>)
        requires
            forall|i: int| 0 <= i < cs.len() ==> #[trigger] cs@[i].net_operation_reserved_amount != i128::MIN,
        ensures
            (forall|i: int| 0 <= i < cs.len() ==> #[trigger] cs@[i].net_operation_reserved_amount >= -(u64::MAX as int)) ==>
                (r matches Ok((items, remaining)) && items@ == spec_first_pass(cs@, total).0
                    && remaining == spec_first_pass(cs@, total).1),
            !(forall|i: int| 0 <= i < cs.len() ==> #[trigger] cs@[i].net_operation_reserved_amount >= -(u64::MAX as int)) ==>
                r == Err::<(Vec<DenormalizeNTCommandItem>, u64), ErrorCode>(ErrorCode::CalculationArithmeticException),
    {
        let mut items: Vec<DenormalizeNTCommandItem> = Vec::new();
        let mut remaining: u64 = total;
        let mut i: usize = 0;
        while i < cs.len()
            invariant
                i <= cs.len(),
                forall|j: int| 0 <= j < cs.len() ==> #[trigger] cs@[j].net_operation_reserved_amount != i128::MIN,
                forall|j: int| 0 <= j < i ==> #[trigger] cs@[j].net_operation_reserved_amount >= -(u64::MAX as int),
                items@ == spec_first_pass(cs@.take(i as int), total).0,
                remaining == spec_first_pass(cs@.take(i as int), total).1,
            decreases cs.len() - i,
        {
            assert(cs@.take(i as int + 1).drop_last() =~= cs@.take(i as int));
            let c = cs[i];
            let shortfall: i128 = if c.net_operation_reserved_amount < 0 { -c.net_operation_reserved_amount } else { 0 };
            if shortfall > u64::MAX as i128 {
                return Err(ErrorCode::CalculationArithmeticException);
            }
            let obligated = shortfall as u64;
            let needed = if c.locked_amount < obligated { c.locked_amount } else { obligated };
            let alloc = if needed > 0 {
                if c.allocation_as_normalized_token < remaining { c.allocation_as_normalized_token } else { remaining }
            } else {
                0
            };
            remaining = remaining - alloc;
            items.push(DenormalizeNTCommandItem { supported_token_mint: c.supported_token_mint, allocated_normalized_token_amount: alloc });
            i += 1;
        }
        assert(cs@.take(cs.len() as int) =~= cs@);
        Ok((items, remaining))
    }

    /// Adds the second pass's shares (what is left, spread by the strategy) to
    /// the items and keeps the items with something to denormalize. The
    /// strategy may leave at most one unit per supported token unplaced;
    /// more is refused.
    pub fn second_pass(items: &Vec<DenormalizeNTCommandItem>, cuts: &Vec<u64>, unplaced: u64, max_supported_tokens: u64)
        -> (r: Result<Vec<DenormalizeNTCommandItem>, ErrorCode>)
        requires
            items.len() == cuts.len(),
            forall|i: int| 0 <= i < items.len() ==> items@[i].allocated_normalized_token_amount + #[trigger] cuts@[i] <= u64::MAX,
        ensures
            unplaced > max_supported_tokens ==> r == Err::<Vec<DenormalizeNTCommandItem>, ErrorCode>(ErrorCode::RequireGteViolated),
            unplaced <= max_supported_tokens ==> (r matches Ok(v) && v@ == spec_keep_positive(spec_add_cuts(items@, cuts@))),
    {
        if unplaced > max_supported_tokens {
            return Err(ErrorCode::RequireGteViolated);
        }
        let mut r: Vec<DenormalizeNTCommandItem> = Vec::new();
        let mut i: usize = 0;
        while i < items.len()
            invariant
                i <= items.len(),
                items.len() == cuts.len(),
                forall|j: int| 0 <= j < items.len() ==> items@[j].allocated_normalized_token_amount + #[trigger] cuts@[j] <= u64::MAX,
                r@ == spec_keep_positive(spec_add_cuts(items@, cuts@).take(i as int)),
            decreases items.len() - i,
        {
            let it = items[i];
            let amount = it.allocated_normalized_token_amount + cuts[i];
            assert(spec_add_cuts(items@, cuts@).take(i as int + 1).drop_last() =~= spec_add_cuts(items@, cuts@).take(i as int));
            if amount > 0 {
                r.push(DenormalizeNTCommandItem { allocated_normalized_token_amount: amount, ..it });
            }
            i += 1;
        }
        assert(spec_add_cuts(items@, cuts@).take(items.len() as int) =~= spec_add_cuts(items@, cuts@));
        Ok(r)
    }

    /// The items left after the first one.
    pub fn remaining_items(items: &Vec<DenormalizeNTCommandItem>) -> (r: Vec<DenormalizeNTCommandItem>)
        ensures
            items.len() > 0 ==> r@ == items@.drop_first(),
            items.len() == 0 ==> r@ == Seq::<DenormalizeNTCommandItem>::empty(),
    {
        skip_first(items)
    }

    /// The `Execute` step needs the normalized token to come from the fund's
    /// normalized token pool; the pool handed over must be that pool.
    pub fn check_pool(normalized_token_pricing_source: Option<TokenPricingSource>, given_pool: Pubkey) -> (r: Result<(), ErrorCode>)
        ensures
            (normalized_token_pricing_source matches Some(TokenPricingSource::FragmetricNormalizedTokenPool { address }) && address == given_pool)
                ==> r is Ok,
            (normalized_token_pricing_source matches Some(TokenPricingSource::FragmetricNormalizedTokenPool { address }) && address != given_pool)
                ==> r == Err::<(), ErrorCode>(ErrorCode::RequireKeysEqViolated),
            !(normalized_token_pricing_source matches Some(TokenPricingSource::FragmetricNormalizedTokenPool { .. }))
                ==> r == Err::<(), ErrorCode>(ErrorCode::FundOperationCommandExecutionFailedException),
    {
        match normalized_token_pricing_source {
            Some(TokenPricingSource::FragmetricNormalizedTokenPool { address }) => {
                if address == given_pool { Ok(()) } else { Err(ErrorCode::RequireKeysEqViolated) }
            },
            _ => Err(ErrorCode::FundOperationCommandExecutionFailedException),
        }
    }
}

/// Each item with its second-pass share added.
pub open spec fn spec_add_cuts(items: Seq<DenormalizeNTCommandItem>, cuts: Seq<u64>) -> Seq<DenormalizeNTCommandItem> {
    Seq::new(items.len(), |i: int| DenormalizeNTCommandItem {
        allocated_normalized_token_amount: (items[i].allocated_normalized_token_amount + cuts[i]) as u64,
        ..items[i]
    })
}

/// The items with a positive amount, in order.
pub open spec fn spec_keep_positive(items: Seq<DenormalizeNTCommandItem>) -> Seq<DenormalizeNTCommandItem>
    decreases items.len(),
{
    if items.len() == 0 {
        Seq::empty()
    } else {
        let prev = spec_keep_positive(items.drop_last());
        if items.last().allocated_normalized_token_amount > 0 { prev.push(items.last()) } else { prev }
    }
}

/// Keeping the positive items drops nothing else and reorders nothing: the
/// returned positions pick, for each kept item, the same item among the
/// given ones; they increase; and every item with a positive amount is
/// picked.
pub proof fn lemma_keep_positive_is_an_ordered_selection(given: Seq<DenormalizeNTCommandItem>) -> (positions: Seq<int>)
    ensures
        ({
            let items = spec_keep_positive(given);
            &&& positions.len() == items.len()
            &&& forall|k: int| 0 <= k < positions.len() ==> {
                &&& 0 <= #[trigger] positions[k] < given.len()
                &&& items[k] == given[positions[k]]
            }
            &&& forall|k1: int, k2: int| 0 <= k1 < k2 < positions.len() ==> #[trigger] positions[k1] < #[trigger] positions[k2]
            &&& forall|j: int| 0 <= j < given.len() ==>
                (given[j].allocated_normalized_token_amount > 0 <==> exists|k: int| 0 <= k < positions.len() && positions[k] == j)
        }),
    decreases given.len(),
{
    if given.len() == 0 {
        Seq::empty()
    } else {
        let n = given.len() - 1;
        let rest = given.drop_last();
        let prev = spec_keep_positive(rest);
        let items = spec_keep_positive(given);
        let prev_positions = lemma_keep_positive_is_an_ordered_selection(rest);
        assert forall|i: int| 0 <= i < n implies rest[i] == given[i] by {}
        if given[n].allocated_normalized_token_amount > 0 {
            let positions = prev_positions.push(n);
            assert(items.len() == prev.len() + 1);
            assert forall|k: int| 0 <= k < positions.len() implies {
                &&& 0 <= #[trigger] positions[k] < given.len()
                &&& items[k] == given[positions[k]]
            } by {
                if k < prev_positions.len() {
                    assert(positions[k] == prev_positions[k]);
                    assert(items[k] == prev[k]);
                } else {
                    assert(positions[k] == n);
                }
            }
            assert forall|j: int| 0 <= j < given.len() implies
                (given[j].allocated_normalized_token_amount > 0 <==> exists|k: int| 0 <= k < positions.len() && positions[k] == j) by {
                if j < n {
                    if given[j].allocated_normalized_token_amount > 0 {
                        assert(rest[j].allocated_normalized_token_amount > 0);
                        let k = choose|k: int| 0 <= k < prev_positions.len() && prev_positions[k] == j;
                        assert(positions[k] == j);
                    }
                    if exists|k: int| 0 <= k < positions.len() && positions[k] == j {
                        let k = choose|k: int| 0 <= k < positions.len() && positions[k] == j;
                        assert(k < prev_positions.len());
                        assert(prev_positions[k] == j);
                        assert(rest[j].allocated_normalized_token_amount > 0);
                    }
                } else {
                    assert(positions[prev_positions.len() as int] == j);
                }
            }
            positions
        } else {
            assert(items == prev);
            assert forall|j: int| 0 <= j < given.len() implies
                (given[j].allocated_normalized_token_amount > 0 <==> exists|k: int| 0 <= k < prev_positions.len() && prev_positions[k] == j) by {
                if j < n {
                    assert(rest[j] == given[j]);
                } else {
                    if exists|k: int| 0 <= k < prev_positions.len() && prev_positions[k] == j {
                        let k = choose|k: int| 0 <= k < prev_positions.len() && prev_positions[k] == j;
                        assert(prev_positions[k] < rest.len());
                    }
                }
            }
            prev_positions
        }
    }
}

/// The bookkeeping of a denormalization.
#[derive(Clone, Copy, PartialEq, Eq, Structural, Debug)]
pub struct DenormalizeBook {
    pub supported_token_operation_reserved_amount: u64,
    /// The rest of the supported token's total reserved amount.
    pub supported_token_other_reserved_amount: u64,
    pub normalized_token_operation_reserved_amount: u64,
}

/// The `Execute` step's bookkeeping: the denormalized supported tokens join
/// their reserve, the burnt normalized tokens leave theirs. Refused when the
/// pool returned more than the price says, or the fund's supported token
/// account holds less than the token's total reserved amount.
pub fn apply_denormalize(book: DenormalizeBook, item: DenormalizeNTCommandItem, denormalized: u64, expected_denormalized: u64, to_supported_token_account_amount: u64)
    -> (r: Result<(DenormalizeBook, DenormalizeNTCommandResult), ErrorCode>)
    requires
        book.supported_token_operation_reserved_amount + denormalized + book.supported_token_other_reserved_amount <= u64::MAX,
        item.allocated_normalized_token_amount <= book.normalized_token_operation_reserved_amount,
    ensures
        ({
            let nb = DenormalizeBook {
                supported_token_operation_reserved_amount: (book.supported_token_operation_reserved_amount + denormalized) as u64,
                supported_token_other_reserved_amount: book.supported_token_other_reserved_amount,
                normalized_token_operation_reserved_amount: (book.normalized_token_operation_reserved_amount - item.allocated_normalized_token_amount) as u64,
            };
            let ok = expected_denormalized >= denormalized
                && to_supported_token_account_amount >= nb.supported_token_operation_reserved_amount + nb.supported_token_other_reserved_amount;
            &&& ok ==> r == Ok::<(DenormalizeBook, DenormalizeNTCommandResult), ErrorCode>((nb, DenormalizeNTCommandResult {
                supported_token_mint: item.supported_token_mint,
                burnt_normalized_token_amount: item.allocated_normalized_token_amount,
                operation_reserved_normalized_token_amount: nb.normalized_token_operation_reserved_amount,
                denormalized_supported_token_amount: denormalized,
                operation_reserved_supported_token_amount: nb.supported_token_operation_reserved_amount,
            }))
            &&& !ok ==> r == Err::<(DenormalizeBook, DenormalizeNTCommandResult), ErrorCode>(ErrorCode::RequireGteViolated)
        }),
{
    if expected_denormalized < denormalized {
        return Err(ErrorCode::RequireGteViolated);
    }
    let nb = DenormalizeBook {
        supported_token_operation_reserved_amount: book.supported_token_operation_reserved_amount + denormalized,
        supported_token_other_reserved_amount: book.supported_token_other_reserved_amount,
        normalized_token_operation_reserved_amount: book.normalized_token_operation_reserved_amount - item.allocated_normalized_token_amount,
    };
    if to_supported_token_account_amount < nb.supported_token_operation_reserved_amount + nb.supported_token_other_reserved_amount {
        return Err(ErrorCode::RequireGteViolated);
    }
    Ok((nb, DenormalizeNTCommandResult {
        supported_token_mint: item.supported_token_mint,
        burnt_normalized_token_amount: item.allocated_normalized_token_amount,
        operation_reserved_normalized_token_amount: nb.normalized_token_operation_reserved_amount,
        denormalized_supported_token_amount: denormalized,
        operation_reserved_supported_token_amount: nb.supported_token_operation_reserved_amount,
    }))
}

} // verus!
