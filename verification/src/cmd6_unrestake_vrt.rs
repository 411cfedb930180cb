use vstd::prelude::*;
use crate::errors::ErrorCode;
use crate::pricing::TokenPricingSource;
use crate::pubkey::Pubkey;
pub use crate::math::{reserve_deficit, reserve_surplus};
pub use crate::cmd9_unrestake_vrt::{UnrestakeVRTCommand, UnrestakeVRTCommandResult, UnrestakeVRTCommandState, UnrestakeVSTCommandItem};

verus! {

/// The receipt tokens of a vault not yet allotted to earlier supported tokens.
pub fn unallotted_reserve(receipt_token_operation_reserved_amount: u64, item: &UnrestakeVSTCommandItem) -> (r: u64)
    requires
        item.allocated_receipt_token_amount <= receipt_token_operation_reserved_amount,
    ensures
        r == receipt_token_operation_reserved_amount - item.allocated_receipt_token_amount,
{
    receipt_token_operation_reserved_amount - item.allocated_receipt_token_amount
}

/// Adds the strategy's cuts (as receipt tokens) to the items by participant
/// position: the `k`-th participant's cut goes to the `k`-th item.
pub fn add_allotments_by_position(items: &mut Vec<UnrestakeVSTCommandItem>, amounts: &Vec<u64>)
    requires
        amounts.len() <= old(items).len(),
        forall|k: int| 0 <= k < amounts.len() ==>
            old(items)@[k].allocated_receipt_token_amount + #[trigger] amounts@[k] <= u64::MAX,
    ensures
        final(items).len() == old(items).len(),
        forall|k: int| 0 <= k < amounts.len() ==> #[trigger] final(items)@[k] == (UnrestakeVSTCommandItem {
            allocated_receipt_token_amount: (old(items)@[k].allocated_receipt_token_amount + amounts@[k]) as u64,
            ..old(items)@[k]
        }),
        forall|k: int| amounts.len() <= k < old(items).len() ==> #[trigger] final(items)@[k] == old(items)@[k],
{
    let ghost orig = items@;
    let mut k: usize = 0;
    while k < amounts.len()
        invariant
            k <= amounts.len() <= orig.len(),
            items.len() == orig.len(),
            forall|j: int| 0 <= j < amounts.len() ==> orig[j].allocated_receipt_token_amount + #[trigger] amounts@[j] <= u64::MAX,
            forall|j: int| 0 <= j < k ==> #[trigger] items@[j] == (UnrestakeVSTCommandItem {
                allocated_receipt_token_amount: (orig[j].allocated_receipt_token_amount + amounts@[j]) as u64,
                ..orig[j]
            }),
            forall|j: int| k <= j < orig.len() ==> #[trigger] items@[j] == orig[j],
        decreases amounts.len() - k,
    {
        let it = items[k];
        items.set(k, UnrestakeVSTCommandItem { allocated_receipt_token_amount: it.allocated_receipt_token_amount + amounts[k], ..it });
        k += 1;
    }
}

/// The items with something allotted, in order.
pub open spec fn spec_allotted_items(items: Seq<UnrestakeVSTCommandItem>) -> Seq<UnrestakeVSTCommandItem> {
    items.filter(|it: UnrestakeVSTCommandItem| it.allocated_receipt_token_amount > 0)
}

/// Keeps the items with something allotted (the end of the `New` step).
pub fn allotted_items(items: &Vec<UnrestakeVSTCommandItem>) -> (r: Vec<UnrestakeVSTCommandItem>)
    ensures
        r@ == spec_allotted_items(items@),
{
    let mut r: Vec<UnrestakeVSTCommandItem> = Vec::new();
    let mut i: usize = 0;
    while i < items.len()
        invariant
            i <= items.len(),
            r@ == spec_allotted_items(items@.take(i as int)),
        decreases items.len() - i,
    {
        proof {
            reveal(Seq::filter);
            assert(items@.take(i as int + 1).drop_last() =~= items@.take(i as int));
        }
        if items[i].allocated_receipt_token_amount > 0 {
            r.push(items[i]);
        }
        i += 1;
    }
    assert(items@.take(items.len() as int) =~= items@);
    r
}

/// Hands over with the remaining items: the `Prepare` step of the first one,
/// which must be a Jito vault; none when no item is left.
pub fn create_prepare_command_with_items(items: Vec<UnrestakeVSTCommandItem>, first_vault_source: Option<TokenPricingSource>)
    -> (r: Result<Option<UnrestakeVRTCommand>, ErrorCode>)
    ensures
        items.len() == 0 ==> r == Ok::<Option<UnrestakeVRTCommand>, ErrorCode>(None),
        (items.len() > 0 && first_vault_source matches Some(TokenPricingSource::JitoRestakingVault { .. })) ==>
            (r matches Ok(Some(c)) && c.state matches UnrestakeVRTCommandState::Prepare { items: p } && p@ == items@),
        items.len() > 0 && !(first_vault_source matches Some(TokenPricingSource::JitoRestakingVault { .. })) ==>
            r == Err::<Option<UnrestakeVRTCommand>, ErrorCode>(ErrorCode::FundOperationCommandExecutionFailedException),
{
    if items.len() == 0 {
        return Ok(None);
    }
    match first_vault_source {
        Some(TokenPricingSource::JitoRestakingVault { .. }) =>
            Ok(Some(UnrestakeVRTCommand { state: UnrestakeVRTCommandState::Prepare { items } })),
        _ => Err(ErrorCode::FundOperationCommandExecutionFailedException),
    }
}

/// The `Prepare` step: the first item's vault must be the Jito vault its
/// pricing source names, and at least the three vault accounts must be
/// handed over; the items then go to `Execute`.
pub fn execute_prepare(items: Vec<UnrestakeVSTCommandItem>, first_vault_source: Option<TokenPricingSource>, num_accounts: usize)
    -> (r: Result<Option<UnrestakeVRTCommand>, ErrorCode>)
    ensures
        items.len() == 0 ==> r == Ok::<Option<UnrestakeVRTCommand>, ErrorCode>(None),
        items.len() > 0 ==> match first_vault_source {
            Some(TokenPricingSource::JitoRestakingVault { address }) =>
                if address != items@[0].vault {
                    r == Err::<Option<UnrestakeVRTCommand>, ErrorCode>(ErrorCode::RequireKeysEqViolated)
                } else if num_accounts < 3 {
                    r == Err::<Option<UnrestakeVRTCommand>, ErrorCode>(ErrorCode::AccountNotEnoughKeys)
                } else {
                    r matches Ok(Some(c)) && c.state matches UnrestakeVRTCommandState::Execute { items: e } && e@ == items@
                },
            _ => r == Err::<Option<UnrestakeVRTCommand>, ErrorCode>(ErrorCode::FundOperationCommandExecutionFailedException),
        },
{
    if items.len() == 0 {
        return Ok(None);
    }
    match first_vault_source {
        Some(TokenPricingSource::JitoRestakingVault { address }) => {
            if address != items[0].vault {
                return Err(ErrorCode::RequireKeysEqViolated);
            }
            if num_accounts < 3 {
                return Err(ErrorCode::AccountNotEnoughKeys);
            }
            Ok(Some(UnrestakeVRTCommand { state: UnrestakeVRTCommandState::Execute { items } }))
        },
        _ => Err(ErrorCode::FundOperationCommandExecutionFailedException),
    }
}

/// The `Execute` step's checks on the first item: its vault must be the Jito
/// vault its pricing source names, ten accounts and fifteen withdrawal ticket
/// candidate accounts (five tickets of three) must be handed over. Gives the
/// first of the five tickets that is still free (`ticket_initialized` tells,
/// ticket by ticket), none when all are taken (nothing is requested then).
pub fn execute_check(items: &Vec<UnrestakeVSTCommandItem>, first_vault_source: Option<TokenPricingSource>,
    num_accounts: usize, ticket_initialized: &Vec<bool>)
    -> (r: Result<Option<usize>, ErrorCode>)
    requires
        items.len() > 0,
        ticket_initialized.len() == 5,
    ensures
        match first_vault_source {
            Some(TokenPricingSource::JitoRestakingVault { address }) =>
                if address != items@[0].vault {
                    r == Err::<Option<usize>, ErrorCode>(ErrorCode::RequireKeysEqViolated)
                } else if num_accounts < 25 {
                    r == Err::<Option<usize>, ErrorCode>(ErrorCode::AccountNotEnoughKeys)
                } else {
                    &&& r matches Ok(t)
                    &&& (r matches Ok(Some(i)) ==> i < 5 && !ticket_initialized@[i as int]
                        && forall|j: int| 0 <= j < i ==> ticket_initialized@[j])
                    &&& (r matches Ok(None) ==> forall|j: int| 0 <= j < 5 ==> ticket_initialized@[j])
                },
            _ => r == Err::<Option<usize>, ErrorCode>(ErrorCode::FundOperationCommandExecutionFailedException),
        },
{
    match first_vault_source {
        Some(TokenPricingSource::JitoRestakingVault { address }) => {
            if address != items[0].vault {
                return Err(ErrorCode::RequireKeysEqViolated);
            }
            if num_accounts < 25 {
                return Err(ErrorCode::AccountNotEnoughKeys);
            }
            Ok(crate::cmd9_unrestake_vrt::first_free_ticket(ticket_initialized))
        },
        _ => Err(ErrorCode::FundOperationCommandExecutionFailedException),
    }
}

} // verus!
