use vstd::prelude::*;
use crate::errors::ErrorCode;
use crate::iteration::skip_first;
use crate::pricing::TokenPricingSource;
use crate::pubkey::Pubkey;

verus! {

/// Undelegating less than this many supported tokens from an operator is not worth it.
pub const UNDELEGATION_MINIMUM_ALLOCATED_TOKEN_AMOUNT: u64 = 1_000_000_000;

/// One undelegation to request: `undelegation_amount` tokens back from `operator`.
#[derive(Clone, Copy, PartialEq, Eq, Structural, Debug)]
pub struct UndelegateVSTCommandItem {
    pub operator: Pubkey,
    pub undelegation_amount: u64,
}

/// Where the undelegation command stands: the vaults still to visit (the
/// first is the current one) and the operators of the current vault still to serve.
#[derive(Clone, Debug)]
pub enum UndelegateVSTCommandState {
    New,
    PrepareItems { vaults: Vec<Pubkey> },
    Prepare { vaults: Vec<Pubkey>, items: Vec<UndelegateVSTCommandItem> },
    Execute { vaults: Vec<Pubkey>, items: Vec<UndelegateVSTCommandItem> },
}

/// Asks restaking vault operators to give delegated tokens back, so that the
/// vaults can serve the fund's unrestaking requests.
#[derive(Clone, Debug)]
pub struct UndelegateVSTCommand {
    pub state: UndelegateVSTCommandState,
}

impl Default for UndelegateVSTCommand {
    fn default() -> (r: Self)
        ensures
            r.state is New,
    {
        UndelegateVSTCommand { state: UndelegateVSTCommandState::New }
    }
}

/// One undelegation requested.
#[derive(Clone, Copy, PartialEq, Eq, Structural, Debug)]
pub struct UndelegateVSTCommandResult {
    pub vault_supported_token_mint: Pubkey,
    pub requested_undelegation_token_amount: u64,
    pub total_delegated_token_amount: u64,
    pub total_undelegating_token_amount: u64,
}

/// `x - y`, or zero when `y` is larger.
pub open spec fn sat_sub(x: int, y: int) -> int {
    if x > y { x - y } else { 0 }
}

/// The tokens the vault still has to undelegate: what the fund asked to
/// unrestake (as supported tokens), less what is already being undelegated,
/// less what the vault holds undelegated.
pub fn undelegation_amount(requested_unrestake_amount_as_vst: u64, requested_undelegate_amount: u64, supported_token_remaining_amount: u64)
    -> (r: u64)
    ensures
        r == sat_sub(sat_sub(requested_unrestake_amount_as_vst as int, requested_undelegate_amount as int),
            supported_token_remaining_amount as int),
{
    requested_unrestake_amount_as_vst.saturating_sub(requested_undelegate_amount).saturating_sub(supported_token_remaining_amount)
}

/// The items of a vault: each operator with what the allocation strategy cut
/// from it, keeping only those worth at least the minimum, in order.
pub open spec fn spec_plan_items(operators: Seq<Pubkey>, cut_amounts: Seq<u64>) -> Seq<UndelegateVSTCommandItem>
    decreases operators.len(),
{
    if operators.len() == 0 {
        Seq::empty()
    } else {
        let prev = spec_plan_items(operators.drop_last(), cut_amounts.take(operators.len() - 1));
        let amount = cut_amounts[operators.len() - 1];
        if amount >= UNDELEGATION_MINIMUM_ALLOCATED_TOKEN_AMOUNT {
            prev.push(UndelegateVSTCommandItem { operator: operators.last(), undelegation_amount: amount })
        } else {
            prev
        }
    }
}

/// The planned undelegations are the operators' cuts of at least the
/// minimum, each carried by its own operator, in the operators' order: the
/// returned positions pick, for each item, the operator and the cut at the
/// same position; they increase; and every position whose cut reaches the
/// minimum is picked.
pub proof fn lemma_plan_items_pair_operators_with_their_cuts(operators: Seq<Pubkey>, cut_amounts: Seq<u64>) -> (positions: Seq<int>)
    requires
        operators.len() == cut_amounts.len(),
    ensures
        ({
            let items = spec_plan_items(operators, cut_amounts);
            &&& positions.len() == items.len()
            &&& forall|k: int| 0 <= k < positions.len() ==> {
                &&& 0 <= #[trigger] positions[k] < operators.len()
                &&& items[k].operator == operators[positions[k]]
                &&& items[k].undelegation_amount == cut_amounts[positions[k]]
            }
            &&& forall|k1: int, k2: int| 0 <= k1 < k2 < positions.len() ==> #[trigger] positions[k1] < #[trigger] positions[k2]
            &&& forall|j: int| 0 <= j < operators.len() ==>
                (cut_amounts[j] >= UNDELEGATION_MINIMUM_ALLOCATED_TOKEN_AMOUNT <==> exists|k: int| 0 <= k < positions.len() && positions[k] == j)
        }),
    decreases operators.len(),
{
    if operators.len() == 0 {
        Seq::empty()
    } else {
        let n = operators.len() - 1;
        let ops = operators.drop_last();
        let cuts = cut_amounts.take(n);
        let prev_positions = lemma_plan_items_pair_operators_with_their_cuts(ops, cuts);
        let prev = spec_plan_items(ops, cuts);
        let items = spec_plan_items(operators, cut_amounts);
        assert forall|i: int| 0 <= i < n implies ops[i] == operators[i] && cuts[i] == cut_amounts[i] by {}
        if cut_amounts[n] >= UNDELEGATION_MINIMUM_ALLOCATED_TOKEN_AMOUNT {
            let positions = prev_positions.push(n);
            assert(items == prev.push(UndelegateVSTCommandItem { operator: operators.last(), undelegation_amount: cut_amounts[n] }));
            assert forall|k: int| 0 <= k < positions.len() implies {
                &&& 0 <= #[trigger] positions[k] < operators.len()
                &&& items[k].operator == operators[positions[k]]
                &&& items[k].undelegation_amount == cut_amounts[positions[k]]
            } by {
                if k < prev_positions.len() {
                    assert(positions[k] == prev_positions[k]);
                    assert(items[k] == prev[k]);
                }
            }
            assert forall|j: int| 0 <= j < operators.len() implies
                (cut_amounts[j] >= UNDELEGATION_MINIMUM_ALLOCATED_TOKEN_AMOUNT <==> exists|k: int| 0 <= k < positions.len() && positions[k] == j) by {
                if j < n {
                    if cut_amounts[j] >= UNDELEGATION_MINIMUM_ALLOCATED_TOKEN_AMOUNT {
                        assert(cuts[j] >= UNDELEGATION_MINIMUM_ALLOCATED_TOKEN_AMOUNT);
                        let k = choose|k: int| 0 <= k < prev_positions.len() && prev_positions[k] == j;
                        assert(positions[k] == j);
                    }
                    if exists|k: int| 0 <= k < positions.len() && positions[k] == j {
                        let k = choose|k: int| 0 <= k < positions.len() && positions[k] == j;
                        assert(k < prev_positions.len());
                        assert(prev_positions[k] == j);
                        assert(cuts[j] >= UNDELEGATION_MINIMUM_ALLOCATED_TOKEN_AMOUNT);
                    }
                } else {
                    assert(positions[prev_positions.len() as int] == j);
                }
            }
            positions
        } else {
            assert(items == prev);
            assert forall|j: int| 0 <= j < operators.len() implies
                (cut_amounts[j] >= UNDELEGATION_MINIMUM_ALLOCATED_TOKEN_AMOUNT <==> exists|k: int| 0 <= k < prev_positions.len() && prev_positions[k] == j) by {
                if j < n {
                    assert(cuts[j] == cut_amounts[j]);
                } else {
                    if exists|k: int| 0 <= k < prev_positions.len() && prev_positions[k] == j {
                        let k = choose|k: int| 0 <= k < prev_positions.len() && prev_positions[k] == j;
                        assert(prev_positions[k] < ops.len());
                    }
                }
            }
            prev_positions
        }
    }
}

/// What an `Execute` step does, once its accounts are checked.
#[derive(Clone, Copy, PartialEq, Eq, Structural, Debug)]
pub enum UndelegateStep {
    /// No vault is left.
    Done,
    /// No item is left in the current vault: plan the items of the next one.
    MoveOn,
    /// Request this undelegation from the vault.
    Undelegate { item: UndelegateVSTCommandItem },
}

impl UndelegateVSTCommand {
    /// The `New` step: plan the items of the fund's vaults, the first first.
    /// (The fund must have a restaking vault: the step reads the first one.)
    pub fn execute_new(vaults: Vec<Pubkey>) -> (r: UndelegateVSTCommand)
        requires
            vaults.len() > 0,
        ensures
            r.state matches UndelegateVSTCommandState::PrepareItems { vaults: v } && v@ == vaults@,
    {
        UndelegateVSTCommand { state: UndelegateVSTCommandState::PrepareItems { vaults } }
    }

    /// The undelegation items of a vault from the amounts its weighted
    /// allocation strategy cut from each operator.
    pub fn plan_items(operators: &Vec<Pubkey>, cut_amounts: &Vec<u64>) -> (items: Vec<UndelegateVSTCommandItem>)
        requires
            operators.len() == cut_amounts.len(),
        ensures
            items@ == spec_plan_items(operators@, cut_amounts@),
            forall|i: int| 0 <= i < items.len() ==>
                #[trigger] items@[i].undelegation_amount >= UNDELEGATION_MINIMUM_ALLOCATED_TOKEN_AMOUNT,
            forall|i: int| 0 <= i < items.len() ==> exists|j: int| 0 <= j < operators.len()
                && (#[trigger] items@[i]).operator == operators@[j] && items@[i].undelegation_amount == cut_amounts@[j],
    {
        let mut items: Vec<UndelegateVSTCommandItem> = Vec::new();
        let mut k: usize = 0;
        while k < operators.len()
            invariant
                k <= operators.len(),
                operators.len() == cut_amounts.len(),
                items@ == spec_plan_items(operators@.take(k as int), cut_amounts@.take(k as int)),
                forall|i: int| 0 <= i < items.len() ==>
                    #[trigger] items@[i].undelegation_amount >= UNDELEGATION_MINIMUM_ALLOCATED_TOKEN_AMOUNT,
            decreases operators.len() - k,
        {
            proof {
                assert(operators@.take(k as int + 1).drop_last() =~= operators@.take(k as int));
                assert(cut_amounts@.take(k as int + 1).take(k as int) =~= cut_amounts@.take(k as int));
            }
            if cut_amounts[k] >= UNDELEGATION_MINIMUM_ALLOCATED_TOKEN_AMOUNT {
                items.push(UndelegateVSTCommandItem { operator: operators[k], undelegation_amount: cut_amounts[k] });
            }
            k += 1;
        }
        proof {
            assert(operators@.take(operators.len() as int) =~= operators@);
            assert(cut_amounts@.take(operators.len() as int) =~= cut_amounts@);
            let positions = lemma_plan_items_pair_operators_with_their_cuts(operators@, cut_amounts@);
            assert forall|i: int| 0 <= i < items.len() implies exists|j: int| 0 <= j < operators.len()
                && (#[trigger] items@[i]).operator == operators@[j] && items@[i].undelegation_amount == cut_amounts@[j] by {
                let j = positions[i];
                assert(0 <= j < operators.len());
            }
        }
        items
    }

    /// The `PrepareItems` step on the first of `vaults`, which must be a Jito
    /// vault whose account comes third among the accounts handed over: its
    /// planned `items` go to `Prepare`.
    pub fn execute_prepare_items(vaults: Vec<Pubkey>, first_vault_source: Option<TokenPricingSource>,
        account_keys: &Vec<Pubkey>, items: Vec<UndelegateVSTCommandItem>)
        -> (r: Result<UndelegateVSTCommand, ErrorCode>)
        requires
            vaults.len() > 0,
        ensures
            match first_vault_source {
                Some(TokenPricingSource::JitoRestakingVault { address }) =>
                    if account_keys.len() < 3 {
                        r == Err::<UndelegateVSTCommand, ErrorCode>(ErrorCode::AccountNotEnoughKeys)
                    } else if account_keys@[2] != address {
                        r == Err::<UndelegateVSTCommand, ErrorCode>(ErrorCode::RequireKeysEqViolated)
                    } else {
                        r matches Ok(c) && c.state matches UndelegateVSTCommandState::Prepare { vaults: v, items: it }
                            && v@ == vaults@ && it@ == items@
                    },
                _ => r == Err::<UndelegateVSTCommand, ErrorCode>(ErrorCode::FundOperationCommandExecutionFailedException),
            },
    {
        match first_vault_source {
            Some(TokenPricingSource::JitoRestakingVault { address }) => {
                if account_keys.len() < 3 {
                    return Err(ErrorCode::AccountNotEnoughKeys);
                }
                if account_keys[2] != address {
                    return Err(ErrorCode::RequireKeysEqViolated);
                }
                Ok(UndelegateVSTCommand { state: UndelegateVSTCommandState::Prepare { vaults, items } })
            },
            _ => Err(ErrorCode::FundOperationCommandExecutionFailedException),
        }
    }

    /// The `Prepare` step: with no item left the next vault's items are
    /// planned (none when no vault is left); otherwise the first vault must be
    /// a Jito vault whose account comes third, and the items go to `Execute`.
    pub fn execute_prepare(vaults: Vec<Pubkey>, items: Vec<UndelegateVSTCommandItem>,
        first_vault_source: Option<TokenPricingSource>, account_keys: &Vec<Pubkey>)
        -> (r: Result<Option<UndelegateVSTCommand>, ErrorCode>)
        ensures
            vaults.len() == 0 ==> r == Ok::<Option<UndelegateVSTCommand>, ErrorCode>(None),
            vaults.len() == 1 && items.len() == 0 ==> r == Ok::<Option<UndelegateVSTCommand>, ErrorCode>(None),
            vaults.len() > 1 && items.len() == 0 ==> (r matches Ok(Some(c))
                && c.state matches UndelegateVSTCommandState::PrepareItems { vaults: v } && v@ == vaults@.drop_first()),
            vaults.len() > 0 && items.len() > 0 ==> match first_vault_source {
                Some(TokenPricingSource::JitoRestakingVault { address }) =>
                    if account_keys.len() < 3 {
                        r == Err::<Option<UndelegateVSTCommand>, ErrorCode>(ErrorCode::AccountNotEnoughKeys)
                    } else if account_keys@[2] != address {
                        r == Err::<Option<UndelegateVSTCommand>, ErrorCode>(ErrorCode::RequireKeysEqViolated)
                    } else {
                        r matches Ok(Some(c)) && c.state matches UndelegateVSTCommandState::Execute { vaults: v, items: it }
                            && v@ == vaults@ && it@ == items@
                    },
                _ => r == Err::<Option<UndelegateVSTCommand>, ErrorCode>(ErrorCode::FundOperationCommandExecutionFailedException),
            },
    {
        if vaults.len() == 0 {
            return Ok(None);
        }
        if items.len() == 0 {
            let rest = skip_first(&vaults);
            if rest.len() > 0 {
                return Ok(Some(UndelegateVSTCommand { state: UndelegateVSTCommandState::PrepareItems { vaults: rest } }));
            } else {
                return Ok(None);
            }
        }
        match first_vault_source {
            Some(TokenPricingSource::JitoRestakingVault { address }) => {
                if account_keys.len() < 3 {
                    return Err(ErrorCode::AccountNotEnoughKeys);
                }
                if account_keys[2] != address {
                    return Err(ErrorCode::RequireKeysEqViolated);
                }
                Ok(Some(UndelegateVSTCommand { state: UndelegateVSTCommandState::Execute { vaults, items } }))
            },
            _ => Err(ErrorCode::FundOperationCommandExecutionFailedException),
        }
    }

    /// The `Execute` step's checks: the first vault is a Jito vault, and the
    /// accounts handed over hold the vault account third and the fund account
    /// (the delegation admin) sixth.
    pub fn execute_check(vaults: &Vec<Pubkey>, items: &Vec<UndelegateVSTCommandItem>,
        first_vault_source: Option<TokenPricingSource>, account_keys: &Vec<Pubkey>, fund_account: Pubkey)
        -> (r: Result<UndelegateStep, ErrorCode>)
        ensures
            vaults.len() == 0 ==> r == Ok::<UndelegateStep, ErrorCode>(UndelegateStep::Done),
            vaults.len() > 0 && items.len() == 0 ==> r == Ok::<UndelegateStep, ErrorCode>(UndelegateStep::MoveOn),
            vaults.len() > 0 && items.len() > 0 ==> match first_vault_source {
                Some(TokenPricingSource::JitoRestakingVault { address }) =>
                    if account_keys.len() < 6 {
                        r == Err::<UndelegateStep, ErrorCode>(ErrorCode::AccountNotEnoughKeys)
                    } else if account_keys@[2] != address || account_keys@[5] != fund_account {
                        r == Err::<UndelegateStep, ErrorCode>(ErrorCode::RequireKeysEqViolated)
                    } else {
                        r == Ok::<UndelegateStep, ErrorCode>(UndelegateStep::Undelegate { item: items@[0] })
                    },
                _ => r == Err::<UndelegateStep, ErrorCode>(ErrorCode::FundOperationCommandExecutionFailedException),
            },
    {
        if vaults.len() == 0 {
            return Ok(UndelegateStep::Done);
        }
        if items.len() == 0 {
            return Ok(UndelegateStep::MoveOn);
        }
        match first_vault_source {
            Some(TokenPricingSource::JitoRestakingVault { address }) => {
                if account_keys.len() < 6 {
                    return Err(ErrorCode::AccountNotEnoughKeys);
                }
                if account_keys[2] != address || account_keys[5] != fund_account {
                    return Err(ErrorCode::RequireKeysEqViolated);
                }
                Ok(UndelegateStep::Undelegate { item: items[0] })
            },
            _ => Err(ErrorCode::FundOperationCommandExecutionFailedException),
        }
    }

    /// After an undelegation was requested the command goes on at once: when
    /// it was the vault's last item the vault's items are planned again;
    /// otherwise `Prepare` goes on with the items after the second one (the
    /// second one is passed over).
    pub fn after_undelegation(vaults: Vec<Pubkey>, items: &Vec<UndelegateVSTCommandItem>) -> (r: UndelegateVSTCommandState)
        requires
            items.len() > 0,
        ensures
            items.len() == 1 ==> (r matches UndelegateVSTCommandState::PrepareItems { vaults: v } && v@ == vaults@),
            items.len() > 1 ==> (r matches UndelegateVSTCommandState::Prepare { vaults: v, items: it }
                && v@ == vaults@ && it@ == items@.skip(2)),
    {
        if items.len() == 1 {
            UndelegateVSTCommandState::PrepareItems { vaults }
        } else {
            let rest = skip_first(&skip_first(items));
            assert(rest@ =~= items@.skip(2));
            UndelegateVSTCommandState::Prepare { vaults, items: rest }
        }
    }
}

/// The bookkeeping of one operator's delegation in a vault.
#[derive(Clone, Copy, PartialEq, Eq, Structural, Debug)]
pub struct UndelegationBook {
    /// The vault's reserved receipt tokens.
    pub receipt_token_operation_reserved_amount: u64,
    pub supported_token_delegated_amount: u64,
    pub supported_token_undelegating_amount: u64,
}

/// The bookkeeping after an undelegation request: the amount leaves the
/// operator's delegation and becomes undelegating, and the vault's reserve grows by it.
pub open spec fn spec_apply_undelegation(book: UndelegationBook, item: UndelegateVSTCommandItem) -> UndelegationBook {
    UndelegationBook {
        receipt_token_operation_reserved_amount: (book.receipt_token_operation_reserved_amount + item.undelegation_amount) as u64,
        supported_token_delegated_amount: (book.supported_token_delegated_amount - item.undelegation_amount) as u64,
        supported_token_undelegating_amount: (book.supported_token_undelegating_amount + item.undelegation_amount) as u64,
    }
}

/// The `Execute` step's bookkeeping once the vault accepted the request.
pub fn apply_undelegation(book: UndelegationBook, item: UndelegateVSTCommandItem, vault_supported_token_mint: Pubkey)
    -> (r: (UndelegationBook, UndelegateVSTCommandResult))
    requires
        item.undelegation_amount <= book.supported_token_delegated_amount,
        book.receipt_token_operation_reserved_amount + item.undelegation_amount <= u64::MAX,
        book.supported_token_undelegating_amount + item.undelegation_amount <= u64::MAX,
    ensures
        r.0 == spec_apply_undelegation(book, item),
        r.0.supported_token_delegated_amount + item.undelegation_amount == book.supported_token_delegated_amount,
        r.0.supported_token_undelegating_amount == book.supported_token_undelegating_amount + item.undelegation_amount,
        r.0.receipt_token_operation_reserved_amount == book.receipt_token_operation_reserved_amount + item.undelegation_amount,
        r.1 == (UndelegateVSTCommandResult {
            vault_supported_token_mint,
            requested_undelegation_token_amount: item.undelegation_amount,
            total_delegated_token_amount: r.0.supported_token_delegated_amount,
            total_undelegating_token_amount: r.0.supported_token_undelegating_amount,
        }),
{
    let nb = UndelegationBook {
        receipt_token_operation_reserved_amount: book.receipt_token_operation_reserved_amount + item.undelegation_amount,
        supported_token_delegated_amount: book.supported_token_delegated_amount - item.undelegation_amount,
        supported_token_undelegating_amount: book.supported_token_undelegating_amount + item.undelegation_amount,
    };
    (nb, UndelegateVSTCommandResult {
        vault_supported_token_mint,
        requested_undelegation_token_amount: item.undelegation_amount,
        total_delegated_token_amount: nb.supported_token_delegated_amount,
        total_undelegating_token_amount: nb.supported_token_undelegating_amount,
    })
}

/// An undelegation moves tokens from delegated to undelegating: their sum
/// stays the same, and the vault's reserve grows by exactly the amount.
pub proof fn lemma_undelegation_keeps_operator_total(book: UndelegationBook, item: UndelegateVSTCommandItem)
    requires
        item.undelegation_amount <= book.supported_token_delegated_amount,
        book.receipt_token_operation_reserved_amount + item.undelegation_amount <= u64::MAX,
        book.supported_token_undelegating_amount + item.undelegation_amount <= u64::MAX,
    ensures
        spec_apply_undelegation(book, item).supported_token_delegated_amount
            + spec_apply_undelegation(book, item).supported_token_undelegating_amount
            == book.supported_token_delegated_amount + book.supported_token_undelegating_amount,
        spec_apply_undelegation(book, item).receipt_token_operation_reserved_amount
            == book.receipt_token_operation_reserved_amount + item.undelegation_amount,
{
}

} // verus!
