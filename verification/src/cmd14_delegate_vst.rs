use vstd::prelude::*;
use crate::errors::ErrorCode;
use crate::iteration::{skip_first, skip_n, spec_batch_size as batch_size_of};
use crate::pricing::{spec_vault_kind, TokenPricingSource, VaultKind};
use crate::pubkey::Pubkey;

verus! {

/// At most this many operators get a delegation in one `Execute` step.
pub const RESTAKING_VAULT_DELEGATE_BATCH_SIZE: usize = 6;

/// Delegating less than this many supported tokens to an operator is not worth it.
pub const DELEGATION_MINIMUM_ALLOCATED_TOKEN_AMOUNT: u64 = 1_000_000_000;

/// One delegation to make: `allocated_supported_token_amount` more tokens to `operator`.
#[derive(Clone, Copy, PartialEq, Eq, Structural, Debug)]
pub struct DelegateVSTCommandItem {
    pub operator: Pubkey,
    pub allocated_supported_token_amount: u64,
}

/// Where the delegation command stands: the vaults still to visit (the first
/// is the current one) and, while delegating, the operators still to serve.
#[derive(Clone, Debug)]
pub enum DelegateVSTCommandState {
    New,
    Prepare { vaults: Vec<Pubkey> },
    Execute { vaults: Vec<Pubkey>, items: Vec<DelegateVSTCommandItem> },
}

/// Delegates the supported tokens that restaking vaults hold to their operators,
/// vault by vault, a batch of operators at a time.
#[derive(Clone, Debug)]
pub struct DelegateVSTCommand {
    pub state: DelegateVSTCommandState,
}

impl Default for DelegateVSTCommand {
    fn default() -> (r: Self)
        ensures
            r.state is New,
    {
        DelegateVSTCommand { state: DelegateVSTCommandState::New }
    }
}

/// One delegation made.
#[derive(Clone, Copy, PartialEq, Eq, Structural, Debug)]
pub struct DelegateVSTCommandResultDelegated {
    pub operator: Pubkey,
    pub delegated_token_amount: u64,
    pub total_delegated_token_amount: u64,
}

/// The delegations one `Execute` step made in one vault.
#[derive(Clone, Debug)]
pub struct DelegateVSTCommandResult {
    pub vault: Pubkey,
    pub delegations: Vec<DelegateVSTCommandResultDelegated>,
}

/// The vault kinds this command visits (Jito delegates; Solv and virtual vaults are passed over).
pub open spec fn is_restaking_vault(source: Option<TokenPricingSource>) -> bool {
    spec_vault_kind(source) is Some
}

/// `r` is what handing over to the `Prepare` step of `vaults` gives, the first
/// vault priced by `source`: nothing when no vault is left, the `Prepare`
/// step when the first one is a restaking vault, an error otherwise.
pub open spec fn is_prepare_command_for(
    r: Result<Option<DelegateVSTCommand>, ErrorCode>,
    vaults: Seq<Pubkey>,
    source: Option<TokenPricingSource>,
) -> bool {
    if vaults.len() == 0 {
        r == Ok::<Option<DelegateVSTCommand>, ErrorCode>(None)
    } else if is_restaking_vault(source) {
        r matches Ok(Some(c)) && c.state matches DelegateVSTCommandState::Prepare { vaults: v } && v@ == vaults
    } else {
        r == Err::<Option<DelegateVSTCommand>, ErrorCode>(ErrorCode::FundOperationCommandExecutionFailedException)
    }
}

/// The items of a vault: each operator with what the allocation strategy put
/// to it, keeping only those worth at least the minimum, in order.
pub open spec fn spec_plan_items(operators: Seq<Pubkey>, put_amounts: Seq<u64>) -> Seq<DelegateVSTCommandItem>
    decreases operators.len(),
{
    if operators.len() == 0 {
        Seq::empty()
    } else {
        let prev = spec_plan_items(operators.drop_last(), put_amounts.take(operators.len() - 1));
        let amount = put_amounts[operators.len() - 1];
        if amount >= DELEGATION_MINIMUM_ALLOCATED_TOKEN_AMOUNT {
            prev.push(DelegateVSTCommandItem { operator: operators.last(), allocated_supported_token_amount: amount })
        } else {
            prev
        }
    }
}

/// The planned delegations are the amounts put to the operators that reach
/// the minimum, each carried by its own operator, in the operators' order:
/// the returned positions pick, for each item, the operator and the amount at
/// the same position; they increase; and every position whose amount reaches
/// the minimum is picked.
pub proof fn lemma_plan_items_pair_operators_with_their_amounts(operators: Seq<Pubkey>, put_amounts: Seq<u64>) -> (positions: Seq<int>)
    requires
        operators.len() == put_amounts.len(),
    ensures
        ({
            let items = spec_plan_items(operators, put_amounts);
            &&& positions.len() == items.len()
            &&& forall|k: int| 0 <= k < positions.len() ==> {
                &&& 0 <= #[trigger] positions[k] < operators.len()
                &&& items[k].operator == operators[positions[k]]
                &&& items[k].allocated_supported_token_amount == put_amounts[positions[k]]
            }
            &&& forall|k1: int, k2: int| 0 <= k1 < k2 < positions.len() ==> #[trigger] positions[k1] < #[trigger] positions[k2]
            &&& forall|j: int| 0 <= j < operators.len() ==>
                (put_amounts[j] >= DELEGATION_MINIMUM_ALLOCATED_TOKEN_AMOUNT <==> exists|k: int| 0 <= k < positions.len() && positions[k] == j)
        }),
    decreases operators.len(),
{
    if operators.len() == 0 {
        Seq::empty()
    } else {
        let n = operators.len() - 1;
        let ops = operators.drop_last();
        let puts = put_amounts.take(n);
        let prev_positions = lemma_plan_items_pair_operators_with_their_amounts(ops, puts);
        let prev = spec_plan_items(ops, puts);
        let items = spec_plan_items(operators, put_amounts);
        assert forall|i: int| 0 <= i < n implies ops[i] == operators[i] && puts[i] == put_amounts[i] by {}
        if put_amounts[n] >= DELEGATION_MINIMUM_ALLOCATED_TOKEN_AMOUNT {
            let positions = prev_positions.push(n);
            assert(items == prev.push(DelegateVSTCommandItem { operator: operators.last(), allocated_supported_token_amount: put_amounts[n] }));
            assert forall|k: int| 0 <= k < positions.len() implies {
                &&& 0 <= #[trigger] positions[k] < operators.len()
                &&& items[k].operator == operators[positions[k]]
                &&& items[k].allocated_supported_token_amount == put_amounts[positions[k]]
            } by {
                if k < prev_positions.len() {
                    assert(positions[k] == prev_positions[k]);
                    assert(items[k] == prev[k]);
                }
            }
            assert forall|j: int| 0 <= j < operators.len() implies
                (put_amounts[j] >= DELEGATION_MINIMUM_ALLOCATED_TOKEN_AMOUNT <==> exists|k: int| 0 <= k < positions.len() && positions[k] == j) by {
                if j < n {
                    if put_amounts[j] >= DELEGATION_MINIMUM_ALLOCATED_TOKEN_AMOUNT {
                        assert(puts[j] >= DELEGATION_MINIMUM_ALLOCATED_TOKEN_AMOUNT);
                        let k = choose|k: int| 0 <= k < prev_positions.len() && prev_positions[k] == j;
                        assert(positions[k] == j);
                    }
                    if exists|k: int| 0 <= k < positions.len() && positions[k] == j {
                        let k = choose|k: int| 0 <= k < positions.len() && positions[k] == j;
                        assert(k < prev_positions.len());
                        assert(prev_positions[k] == j);
                        assert(puts[j] >= DELEGATION_MINIMUM_ALLOCATED_TOKEN_AMOUNT);
                    }
                } else {
                    assert(positions[prev_positions.len() as int] == j);
                }
            }
            positions
        } else {
            assert(items == prev);
            assert forall|j: int| 0 <= j < operators.len() implies
                (put_amounts[j] >= DELEGATION_MINIMUM_ALLOCATED_TOKEN_AMOUNT <==> exists|k: int| 0 <= k < prev_positions.len() && prev_positions[k] == j) by {
                if j < n {
                    assert(puts[j] == put_amounts[j]);
                } else {
                    if exists|k: int| 0 <= k < prev_positions.len() && prev_positions[k] == j {
                        let k = choose|k: int| 0 <= k < prev_positions.len() && prev_positions[k] == j;
                        assert(prev_positions[k] < ops.len());
                    }
                }
            }
            prev_positions
        }
    }
}

/// How many of `n` remaining items one `Execute` step serves.
pub open spec fn spec_batch_size(n: int) -> int {
    batch_size_of(n, RESTAKING_VAULT_DELEGATE_BATCH_SIZE as int)
}

impl DelegateVSTCommand {
    /// Hands over to the `Prepare` step of `vaults` (the `New` step passes all
    /// of the fund's restaking vaults); the first vault's receipt token is
    /// priced by `first_vault_source`.
    pub fn create_prepare_command(vaults: Vec<Pubkey>, first_vault_source: Option<TokenPricingSource>)
        -> (r: Result<Option<DelegateVSTCommand>, ErrorCode>)
        ensures
            is_prepare_command_for(r, vaults@, first_vault_source),
    {
        if vaults.len() == 0 {
            return Ok(None);
        }
        match first_vault_source {
            Some(TokenPricingSource::JitoRestakingVault { .. })
            | Some(TokenPricingSource::SolvBTCVault { .. })
            | Some(TokenPricingSource::VirtualVault { .. }) => {
                Ok(Some(DelegateVSTCommand { state: DelegateVSTCommandState::Prepare { vaults } }))
            },
            _ => Err(ErrorCode::FundOperationCommandExecutionFailedException),
        }
    }

    /// The delegation items of a Jito vault from the amounts its weighted
    /// allocation strategy put to each operator.
    pub fn plan_items(operators: &Vec<Pubkey>, put_amounts: &Vec<u64>) -> (items: Vec<DelegateVSTCommandItem>)
        requires
            operators.len() == put_amounts.len(),
        ensures
            items@ == spec_plan_items(operators@, put_amounts@),
            forall|i: int| 0 <= i < items.len() ==>
                #[trigger] items@[i].allocated_supported_token_amount >= DELEGATION_MINIMUM_ALLOCATED_TOKEN_AMOUNT,
            forall|i: int| 0 <= i < items.len() ==> exists|j: int| 0 <= j < operators.len()
                && (#[trigger] items@[i]).operator == operators@[j] && items@[i].allocated_supported_token_amount == put_amounts@[j],
    {
        let mut items: Vec<DelegateVSTCommandItem> = Vec::new();
        let mut k: usize = 0;
        while k < operators.len()
            invariant
                k <= operators.len(),
                operators.len() == put_amounts.len(),
                items@ == spec_plan_items(operators@.take(k as int), put_amounts@.take(k as int)),
                forall|i: int| 0 <= i < items.len() ==>
                    #[trigger] items@[i].allocated_supported_token_amount >= DELEGATION_MINIMUM_ALLOCATED_TOKEN_AMOUNT,
            decreases operators.len() - k,
        {
            proof {
                let o = operators@.take(k as int + 1);
                assert(o.drop_last() =~= operators@.take(k as int));
                assert(put_amounts@.take(k as int + 1).take(k as int) =~= put_amounts@.take(k as int));
            }
            if put_amounts[k] >= DELEGATION_MINIMUM_ALLOCATED_TOKEN_AMOUNT {
                items.push(DelegateVSTCommandItem { operator: operators[k], allocated_supported_token_amount: put_amounts[k] });
            }
            k += 1;
        }
        proof {
            assert(operators@.take(operators.len() as int) =~= operators@);
            assert(put_amounts@.take(operators.len() as int) =~= put_amounts@);
            let positions = lemma_plan_items_pair_operators_with_their_amounts(operators@, put_amounts@);
            assert forall|i: int| 0 <= i < items.len() implies exists|j: int| 0 <= j < operators.len()
                && (#[trigger] items@[i]).operator == operators@[j] && items@[i].allocated_supported_token_amount == put_amounts@[j] by {
                let j = positions[i];
                assert(0 <= j < operators.len());
            }
        }
        items
    }

    /// The `Prepare` step on the first of `vaults`. For a Jito vault the
    /// accounts handed over must hold the vault account third; its planned
    /// `items` then go to `Execute`, or, when there are none, the next vault
    /// (priced by `second_vault_source`) is prepared. Solv and virtual vaults
    /// are passed over the same way; any other vault fails.
    pub fn execute_prepare(
        vaults: &Vec<Pubkey>,
        first_vault_source: Option<TokenPricingSource>,
        account_keys: &Vec<Pubkey>,
        items: Vec<DelegateVSTCommandItem>,
        second_vault_source: Option<TokenPricingSource>,
    ) -> (r: Result<Option<DelegateVSTCommand>, ErrorCode>)
        ensures
            vaults.len() == 0 ==> r == Ok::<Option<DelegateVSTCommand>, ErrorCode>(None),
            vaults.len() > 0 && !is_restaking_vault(first_vault_source) ==>
                r == Err::<Option<DelegateVSTCommand>, ErrorCode>(ErrorCode::FundOperationCommandExecutionFailedException),
            vaults.len() > 0 ==> match first_vault_source {
                Some(TokenPricingSource::JitoRestakingVault { address }) =>
                    if account_keys.len() < 3 {
                        r == Err::<Option<DelegateVSTCommand>, ErrorCode>(ErrorCode::AccountNotEnoughKeys)
                    } else if account_keys@[2] != address {
                        r == Err::<Option<DelegateVSTCommand>, ErrorCode>(ErrorCode::RequireKeysEqViolated)
                    } else if items.len() > 0 {
                        r matches Ok(Some(c)) && c.state matches DelegateVSTCommandState::Execute { vaults: v, items: it }
                            && v@ == vaults@ && it@ == items@
                    } else {
                        is_prepare_command_for(r, vaults@.drop_first(), second_vault_source)
                    },
                _ => true,
            },
            vaults.len() > 0 && (spec_vault_kind(first_vault_source) == Some(VaultKind::SolvBTC)
                || spec_vault_kind(first_vault_source) == Some(VaultKind::Virtual)) ==>
                is_prepare_command_for(r, vaults@.drop_first(), second_vault_source),
    {
        if vaults.len() == 0 {
            return Ok(None);
        }
        match first_vault_source {
            Some(TokenPricingSource::JitoRestakingVault { address }) => {
                if account_keys.len() < 3 {
                    return Err(ErrorCode::AccountNotEnoughKeys);
                }
                if account_keys[2] != address {
                    return Err(ErrorCode::RequireKeysEqViolated);
                }
                if items.len() == 0 {
                    return Self::create_prepare_command(skip_first(vaults), second_vault_source);
                }
                Ok(Some(DelegateVSTCommand { state: DelegateVSTCommandState::Execute { vaults: vaults.clone(), items } }))
            },
            Some(TokenPricingSource::SolvBTCVault { .. }) | Some(TokenPricingSource::VirtualVault { .. }) => {
                Self::create_prepare_command(skip_first(vaults), second_vault_source)
            },
            _ => Err(ErrorCode::FundOperationCommandExecutionFailedException),
        }
    }
}

/// What an `Execute` step does, once its accounts are checked.
#[derive(Clone, Copy, PartialEq, Eq, Structural, Debug)]
pub enum DelegateStep {
    /// No vault is left: the command is over.
    Done,
    /// Nothing to delegate in the current vault: prepare the next one.
    MoveOn,
    /// Delegate to the first `batch_size` operators of the items.
    Delegate { batch_size: usize },
}

/// Every operator account of the batch is the item's operator: the accounts
/// after the vault's three come in pairs (delegation account, operator).
pub open spec fn operators_match(account_keys: Seq<Pubkey>, items: Seq<DelegateVSTCommandItem>, batch: int) -> bool {
    forall|i: int| 0 <= i < batch ==> account_keys[3 + 2 * i + 1] == #[trigger] items[i].operator
}

/// The `Execute` step's checks on the first of `vaults`, with its remaining
/// `items` and the accounts handed over.
pub fn plan_execute(
    vaults: &Vec<Pubkey>,
    items: &Vec<DelegateVSTCommandItem>,
    first_vault_source: Option<TokenPricingSource>,
    account_keys: &Vec<Pubkey>,
) -> (r: Result<DelegateStep, ErrorCode>)
    ensures
        vaults.len() == 0 ==> r == Ok::<DelegateStep, ErrorCode>(DelegateStep::Done),
        vaults.len() > 0 && items.len() == 0 ==> r == Ok::<DelegateStep, ErrorCode>(DelegateStep::MoveOn),
        vaults.len() > 0 && items.len() > 0 ==> {
            let batch = spec_batch_size(items.len() as int);
            match first_vault_source {
                Some(TokenPricingSource::JitoRestakingVault { address }) =>
                    if account_keys.len() < 3 {
                        r == Err::<DelegateStep, ErrorCode>(ErrorCode::AccountNotEnoughKeys)
                    } else if account_keys@[2] != address {
                        r == Err::<DelegateStep, ErrorCode>(ErrorCode::RequireKeysEqViolated)
                    } else if account_keys.len() - 3 < 2 * batch {
                        r == Err::<DelegateStep, ErrorCode>(ErrorCode::AccountNotEnoughKeys)
                    } else if !operators_match(account_keys@, items@, batch) {
                        r == Err::<DelegateStep, ErrorCode>(ErrorCode::RequireKeysEqViolated)
                    } else {
                        r == Ok::<DelegateStep, ErrorCode>(DelegateStep::Delegate { batch_size: batch as usize })
                    },
                Some(TokenPricingSource::SolvBTCVault { .. }) | Some(TokenPricingSource::VirtualVault { .. }) =>
                    r == Ok::<DelegateStep, ErrorCode>(DelegateStep::MoveOn),
                _ => r == Err::<DelegateStep, ErrorCode>(ErrorCode::FundOperationCommandExecutionFailedException),
            }
        },
{
    if vaults.len() == 0 {
        return Ok(DelegateStep::Done);
    }
    if items.len() == 0 {
        return Ok(DelegateStep::MoveOn);
    }
    let batch = if items.len() < RESTAKING_VAULT_DELEGATE_BATCH_SIZE { items.len() } else { RESTAKING_VAULT_DELEGATE_BATCH_SIZE };
    match first_vault_source {
        Some(TokenPricingSource::JitoRestakingVault { address }) => {
            if account_keys.len() < 3 {
                return Err(ErrorCode::AccountNotEnoughKeys);
            }
            if account_keys[2] != address {
                return Err(ErrorCode::RequireKeysEqViolated);
            }
            if account_keys.len() - 3 < 2 * batch {
                return Err(ErrorCode::AccountNotEnoughKeys);
            }
            let mut i: usize = 0;
            while i < batch
                invariant
                    i <= batch,
                    batch <= items.len(),
                    batch == spec_batch_size(items.len() as int),
                    vaults.len() > 0,
                    items.len() > 0,
                    first_vault_source == Some(TokenPricingSource::JitoRestakingVault { address }),
                    account_keys@[2] == address,
                    account_keys.len() >= 3 + 2 * batch,
                    forall|j: int| 0 <= j < i ==> account_keys@[3 + 2 * j + 1] == #[trigger] items@[j].operator,
                decreases batch - i,
            {
                if account_keys[3 + 2 * i + 1] != items[i].operator {
                    return Err(ErrorCode::RequireKeysEqViolated);
                }
                i += 1;
            }
            Ok(DelegateStep::Delegate { batch_size: batch })
        },
        Some(TokenPricingSource::SolvBTCVault { .. }) | Some(TokenPricingSource::VirtualVault { .. }) => {
            Ok(DelegateStep::MoveOn)
        },
        _ => Err(ErrorCode::FundOperationCommandExecutionFailedException),
    }
}

/// After the vault accepted the batch's delegations: the result (each
/// operator's delegated amount grows by its item's amount, from
/// `delegated_before`) and the next step, which serves the rest of the items
/// or, when the batch was the last, prepares the next vault.
pub fn finish_execute(
    vaults: &Vec<Pubkey>,
    items: &Vec<DelegateVSTCommandItem>,
    batch_size: usize,
    delegated_before: &Vec<u64>,
    second_vault_source: Option<TokenPricingSource>,
) -> (r: Result<(DelegateVSTCommandResult, Option<DelegateVSTCommand>), ErrorCode>)
    requires
        vaults.len() > 0,
        items.len() > 0,
        batch_size == spec_batch_size(items.len() as int),
        delegated_before.len() == batch_size,
        forall|i: int| 0 <= i < batch_size ==>
            #[trigger] delegated_before@[i] + items@[i].allocated_supported_token_amount <= u64::MAX,
    ensures
        r matches Ok((res, _)) ==> res.vault == vaults@[0] && res.delegations.len() == batch_size
            && forall|i: int| 0 <= i < batch_size ==> #[trigger] res.delegations@[i] == (DelegateVSTCommandResultDelegated {
                operator: items@[i].operator,
                delegated_token_amount: items@[i].allocated_supported_token_amount,
                total_delegated_token_amount: (delegated_before@[i] + items@[i].allocated_supported_token_amount) as u64,
            }),
        batch_size < items.len() ==> (r matches Ok((_, Some(c)))
            && c.state matches DelegateVSTCommandState::Execute { vaults: v, items: it }
            && v@ == vaults@ && it@ == items@.skip(batch_size as int)),
        batch_size == items.len() ==> (r is Ok <==> (vaults.len() == 1 || is_restaking_vault(second_vault_source))),
        batch_size == items.len() ==> (r matches Ok((_, next)) ==> is_prepare_command_for(
            Ok::<Option<DelegateVSTCommand>, ErrorCode>(next), vaults@.drop_first(), second_vault_source)),
        r is Err ==> r == Err::<(DelegateVSTCommandResult, Option<DelegateVSTCommand>), ErrorCode>(
            ErrorCode::FundOperationCommandExecutionFailedException),
{
    let mut delegations: Vec<DelegateVSTCommandResultDelegated> = Vec::new();
    let mut i: usize = 0;
    while i < batch_size
        invariant
            i <= batch_size,
            batch_size <= items.len(),
            delegated_before.len() == batch_size,
            delegations.len() == i,
            forall|j: int| 0 <= j < batch_size ==>
                #[trigger] delegated_before@[j] + items@[j].allocated_supported_token_amount <= u64::MAX,
            forall|j: int| 0 <= j < i ==> #[trigger] delegations@[j] == (DelegateVSTCommandResultDelegated {
                operator: items@[j].operator,
                delegated_token_amount: items@[j].allocated_supported_token_amount,
                total_delegated_token_amount: (delegated_before@[j] + items@[j].allocated_supported_token_amount) as u64,
            }),
        decreases batch_size - i,
    {
        let it = items[i];
        delegations.push(DelegateVSTCommandResultDelegated {
            operator: it.operator,
            delegated_token_amount: it.allocated_supported_token_amount,
            total_delegated_token_amount: delegated_before[i] + it.allocated_supported_token_amount,
        });
        i += 1;
    }
    let result = DelegateVSTCommandResult { vault: vaults[0], delegations };
    if batch_size < items.len() {
        let rest = skip_n(items, batch_size);
        Ok((result, Some(DelegateVSTCommand { state: DelegateVSTCommandState::Execute { vaults: vaults.clone(), items: rest } })))
    } else {
        match DelegateVSTCommand::create_prepare_command(skip_first(vaults), second_vault_source) {
            Ok(next) => Ok((result, next)),
            Err(e) => Err(e),
        }
    }
}

} // verus!
