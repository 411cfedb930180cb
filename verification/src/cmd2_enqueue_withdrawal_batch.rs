use vstd::prelude::*;

verus! {

/// Where the enqueueing command stands (it has one step).
#[derive(Clone, Copy, PartialEq, Eq, Structural, Debug)]
pub enum EnqueueWithdrawalBatchCommandState {
    New,
    Unused { unused: bool },
}

/// Moves pending withdrawal requests into the fund's processing queue;
/// `forced` enqueues even when the fund's schedule would wait.
#[derive(Clone, Copy, PartialEq, Eq, Structural, Debug)]
pub struct EnqueueWithdrawalBatchCommand {
    pub state: EnqueueWithdrawalBatchCommandState,
    pub forced: bool,
}

impl Default for EnqueueWithdrawalBatchCommand {
    fn default() -> (r: Self)
        ensures
            r.state == EnqueueWithdrawalBatchCommandState::New,
            !r.forced,
    {
        EnqueueWithdrawalBatchCommand { state: EnqueueWithdrawalBatchCommandState::New, forced: false }
    }
}

/// What enqueueing did.
#[derive(Clone, Copy, PartialEq, Eq, Structural, Debug)]
pub struct EnqueueWithdrawalBatchCommandResult {
    pub enqueued_receipt_token_amount: u64,
    pub total_queued_receipt_token_amount: u64,
}

/// The step's result: reported only when something was enqueued.
pub fn enqueue_result(enqueued_receipt_token_amount: u64, total_queued_receipt_token_amount: u64)
    -> (r: Option<EnqueueWithdrawalBatchCommandResult>)
    ensures
        enqueued_receipt_token_amount == 0 ==> r is None,
        enqueued_receipt_token_amount > 0 ==> r == Some(EnqueueWithdrawalBatchCommandResult {
            enqueued_receipt_token_amount,
            total_queued_receipt_token_amount,
        }),
{
    if enqueued_receipt_token_amount > 0 {
        Some(EnqueueWithdrawalBatchCommandResult { enqueued_receipt_token_amount, total_queued_receipt_token_amount })
    } else {
        None
    }
}

} // verus!
