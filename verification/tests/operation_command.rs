use fund_commands::cmd11_stake_sol::StakeSOLCommandState;
use fund_commands::cmd2_enqueue_withdrawal_batch::EnqueueWithdrawalBatchCommandState;
use fund_commands::cmd3_claim_unrestaked_vst::ClaimUnrestakedVSTCommandState;
use fund_commands::cmd10_undelegate_vst::UndelegateVSTCommandState;
use fund_commands::cmd9_unrestake_vrt::UnrestakeVRTCommand;
use fund_commands::cmd13_restake_vst::RestakeVSTCommand;
use fund_commands::cmd14_delegate_vst::DelegateVSTCommand;
use fund_commands::cmd1_initialize::InitializeCommand;
use fund_commands::cmd2_enqueue_withdrawal_batch::EnqueueWithdrawalBatchCommand;
use fund_commands::cmd9_process_withdrawal_batch::ProcessWithdrawalBatchCommand;
use fund_commands::errors::ErrorCode;
use fund_commands::operation_command::{
    metas_from_pairs, next_entry, OperationCommand, OperationCommandAccountMeta, OperationCommandAccountMetaPod,
    OperationCommandEntry, OperationCommandEntryPod, OperationCommandPod, FUND_ACCOUNT_OPERATION_COMMAND_BUFFER_SIZE,
    FUND_ACCOUNT_OPERATION_COMMAND_MAX_ACCOUNT_SIZE,
};
use fund_commands::pubkey::Pubkey;

fn key(n: u64) -> Pubkey {
    Pubkey::new(n, 0, 0, n)
}

#[test]
fn discriminants_and_names() {
    let init = OperationCommand::Initialize(InitializeCommand::default());
    assert_eq!(init.discriminant(), 1);
    assert_eq!(init.kind_name(), "Initialize");
    let enqueue = OperationCommand::EnqueueWithdrawalBatch(EnqueueWithdrawalBatchCommand::default());
    assert_eq!(enqueue.discriminant(), 2);
    assert_eq!(enqueue.kind_name(), "EnqueueWithdrawalBatch");
    let process = OperationCommand::ProcessWithdrawalBatch(ProcessWithdrawalBatchCommand::default());
    assert_eq!(process.discriminant(), 6);
    let restake = OperationCommand::RestakeVST(RestakeVSTCommand::default());
    assert_eq!(restake.discriminant(), 13);
    assert_eq!(restake.kind_name(), "RestakeVST");
    let delegate = OperationCommand::DelegateVST(DelegateVSTCommand::default());
    assert_eq!(delegate.discriminant(), 14);
    assert!(init.is_safe_with_unchecked_params());
    assert!(enqueue.is_safe_with_unchecked_params());
    assert!(process.is_safe_with_unchecked_params());
    assert!(!restake.is_safe_with_unchecked_params());
    assert!(!delegate.is_safe_with_unchecked_params());
}

#[test]
fn account_meta_pod_roundtrip() {
    let meta = OperationCommandAccountMeta::new(key(7), true);
    let mut pod = OperationCommandAccountMetaPod::zeroed();
    meta.serialize_as_pod(&mut pod);
    assert_eq!(pod.is_writable, 1);
    assert_eq!(pod.deserialize(), meta);
    let readonly = OperationCommandAccountMeta::new(key(8), false);
    readonly.serialize_as_pod(&mut pod);
    assert_eq!(pod.is_writable, 0);
    assert_eq!(pod.deserialize(), readonly);
    let odd = OperationCommandAccountMetaPod { pubkey: key(9), is_writable: 2 };
    assert!(!odd.deserialize().is_writable);
}

#[test]
fn metas_keep_order() {
    let metas = metas_from_pairs(&vec![(key(1), true), (key(2), false)]);
    assert_eq!(metas, vec![OperationCommandAccountMeta::new(key(1), true), OperationCommandAccountMeta::new(key(2), false)]);
}

#[test]
fn command_pod_roundtrip() {
    let mut pod = OperationCommandPod::zeroed();
    assert!(pod.is_none());
    assert_eq!(pod.discriminant(), None);
    let command = OperationCommand::EnqueueWithdrawalBatch(EnqueueWithdrawalBatchCommand::default());
    let encoded = vec![1u8, 0, 0];
    assert_eq!(command.serialize_as_pod(&mut pod, &encoded), Ok(()));
    assert_eq!(pod.discriminant(), Some(2));
    assert_eq!(&pod.buffer()[..3], &[1u8, 0, 0]);
    assert!(pod.buffer()[3..].iter().all(|b| *b == 0));
    match pod.try_deserialize(Ok(command.clone())) {
        Ok(Some(c)) => assert_eq!(c.discriminant(), 2),
        other => panic!("unexpected {:?}", other.map(|c| c.map(|c| c.discriminant()))),
    }
    let wrong = OperationCommand::Initialize(InitializeCommand::default());
    assert!(matches!(pod.try_deserialize(Ok(wrong)), Err(ErrorCode::InvalidAccountData)));
    assert!(matches!(pod.try_deserialize(Err(ErrorCode::BorshIoError)), Err(ErrorCode::BorshIoError)));
    pod.set_none();
    assert!(pod.is_none());
    assert!(matches!(pod.try_deserialize(Ok(command)), Ok(None)));
}

#[test]
fn command_too_large_for_buffer() {
    let mut pod = OperationCommandPod::zeroed();
    let command = OperationCommand::Initialize(InitializeCommand::default());
    let encoded = vec![7u8; FUND_ACCOUNT_OPERATION_COMMAND_BUFFER_SIZE + 1];
    assert_eq!(command.serialize_as_pod(&mut pod, &encoded), Err(ErrorCode::BorshIoError));
    assert_eq!(pod.buffer().len(), FUND_ACCOUNT_OPERATION_COMMAND_BUFFER_SIZE);
    assert!(pod.buffer().iter().all(|b| *b == 7));
    let exact = vec![3u8; FUND_ACCOUNT_OPERATION_COMMAND_BUFFER_SIZE];
    assert_eq!(command.serialize_as_pod(&mut pod, &exact), Ok(()));
}

#[test]
fn entry_pod_roundtrip() {
    let entry = OperationCommandEntry::with_required_accounts(
        OperationCommand::RestakeVST(RestakeVSTCommand::default()),
        &vec![(key(1), true), (key(2), false), (key(3), true)],
    );
    let mut pod = OperationCommandEntryPod::zeroed();
    assert!(pod.is_none());
    assert_eq!(entry.serialize_as_pod(&mut pod, &vec![12u8, 0]), Ok(()));
    assert_eq!(pod.discriminant(), Some(13));
    match pod.try_deserialize(Ok(entry.command.clone())) {
        Ok(Some(back)) => {
            assert_eq!(back.command.discriminant(), 13);
            assert_eq!(back.required_accounts, entry.required_accounts);
        },
        _ => panic!("entry did not read back"),
    }
    pod.set_none();
    assert!(pod.is_none());
    assert!(matches!(pod.try_deserialize(Ok(entry.command)), Ok(None)));
}

#[test]
fn entry_with_too_many_accounts() {
    let pairs: Vec<(Pubkey, bool)> = (0..(FUND_ACCOUNT_OPERATION_COMMAND_MAX_ACCOUNT_SIZE as u64 + 1)).map(|i| (key(i), false)).collect();
    let entry = OperationCommandEntry::with_required_accounts(OperationCommand::Initialize(InitializeCommand::default()), &pairs);
    let mut pod = OperationCommandEntryPod::zeroed();
    assert_eq!(entry.serialize_as_pod(&mut pod, &vec![0u8]), Err(ErrorCode::IndexOutOfBoundsException));
    assert!(pod.is_none());
    assert_eq!(OperationCommandEntry::MAX_ACCOUNT_SIZE, 32);
}

#[test]
fn default_entry_starts_the_cycle() {
    let entry = OperationCommandEntry::default();
    assert_eq!(entry.command.discriminant(), 1);
    assert!(entry.required_accounts.is_empty());
}

#[test]
fn cycle_hands_over() {
    let init = OperationCommand::Initialize(InitializeCommand::default());
    let next = next_entry(&init, None).unwrap();
    assert_eq!(next.command.discriminant(), 2);
    assert!(next.required_accounts.is_empty());
    let given = OperationCommandEntry::without_required_accounts(OperationCommand::RestakeVST(RestakeVSTCommand::default()));
    assert_eq!(next_entry(&init, Some(given)).unwrap().command.discriminant(), 13);
    let process = OperationCommand::ProcessWithdrawalBatch(ProcessWithdrawalBatchCommand::default());
    assert_eq!(next_entry(&process, None).unwrap().command.discriminant(), 10);
    let restake = OperationCommand::RestakeVST(RestakeVSTCommand::default());
    assert_eq!(next_entry(&restake, None).unwrap().command.discriminant(), 14);
    let delegate = OperationCommand::DelegateVST(DelegateVSTCommand::default());
    assert!(next_entry(&delegate, None).is_none());
}

#[test]
fn hand_over_starts_the_next_command_afresh() {
    let init = OperationCommand::Initialize(InitializeCommand::default());
    match next_entry(&init, None).unwrap().command {
        OperationCommand::EnqueueWithdrawalBatch(c) => {
            assert_eq!(c.state, EnqueueWithdrawalBatchCommandState::New);
            assert!(!c.forced);
        }
        _ => panic!("enqueueing follows initialization"),
    }
    let enqueue = OperationCommand::EnqueueWithdrawalBatch(EnqueueWithdrawalBatchCommand::default());
    match next_entry(&enqueue, None).unwrap().command {
        OperationCommand::ClaimUnrestakedVST(c) => assert_eq!(c.state, ClaimUnrestakedVSTCommandState::New),
        _ => panic!("claiming follows enqueueing"),
    }
    let process = OperationCommand::ProcessWithdrawalBatch(ProcessWithdrawalBatchCommand::default());
    match next_entry(&process, None).unwrap().command {
        OperationCommand::StakeSOL(c) => assert!(matches!(c.state, StakeSOLCommandState::New)),
        _ => panic!("staking follows processing"),
    }
    let unrestake = OperationCommand::UnrestakeVRT(UnrestakeVRTCommand::default());
    match next_entry(&unrestake, None).unwrap().command {
        OperationCommand::UndelegateVST(c) => assert!(matches!(c.state, UndelegateVSTCommandState::New)),
        _ => panic!("undelegation follows unrestaking"),
    }
}

#[test]
fn entry_pod_has_the_fixed_number_of_slots() {
    let pod = OperationCommandEntryPod::zeroed();
    assert_eq!(pod.num_slots(), FUND_ACCOUNT_OPERATION_COMMAND_MAX_ACCOUNT_SIZE);
}
