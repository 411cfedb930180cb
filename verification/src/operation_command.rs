use vstd::prelude::*;
use crate::cmd10_harvest_reward::{HarvestRewardCommand, HarvestRewardCommandResult};
use crate::cmd10_undelegate_vst::{UndelegateVSTCommand, UndelegateVSTCommandResult};
use crate::cmd11_stake_sol::{StakeSOLCommand, StakeSOLCommandResult};
use crate::cmd12_normalize_st::{NormalizeSTCommand, NormalizeSTCommandResult};
use crate::cmd13_restake_vst::{RestakeVSTCommand, RestakeVSTCommandResult};
use crate::cmd14_delegate_vst::{DelegateVSTCommand, DelegateVSTCommandResult};
use crate::cmd1_initialize::{InitializeCommand, InitializeCommandResult};
use crate::cmd2_enqueue_withdrawal_batch::{EnqueueWithdrawalBatchCommand, EnqueueWithdrawalBatchCommandResult};
use crate::cmd3_claim_unrestaked_vst::{ClaimUnrestakedVSTCommand, ClaimUnrestakedVSTCommandResult};
use crate::cmd4_denormalize_nt::{DenormalizeNTCommand, DenormalizeNTCommandResult};
use crate::cmd5_claim_unstaked_sol::{ClaimUnstakedSOLCommand, ClaimUnstakedSOLCommandResult};
use crate::cmd7_unstake_lst::{UnstakeLSTCommand, UnstakeLSTCommandResult};
use crate::cmd9_process_withdrawal_batch::{ProcessWithdrawalBatchCommand, ProcessWithdrawalBatchCommandResult};
use crate::cmd9_unrestake_vrt::{UnrestakeVRTCommand, UnrestakeVRTCommandResult};
use crate::errors::ErrorCode;
use crate::pubkey::Pubkey;

verus! {

/// An account a command step needs, and whether the step writes it.
#[derive(Clone, Copy, PartialEq, Eq, Structural, Debug)]
pub struct OperationCommandAccountMeta {
    pub pubkey: Pubkey,
    pub is_writable: bool,
}

impl OperationCommandAccountMeta {
    /// `OperationCommandAccountMeta::from((pubkey, is_writable))`.
    pub fn new(pubkey: Pubkey, is_writable: bool) -> (r: OperationCommandAccountMeta)
        ensures
            r == (OperationCommandAccountMeta { pubkey, is_writable }),
    {
        OperationCommandAccountMeta { pubkey, is_writable }
    }

    /// Writes the account into its fixed-size form: the writable flag as 1 or 0.
    pub fn serialize_as_pod(&self, pod: &mut OperationCommandAccountMetaPod)
        ensures
            final(pod).pubkey == self.pubkey,
            final(pod).is_writable == (if self.is_writable { 1u8 } else { 0u8 }),
    {
        pod.pubkey = self.pubkey;
        pod.is_writable = if self.is_writable { 1 } else { 0 };
    }
}

/// Fixed-size form of an `OperationCommandAccountMeta`.
#[derive(Clone, Copy, PartialEq, Eq, Structural, Debug)]
pub struct OperationCommandAccountMetaPod {
    pub pubkey: Pubkey,
    pub is_writable: u8,
}

impl OperationCommandAccountMetaPod {
    /// The all-zero form.
    pub fn zeroed() -> (r: OperationCommandAccountMetaPod)
        ensures
            r == (OperationCommandAccountMetaPod { pubkey: Pubkey::spec_zero(), is_writable: 0 }),
    {
        OperationCommandAccountMetaPod { pubkey: Pubkey::zero(), is_writable: 0 }
    }

    /// The all-zero form.
    pub open spec fn zeroed_spec() -> OperationCommandAccountMetaPod {
        OperationCommandAccountMetaPod { pubkey: Pubkey::spec_zero(), is_writable: 0 }
    }

    /// The account this form stands for.
    pub open spec fn spec_deserialize(self) -> OperationCommandAccountMeta {
        OperationCommandAccountMeta { pubkey: self.pubkey, is_writable: self.is_writable == 1 }
    }

    /// Reads the account back: writable exactly when the flag is 1.
    pub fn deserialize(&self) -> (r: OperationCommandAccountMeta)
        ensures
            r == self.spec_deserialize(),
    {
        OperationCommandAccountMeta { pubkey: self.pubkey, is_writable: self.is_writable == 1 }
    }
}

/// Reading back what was written gives the account again.
pub proof fn lemma_account_meta_roundtrip(meta: OperationCommandAccountMeta, pod: OperationCommandAccountMetaPod)
    requires
        pod.pubkey == meta.pubkey,
        pod.is_writable == (if meta.is_writable { 1u8 } else { 0u8 }),
    ensures
        pod.spec_deserialize() == meta,
{
}

/// The accounts of a list of `(pubkey, is_writable)` pairs, in order.
pub open spec fn spec_metas(pairs: Seq<(Pubkey, bool)>) -> Seq<OperationCommandAccountMeta> {
    pairs.map_values(|p: (Pubkey, bool)| OperationCommandAccountMeta { pubkey: p.0, is_writable: p.1 })
}

/// `required_accounts.into_iter().map(Into::into).collect()`.
pub fn metas_from_pairs(pairs: &Vec<(Pubkey, bool)>) -> (r: Vec<OperationCommandAccountMeta>)
    ensures
        r@ == spec_metas(pairs@),
{
    let mut r: Vec<OperationCommandAccountMeta> = Vec::new();
    let mut i: usize = 0;
    while i < pairs.len()
        invariant
            i <= pairs.len(),
            r@ == spec_metas(pairs@.take(i as int)),
        decreases pairs.len() - i,
    {
        let (k, w) = pairs[i];
        r.push(OperationCommandAccountMeta { pubkey: k, is_writable: w });
        i += 1;
        assert(r@ =~= spec_metas(pairs@.take(i as int)));
    }
    assert(pairs@.take(pairs.len() as int) =~= pairs@);
    r
}

/// One step of the fund's operation cycle: which command, in which state.
#[derive(Clone, Debug)]
pub enum OperationCommand {
    Initialize(InitializeCommand),
    EnqueueWithdrawalBatch(EnqueueWithdrawalBatchCommand),
    ClaimUnrestakedVST(ClaimUnrestakedVSTCommand),
    DenormalizeNT(DenormalizeNTCommand),
    ClaimUnstakedSOL(ClaimUnstakedSOLCommand),
    ProcessWithdrawalBatch(ProcessWithdrawalBatchCommand),
    UnstakeLST(UnstakeLSTCommand),
    UnrestakeVRT(UnrestakeVRTCommand),
    UndelegateVST(UndelegateVSTCommand),
    HarvestReward(HarvestRewardCommand),
    StakeSOL(StakeSOLCommand),
    NormalizeST(NormalizeSTCommand),
    RestakeVST(RestakeVSTCommand),
    DelegateVST(DelegateVSTCommand),
}

/// What one step of a command did.
#[derive(Clone, Debug)]
pub enum OperationCommandResult {
    Initialize(InitializeCommandResult),
    EnqueueWithdrawalBatch(EnqueueWithdrawalBatchCommandResult),
    ClaimUnrestakedVST(ClaimUnrestakedVSTCommandResult),
    DenormalizeNT(DenormalizeNTCommandResult),
    ClaimUnstakedSOL(ClaimUnstakedSOLCommandResult),
    ProcessWithdrawalBatch(ProcessWithdrawalBatchCommandResult),
    UnstakeLST(UnstakeLSTCommandResult),
    UnrestakeVRT(UnrestakeVRTCommandResult),
    UndelegateVST(UndelegateVSTCommandResult),
    HarvestReward(HarvestRewardCommandResult),
    StakeSOL(StakeSOLCommandResult),
    NormalizeST(NormalizeSTCommandResult),
    RestakeVST(RestakeVSTCommandResult),
    DelegateVST(DelegateVSTCommandResult),
}

/// The number that tags a command in its fixed-size form (0 stands for no command).
pub open spec fn spec_discriminant(c: OperationCommand) -> u8 {
    match c {
        OperationCommand::Initialize(_) => 1,
        OperationCommand::EnqueueWithdrawalBatch(_) => 2,
        OperationCommand::ClaimUnrestakedVST(_) => 3,
        OperationCommand::DenormalizeNT(_) => 4,
        OperationCommand::ClaimUnstakedSOL(_) => 5,
        OperationCommand::ProcessWithdrawalBatch(_) => 6,
        OperationCommand::UnstakeLST(_) => 7,
        OperationCommand::UnrestakeVRT(_) => 8,
        OperationCommand::UndelegateVST(_) => 9,
        OperationCommand::StakeSOL(_) => 10,
        OperationCommand::HarvestReward(_) => 11,
        OperationCommand::NormalizeST(_) => 12,
        OperationCommand::RestakeVST(_) => 13,
        OperationCommand::DelegateVST(_) => 14,
    }
}

/// The command's name, as logs show it.
pub open spec fn spec_kind_name(c: OperationCommand) -> Seq<char> {
    match c {
        OperationCommand::Initialize(_) => "Initialize"@,
        OperationCommand::EnqueueWithdrawalBatch(_) => "EnqueueWithdrawalBatch"@,
        OperationCommand::ClaimUnrestakedVST(_) => "ClaimUnrestakedVST"@,
        OperationCommand::DenormalizeNT(_) => "DenormalizeNT"@,
        OperationCommand::ClaimUnstakedSOL(_) => "ClaimUnstakedSOL"@,
        OperationCommand::ProcessWithdrawalBatch(_) => "ProcessWithdrawalBatch"@,
        OperationCommand::UnstakeLST(_) => "UnstakeLST"@,
        OperationCommand::UndelegateVST(_) => "UndelegateVST"@,
        OperationCommand::UnrestakeVRT(_) => "UnrestakeVRT"@,
        OperationCommand::HarvestReward(_) => "HarvestReward"@,
        OperationCommand::StakeSOL(_) => "StakeSOL"@,
        OperationCommand::NormalizeST(_) => "NormalizeST"@,
        OperationCommand::RestakeVST(_) => "RestakeVST"@,
        OperationCommand::DelegateVST(_) => "DelegateVST"@,
    }
}

/// Whether two commands are of the same kind.
pub open spec fn same_kind(a: OperationCommand, b: OperationCommand) -> bool {
    match (a, b) {
        (OperationCommand::Initialize(_), OperationCommand::Initialize(_)) => true,
        (OperationCommand::EnqueueWithdrawalBatch(_), OperationCommand::EnqueueWithdrawalBatch(_)) => true,
        (OperationCommand::ClaimUnrestakedVST(_), OperationCommand::ClaimUnrestakedVST(_)) => true,
        (OperationCommand::DenormalizeNT(_), OperationCommand::DenormalizeNT(_)) => true,
        (OperationCommand::ClaimUnstakedSOL(_), OperationCommand::ClaimUnstakedSOL(_)) => true,
        (OperationCommand::ProcessWithdrawalBatch(_), OperationCommand::ProcessWithdrawalBatch(_)) => true,
        (OperationCommand::UnstakeLST(_), OperationCommand::UnstakeLST(_)) => true,
        (OperationCommand::UnrestakeVRT(_), OperationCommand::UnrestakeVRT(_)) => true,
        (OperationCommand::UndelegateVST(_), OperationCommand::UndelegateVST(_)) => true,
        (OperationCommand::HarvestReward(_), OperationCommand::HarvestReward(_)) => true,
        (OperationCommand::StakeSOL(_), OperationCommand::StakeSOL(_)) => true,
        (OperationCommand::NormalizeST(_), OperationCommand::NormalizeST(_)) => true,
        (OperationCommand::RestakeVST(_), OperationCommand::RestakeVST(_)) => true,
        (OperationCommand::DelegateVST(_), OperationCommand::DelegateVST(_)) => true,
        _ => false,
    }
}

/// Every command has a tag from 1 to 14, and two commands share a tag exactly
/// when they are of the same kind: the tag tells the kind, and no command is
/// mistaken for the absence of one.
pub proof fn lemma_discriminant_identifies_kind(a: OperationCommand, b: OperationCommand)
    ensures
        1 <= spec_discriminant(a) <= 14,
        spec_discriminant(a) == spec_discriminant(b) <==> same_kind(a, b),
{
}

impl OperationCommand {
    /// The number that tags the command in its fixed-size form.
    pub fn discriminant(&self) -> (r: u8)
        ensures
            r == spec_discriminant(*self),
    {
        match self {
            OperationCommand::Initialize(_) => 1,
            OperationCommand::EnqueueWithdrawalBatch(_) => 2,
            OperationCommand::ClaimUnrestakedVST(_) => 3,
            OperationCommand::DenormalizeNT(_) => 4,
            OperationCommand::ClaimUnstakedSOL(_) => 5,
            OperationCommand::ProcessWithdrawalBatch(_) => 6,
            OperationCommand::UnstakeLST(_) => 7,
            OperationCommand::UnrestakeVRT(_) => 8,
            OperationCommand::UndelegateVST(_) => 9,
            OperationCommand::StakeSOL(_) => 10,
            OperationCommand::HarvestReward(_) => 11,
            OperationCommand::NormalizeST(_) => 12,
            OperationCommand::RestakeVST(_) => 13,
            OperationCommand::DelegateVST(_) => 14,
        }
    }

    /// The command's name.
    pub fn kind_name(&self) -> (r: &'static str)
        ensures
            r@ == spec_kind_name(*self),
    {
        match self {
            OperationCommand::Initialize(..) => "Initialize",
            OperationCommand::EnqueueWithdrawalBatch(..) => "EnqueueWithdrawalBatch",
            OperationCommand::ClaimUnrestakedVST(..) => "ClaimUnrestakedVST",
            OperationCommand::DenormalizeNT(..) => "DenormalizeNT",
            OperationCommand::ClaimUnstakedSOL(..) => "ClaimUnstakedSOL",
            OperationCommand::ProcessWithdrawalBatch(..) => "ProcessWithdrawalBatch",
            OperationCommand::UnstakeLST(..) => "UnstakeLST",
            OperationCommand::UndelegateVST(..) => "UndelegateVST",
            OperationCommand::UnrestakeVRT(..) => "UnrestakeVRT",
            OperationCommand::HarvestReward(..) => "HarvestReward",
            OperationCommand::StakeSOL(..) => "StakeSOL",
            OperationCommand::NormalizeST(..) => "NormalizeST",
            OperationCommand::RestakeVST(..) => "RestakeVST",
            OperationCommand::DelegateVST(..) => "DelegateVST",
        }
    }

    /// Commands that anyone may run with whatever accounts they hand over:
    /// initializing, enqueueing and processing withdrawal batches.
    pub fn is_safe_with_unchecked_params(&self) -> (r: bool)
        ensures
            r == (self is Initialize || self is EnqueueWithdrawalBatch || self is ProcessWithdrawalBatch),
    {
        match self {
            OperationCommand::Initialize(_)
            | OperationCommand::EnqueueWithdrawalBatch(_)
            | OperationCommand::ProcessWithdrawalBatch(_) => true,
            _ => false,
        }
    }

    /// Writes the command into its fixed-size form: the form is cleared, then
    /// tagged, then `encoded` (the command's encoding) is written into the
    /// buffer. Refused when the encoding does not fit; the buffer then holds
    /// as much of it as fits.
    pub fn serialize_as_pod(&self, pod: &mut OperationCommandPod, encoded: &Vec<u8>) -> (r: Result<(), ErrorCode>)
        ensures
            final(pod).spec_discriminant() == spec_discriminant(*self),
            final(pod).spec_buffer().len() == FUND_ACCOUNT_OPERATION_COMMAND_BUFFER_SIZE,
            forall|i: int| 0 <= i < FUND_ACCOUNT_OPERATION_COMMAND_BUFFER_SIZE ==> #[trigger] final(pod).spec_buffer()[i]
                == if i < encoded.len() { encoded@[i] } else { 0u8 },
            encoded.len() <= FUND_ACCOUNT_OPERATION_COMMAND_BUFFER_SIZE ==> r == Ok::<(), ErrorCode>(()),
            encoded.len() > FUND_ACCOUNT_OPERATION_COMMAND_BUFFER_SIZE ==> r == Err::<(), ErrorCode>(ErrorCode::BorshIoError),
    {
        pod.set_none();
        pod.discriminant = self.discriminant();
        let n = if encoded.len() < FUND_ACCOUNT_OPERATION_COMMAND_BUFFER_SIZE { encoded.len() } else { FUND_ACCOUNT_OPERATION_COMMAND_BUFFER_SIZE };
        let mut buffer: Vec<u8> = Vec::new();
        let mut i: usize = 0;
        while i < FUND_ACCOUNT_OPERATION_COMMAND_BUFFER_SIZE
            invariant
                i <= FUND_ACCOUNT_OPERATION_COMMAND_BUFFER_SIZE,
                n <= encoded.len(),
                n == encoded.len() || n == FUND_ACCOUNT_OPERATION_COMMAND_BUFFER_SIZE,
                buffer.len() == i,
                forall|j: int| 0 <= j < i ==> #[trigger] buffer@[j] == if j < encoded.len() { encoded@[j] } else { 0u8 },
            decreases FUND_ACCOUNT_OPERATION_COMMAND_BUFFER_SIZE - i,
        {
            if i < n {
                buffer.push(encoded[i]);
            } else {
                buffer.push(0);
            }
            i += 1;
        }
        pod.buffer = buffer;
        if encoded.len() > FUND_ACCOUNT_OPERATION_COMMAND_BUFFER_SIZE {
            return Err(ErrorCode::BorshIoError);
        }
        Ok(())
    }
}

/// The size of a command's buffer in its fixed-size form.
pub const FUND_ACCOUNT_OPERATION_COMMAND_BUFFER_SIZE: usize = 3126;

/// The fixed-size form of an optional command: a tag (0 for none) and the
/// command's encoding, zero-padded.
#[derive(Debug)]
pub struct OperationCommandPod {
    discriminant: u8,
    buffer: Vec<u8>,
}

/// What reading a command back gives, when the buffer decodes to `decoded`:
/// none for tag 0; the decoding error; the command when its tag matches;
/// refused as invalid account data otherwise.
pub open spec fn spec_try_deserialize(discriminant: u8, decoded: Result<OperationCommand, ErrorCode>)
    -> Result<Option<OperationCommand>, ErrorCode>
{
    if discriminant == 0 {
        Ok(None)
    } else {
        match decoded {
            Err(e) => Err(e),
            Ok(c) => if spec_discriminant(c) == discriminant { Ok(Some(c)) } else { Err(ErrorCode::InvalidAccountData) },
        }
    }
}

impl OperationCommandPod {
    #[verifier::type_invariant]
    spec fn buffer_has_fixed_size(self) -> bool {
        self.buffer.len() == FUND_ACCOUNT_OPERATION_COMMAND_BUFFER_SIZE
    }

    /// The stored tag.
    pub closed spec fn spec_discriminant(self) -> u8 {
        self.discriminant
    }

    /// The stored bytes.
    pub closed spec fn spec_buffer(self) -> Seq<u8> {
        self.buffer@
    }

    /// No command, with an all-zero buffer.
    pub fn zeroed() -> (r: OperationCommandPod)
        ensures
            r.spec_discriminant() == 0,
            r.spec_buffer() == Seq::new(FUND_ACCOUNT_OPERATION_COMMAND_BUFFER_SIZE as nat, |i: int| 0u8),
    {
        let buffer = zero_bytes(FUND_ACCOUNT_OPERATION_COMMAND_BUFFER_SIZE);
        OperationCommandPod { discriminant: 0, buffer }
    }

    /// The buffer, as bytes.
    pub fn buffer(&self) -> (r: &Vec<u8>)
        ensures
            r@ == self.spec_buffer(),
            r.len() == FUND_ACCOUNT_OPERATION_COMMAND_BUFFER_SIZE,
    {
        proof { use_type_invariant(self); }
        &self.buffer
    }

    /// The tag, none when no command is stored.
    pub fn discriminant(&self) -> (r: Option<u8>)
        ensures
            r == (if self.spec_discriminant() != 0 { Some(self.spec_discriminant()) } else { None }),
    {
        if self.discriminant != 0 { Some(self.discriminant) } else { None }
    }

    /// Whether no command is stored.
    pub fn is_none(&self) -> (r: bool)
        ensures
            r == (self.spec_discriminant() == 0),
    {
        self.discriminant == 0
    }

    /// Clears the form: no command, all-zero buffer.
    pub fn set_none(&mut self)
        ensures
            final(self).spec_discriminant() == 0,
            final(self).spec_buffer() == Seq::new(FUND_ACCOUNT_OPERATION_COMMAND_BUFFER_SIZE as nat, |i: int| 0u8),
    {
        proof { use_type_invariant(&*self); }
        self.discriminant = 0;
        self.buffer = zero_bytes(FUND_ACCOUNT_OPERATION_COMMAND_BUFFER_SIZE);
    }

    /// Reads the command back, given what its buffer decodes to.
    pub fn try_deserialize(&self, decoded: Result<OperationCommand, ErrorCode>) -> (r: Result<Option<OperationCommand>, ErrorCode>)
        ensures
            r == spec_try_deserialize(self.spec_discriminant(), decoded),
    {
        if self.discriminant == 0 {
            return Ok(None);
        }
        match decoded {
            Err(e) => Err(e),
            Ok(c) => {
                if self.discriminant == c.discriminant() { Ok(Some(c)) } else { Err(ErrorCode::InvalidAccountData) }
            },
        }
    }
}

/// `n` zero bytes.
pub fn zero_bytes(n: usize) -> (r: Vec<u8>)
    ensures
        r@ == Seq::new(n as nat, |i: int| 0u8),
{
    let mut r: Vec<u8> = Vec::new();
    let mut i: usize = 0;
    while i < n
        invariant
            i <= n,
            r@ == Seq::new(i as nat, |k: int| 0u8),
        decreases n - i,
    {
        r.push(0);
        i += 1;
        assert(r@ =~= Seq::new(i as nat, |k: int| 0u8));
    }
    r
}

/// A command written into its form reads back as itself when the buffer
/// decodes to it; a cleared form reads back as no command, whatever the buffer holds.
pub proof fn lemma_command_roundtrip(c: OperationCommand, decoded: Result<OperationCommand, ErrorCode>)
    ensures
        spec_try_deserialize(spec_discriminant(c), Ok(c)) == Ok::<Option<OperationCommand>, ErrorCode>(Some(c)),
        spec_try_deserialize(0, decoded) == Ok::<Option<OperationCommand>, ErrorCode>(None),
{
}

/// At most this many accounts are stored with a command entry.
pub const FUND_ACCOUNT_OPERATION_COMMAND_MAX_ACCOUNT_SIZE: usize = 32;

/// A command with the accounts its next step needs.
#[derive(Clone, Debug)]
pub struct OperationCommandEntry {
    pub command: OperationCommand,
    pub required_accounts: Vec<OperationCommandAccountMeta>,
}

impl Default for OperationCommandEntry {
    /// The cycle starts with initializing, which needs no account.
    fn default() -> (r: Self)
        ensures
            r.command matches OperationCommand::Initialize(c) && c.state is New,
            r.required_accounts.len() == 0,
    {
        OperationCommandEntry { command: OperationCommand::Initialize(InitializeCommand::default()), required_accounts: Vec::new() }
    }
}

impl OperationCommandEntry {
    /// At most this many accounts are stored with an entry.
    pub const MAX_ACCOUNT_SIZE: usize = FUND_ACCOUNT_OPERATION_COMMAND_MAX_ACCOUNT_SIZE;

    /// A command whose next step needs the accounts listed as `(pubkey, is_writable)` pairs.
    pub fn with_required_accounts(command: OperationCommand, required_accounts: &Vec<(Pubkey, bool)>) -> (r: OperationCommandEntry)
        ensures
            r.command == command,
            r.required_accounts@ == spec_metas(required_accounts@),
    {
        OperationCommandEntry { command, required_accounts: metas_from_pairs(required_accounts) }
    }

    /// A command whose next step needs no account.
    pub fn without_required_accounts(command: OperationCommand) -> (r: OperationCommandEntry)
        ensures
            r.command == command,
            r.required_accounts.len() == 0,
    {
        OperationCommandEntry { command, required_accounts: Vec::new() }
    }

    /// Writes the entry into its fixed-size form: the number of accounts, each
    /// account in its slot (later slots keep what they held) and the command.
    /// Refused, with the form unchanged, when there are more accounts than
    /// slots; refused as the command's writing is when its encoding does not fit.
    pub fn serialize_as_pod(&self, pod: &mut OperationCommandEntryPod, encoded: &Vec<u8>) -> (r: Result<(), ErrorCode>)
        ensures
            self.required_accounts.len() > FUND_ACCOUNT_OPERATION_COMMAND_MAX_ACCOUNT_SIZE ==>
                r == Err::<(), ErrorCode>(ErrorCode::IndexOutOfBoundsException) && *final(pod) == *old(pod),
            self.required_accounts.len() <= FUND_ACCOUNT_OPERATION_COMMAND_MAX_ACCOUNT_SIZE ==> {
                &&& final(pod).spec_num_required_accounts() == self.required_accounts.len()
                &&& final(pod).spec_required_accounts().len() == FUND_ACCOUNT_OPERATION_COMMAND_MAX_ACCOUNT_SIZE
                &&& forall|i: int| 0 <= i < self.required_accounts.len() ==>
                    #[trigger] final(pod).spec_required_accounts()[i].spec_deserialize() == self.required_accounts@[i]
                &&& forall|i: int| self.required_accounts.len() <= i < FUND_ACCOUNT_OPERATION_COMMAND_MAX_ACCOUNT_SIZE ==>
                    #[trigger] final(pod).spec_required_accounts()[i] == old(pod).spec_required_accounts()[i]
                &&& final(pod).spec_command().spec_discriminant() == spec_discriminant(self.command)
                &&& encoded.len() <= FUND_ACCOUNT_OPERATION_COMMAND_BUFFER_SIZE ==> r == Ok::<(), ErrorCode>(())
                &&& encoded.len() > FUND_ACCOUNT_OPERATION_COMMAND_BUFFER_SIZE ==> r == Err::<(), ErrorCode>(ErrorCode::BorshIoError)
            },
    {
        proof { use_type_invariant(&*pod); }
        if self.required_accounts.len() > FUND_ACCOUNT_OPERATION_COMMAND_MAX_ACCOUNT_SIZE {
            return Err(ErrorCode::IndexOutOfBoundsException);
        }
        let ghost old_slots = pod.required_accounts@;
        let mut slots = pod.required_accounts.clone();
        assert(slots@ == old_slots);
        let mut i: usize = 0;
        while i < self.required_accounts.len()
            invariant
                i <= self.required_accounts.len() <= FUND_ACCOUNT_OPERATION_COMMAND_MAX_ACCOUNT_SIZE,
                slots.len() == FUND_ACCOUNT_OPERATION_COMMAND_MAX_ACCOUNT_SIZE,
                old_slots.len() == FUND_ACCOUNT_OPERATION_COMMAND_MAX_ACCOUNT_SIZE,
                forall|j: int| 0 <= j < i ==> #[trigger] slots@[j].spec_deserialize() == self.required_accounts@[j],
                forall|j: int| i <= j < FUND_ACCOUNT_OPERATION_COMMAND_MAX_ACCOUNT_SIZE ==> #[trigger] slots@[j] == old_slots[j],
            decreases self.required_accounts.len() - i,
        {
            let meta = self.required_accounts[i];
            let mut slot = slots[i];
            meta.serialize_as_pod(&mut slot);
            slots.set(i, slot);
            i += 1;
        }
        let mut command_pod = pod.command.clone_pod();
        let r = self.command.serialize_as_pod(&mut command_pod, encoded);
        *pod = OperationCommandEntryPod {
            num_required_accounts: self.required_accounts.len() as u8,
            required_accounts: slots,
            command: command_pod,
        };
        r
    }
}

impl OperationCommandPod {
    /// A copy of the form.
    pub fn clone_pod(&self) -> (r: OperationCommandPod)
        ensures
            r.spec_discriminant() == self.spec_discriminant(),
            r.spec_buffer() == self.spec_buffer(),
    {
        proof { use_type_invariant(self); }
        let mut buffer: Vec<u8> = Vec::new();
        let mut i: usize = 0;
        while i < self.buffer.len()
            invariant
                i <= self.buffer.len(),
                buffer@ == self.buffer@.take(i as int),
            decreases self.buffer.len() - i,
        {
            buffer.push(self.buffer[i]);
            i += 1;
            assert(buffer@ =~= self.buffer@.take(i as int));
        }
        assert(self.buffer@.take(self.buffer.len() as int) =~= self.buffer@);
        OperationCommandPod { discriminant: self.discriminant, buffer }
    }
}

/// The fixed-size form of an optional command entry: the number of accounts,
/// a slot per account, and the command's form.
#[derive(Debug)]
pub struct OperationCommandEntryPod {
    num_required_accounts: u8,
    required_accounts: Vec<OperationCommandAccountMetaPod>,
    command: OperationCommandPod,
}

impl OperationCommandEntryPod {
    #[verifier::type_invariant]
    spec fn slots_have_fixed_size(self) -> bool {
        &&& self.required_accounts.len() == FUND_ACCOUNT_OPERATION_COMMAND_MAX_ACCOUNT_SIZE
        &&& self.num_required_accounts <= FUND_ACCOUNT_OPERATION_COMMAND_MAX_ACCOUNT_SIZE
    }

    /// The stored number of accounts.
    pub closed spec fn spec_num_required_accounts(self) -> u8 {
        self.num_required_accounts
    }

    /// The stored account slots.
    pub closed spec fn spec_required_accounts(self) -> Seq<OperationCommandAccountMetaPod> {
        self.required_accounts@
    }

    /// The stored command's form.
    pub closed spec fn spec_command(self) -> OperationCommandPod {
        self.command
    }

    /// No entry, every slot and the command's form zeroed.
    pub fn zeroed() -> (r: OperationCommandEntryPod)
        ensures
            r.spec_num_required_accounts() == 0,
            r.spec_required_accounts().len() == FUND_ACCOUNT_OPERATION_COMMAND_MAX_ACCOUNT_SIZE,
            forall|i: int| 0 <= i < FUND_ACCOUNT_OPERATION_COMMAND_MAX_ACCOUNT_SIZE ==>
                #[trigger] r.spec_required_accounts()[i] == OperationCommandAccountMetaPod::zeroed_spec(),
            r.spec_command().spec_discriminant() == 0,
    {
        let mut slots: Vec<OperationCommandAccountMetaPod> = Vec::new();
        let mut i: usize = 0;
        while i < FUND_ACCOUNT_OPERATION_COMMAND_MAX_ACCOUNT_SIZE
            invariant
                i <= FUND_ACCOUNT_OPERATION_COMMAND_MAX_ACCOUNT_SIZE,
                slots.len() == i,
                forall|j: int| 0 <= j < i ==> #[trigger] slots@[j] == OperationCommandAccountMetaPod::zeroed_spec(),
            decreases FUND_ACCOUNT_OPERATION_COMMAND_MAX_ACCOUNT_SIZE - i,
        {
            slots.push(OperationCommandAccountMetaPod::zeroed());
            i += 1;
        }
        OperationCommandEntryPod { num_required_accounts: 0, required_accounts: slots, command: OperationCommandPod::zeroed() }
    }

    /// The number of account slots: always the fixed maximum, and the stored
    /// number of accounts never exceeds it.
    pub fn num_slots(&self) -> (r: usize)
        ensures
            r == FUND_ACCOUNT_OPERATION_COMMAND_MAX_ACCOUNT_SIZE,
            self.spec_required_accounts().len() == r,
            self.spec_num_required_accounts() <= r,
    {
        proof { use_type_invariant(self); }
        self.required_accounts.len()
    }

    /// The command's form.
    pub fn command(&self) -> (r: &OperationCommandPod)
        ensures
            *r == self.spec_command(),
    {
        &self.command
    }

    /// The stored command's tag, none when no command is stored.
    pub fn discriminant(&self) -> (r: Option<u8>)
        ensures
            r == (if self.spec_command().spec_discriminant() != 0 { Some(self.spec_command().spec_discriminant()) } else { None }),
    {
        self.command.discriminant()
    }

    /// Whether no command is stored.
    pub fn is_none(&self) -> (r: bool)
        ensures
            r == (self.spec_command().spec_discriminant() == 0),
    {
        self.command.is_none()
    }

    /// Clears the entry: no command, no account (the slots keep what they held).
    pub fn set_none(&mut self)
        ensures
            final(self).spec_command().spec_discriminant() == 0,
            final(self).spec_command().spec_buffer() == Seq::new(FUND_ACCOUNT_OPERATION_COMMAND_BUFFER_SIZE as nat, |i: int| 0u8),
            final(self).spec_num_required_accounts() == 0,
            final(self).spec_required_accounts() == old(self).spec_required_accounts(),
    {
        proof { use_type_invariant(&*self); }
        let mut command = self.command.clone_pod();
        command.set_none();
        self.command = command;
        self.num_required_accounts = 0;
    }

    /// Reads the entry back, given what the command's buffer decodes to: the
    /// command (as its form reads back) with the first `num_required_accounts`
    /// accounts; none when no command is stored.
    pub fn try_deserialize(&self, decoded: Result<OperationCommand, ErrorCode>) -> (r: Result<Option<OperationCommandEntry>, ErrorCode>)
        ensures
            spec_try_deserialize(self.spec_command().spec_discriminant(), decoded) matches Err(e) ==> r == Err::<Option<OperationCommandEntry>, ErrorCode>(e),
            spec_try_deserialize(self.spec_command().spec_discriminant(), decoded) matches Ok(None) ==> r == Ok::<Option<OperationCommandEntry>, ErrorCode>(None),
            spec_try_deserialize(self.spec_command().spec_discriminant(), decoded) matches Ok(Some(c)) ==> (r matches Ok(Some(entry))
                && entry.command == c
                && entry.required_accounts@ == self.spec_required_accounts().take(self.spec_num_required_accounts() as int)
                    .map_values(|p: OperationCommandAccountMetaPod| p.spec_deserialize())),
    {
        proof { use_type_invariant(self); }
        let command = match self.command.try_deserialize(decoded) {
            Err(e) => return Err(e),
            Ok(None) => return Ok(None),
            Ok(Some(c)) => c,
        };
        let n = self.num_required_accounts as usize;
        let mut required_accounts: Vec<OperationCommandAccountMeta> = Vec::new();
        let mut i: usize = 0;
        while i < n
            invariant
                i <= n <= self.required_accounts.len(),
                required_accounts@ == self.required_accounts@.take(i as int).map_values(|p: OperationCommandAccountMetaPod| p.spec_deserialize()),
            decreases n - i,
        {
            required_accounts.push(self.required_accounts[i].deserialize());
            i += 1;
            assert(required_accounts@ =~= self.required_accounts@.take(i as int).map_values(|p: OperationCommandAccountMetaPod| p.spec_deserialize()));
        }
        Ok(Some(OperationCommandEntry { command, required_accounts }))
    }
}

/// An entry written into its form reads back as itself (when the command's
/// buffer decodes to its command): same command, same accounts in the same order.
pub proof fn lemma_entry_roundtrip(entry: OperationCommandEntry, pod: OperationCommandEntryPod)
    requires
        entry.required_accounts.len() <= FUND_ACCOUNT_OPERATION_COMMAND_MAX_ACCOUNT_SIZE,
        pod.spec_num_required_accounts() == entry.required_accounts.len(),
        pod.spec_required_accounts().len() == FUND_ACCOUNT_OPERATION_COMMAND_MAX_ACCOUNT_SIZE,
        forall|i: int| 0 <= i < entry.required_accounts.len() ==>
            #[trigger] pod.spec_required_accounts()[i].spec_deserialize() == entry.required_accounts@[i],
        pod.spec_command().spec_discriminant() == spec_discriminant(entry.command),
    ensures
        spec_try_deserialize(pod.spec_command().spec_discriminant(), Ok(entry.command))
            == Ok::<Option<OperationCommand>, ErrorCode>(Some(entry.command)),
        pod.spec_required_accounts().take(pod.spec_num_required_accounts() as int)
            .map_values(|p: OperationCommandAccountMetaPod| p.spec_deserialize()) == entry.required_accounts@,
{
    assert(pod.spec_required_accounts().take(pod.spec_num_required_accounts() as int)
        .map_values(|p: OperationCommandAccountMetaPod| p.spec_deserialize()) =~= entry.required_accounts@);
}

/// The command whose first step comes when a command is done (its step gave no
/// next entry), as each command hands over: none after delegating, which ends the cycle.
pub open spec fn spec_next_kind(c: OperationCommand) -> Option<u8> {
    match c {
        OperationCommand::Initialize(_) => Some(2u8),
        OperationCommand::EnqueueWithdrawalBatch(_) => Some(3u8),
        OperationCommand::ClaimUnrestakedVST(_) => Some(4u8),
        OperationCommand::DenormalizeNT(_) => Some(9u8),
        OperationCommand::ClaimUnstakedSOL(_) => Some(6u8),
        OperationCommand::ProcessWithdrawalBatch(_) => Some(10u8),
        OperationCommand::UnstakeLST(_) => Some(8u8),
        OperationCommand::UnrestakeVRT(_) => Some(9u8),
        OperationCommand::UndelegateVST(_) => Some(10u8),
        OperationCommand::HarvestReward(_) => Some(10u8),
        OperationCommand::StakeSOL(_) => Some(12u8),
        OperationCommand::NormalizeST(_) => Some(13u8),
        OperationCommand::RestakeVST(_) => Some(14u8),
        OperationCommand::DelegateVST(_) => None,
    }
}

/// The command that follows `c` in the operation cycle, in its first (`New`)
/// state (the withdrawal batch commands not forced); none after the last.
pub open spec fn spec_next_command(c: OperationCommand) -> Option<OperationCommand> {
    match c {
        OperationCommand::Initialize(_) => Some(OperationCommand::EnqueueWithdrawalBatch(EnqueueWithdrawalBatchCommand {
            state: crate::cmd2_enqueue_withdrawal_batch::EnqueueWithdrawalBatchCommandState::New,
            forced: false,
        })),
        OperationCommand::EnqueueWithdrawalBatch(_) => Some(OperationCommand::ClaimUnrestakedVST(ClaimUnrestakedVSTCommand {
            state: crate::cmd3_claim_unrestaked_vst::ClaimUnrestakedVSTCommandState::New,
        })),
        OperationCommand::ClaimUnrestakedVST(_) => Some(OperationCommand::DenormalizeNT(DenormalizeNTCommand {
            state: crate::cmd4_denormalize_nt::DenormalizeNTCommandState::New,
        })),
        OperationCommand::DenormalizeNT(_) | OperationCommand::UnrestakeVRT(_) => Some(OperationCommand::UndelegateVST(UndelegateVSTCommand {
            state: crate::cmd10_undelegate_vst::UndelegateVSTCommandState::New,
        })),
        OperationCommand::ClaimUnstakedSOL(_) => Some(OperationCommand::ProcessWithdrawalBatch(ProcessWithdrawalBatchCommand {
            state: crate::cmd9_process_withdrawal_batch::ProcessWithdrawalBatchCommandState::New,
            forced: false,
        })),
        OperationCommand::ProcessWithdrawalBatch(_) | OperationCommand::UndelegateVST(_) | OperationCommand::HarvestReward(_) =>
            Some(OperationCommand::StakeSOL(StakeSOLCommand { state: crate::cmd11_stake_sol::StakeSOLCommandState::New })),
        OperationCommand::UnstakeLST(_) => Some(OperationCommand::UnrestakeVRT(UnrestakeVRTCommand {
            state: crate::cmd9_unrestake_vrt::UnrestakeVRTCommandState::New,
        })),
        OperationCommand::StakeSOL(_) => Some(OperationCommand::NormalizeST(NormalizeSTCommand {
            state: crate::cmd12_normalize_st::NormalizeSTCommandState::New,
        })),
        OperationCommand::NormalizeST(_) => Some(OperationCommand::RestakeVST(RestakeVSTCommand {
            state: crate::cmd13_restake_vst::RestakeVSTCommandState::New,
        })),
        OperationCommand::RestakeVST(_) => Some(OperationCommand::DelegateVST(DelegateVSTCommand {
            state: crate::cmd14_delegate_vst::DelegateVSTCommandState::New,
        })),
        OperationCommand::DelegateVST(_) => None,
    }
}

/// The next entry after a step of `current`: the entry the step gave, or, when
/// it gave none, the first step of the command that follows (needing no
/// account); none at the end of the cycle.
pub fn next_entry(current: &OperationCommand, entry: Option<OperationCommandEntry>) -> (r: Option<OperationCommandEntry>)
    ensures
        entry is Some ==> r == entry,
        entry is None && spec_next_kind(*current) is None ==> r is None,
        entry is None ==> match spec_next_kind(*current) {
            Some(k) => r matches Some(e) && spec_discriminant(e.command) == k && e.required_accounts.len() == 0,
            None => true,
        },
        entry is None ==> match spec_next_command(*current) {
            Some(next) => r matches Some(e) && e.command == next && e.required_accounts.len() == 0,
            None => r is None,
        },
{
    if entry.is_some() {
        return entry;
    }
    let next = match current {
        OperationCommand::Initialize(_) => OperationCommand::EnqueueWithdrawalBatch(EnqueueWithdrawalBatchCommand::default()),
        OperationCommand::EnqueueWithdrawalBatch(_) => OperationCommand::ClaimUnrestakedVST(ClaimUnrestakedVSTCommand::default()),
        OperationCommand::ClaimUnrestakedVST(_) => OperationCommand::DenormalizeNT(DenormalizeNTCommand::default()),
        OperationCommand::DenormalizeNT(_) => OperationCommand::UndelegateVST(UndelegateVSTCommand::default()),
        OperationCommand::ClaimUnstakedSOL(_) => OperationCommand::ProcessWithdrawalBatch(ProcessWithdrawalBatchCommand::default()),
        OperationCommand::ProcessWithdrawalBatch(_) => OperationCommand::StakeSOL(StakeSOLCommand::default()),
        OperationCommand::UnstakeLST(_) => OperationCommand::UnrestakeVRT(UnrestakeVRTCommand::default()),
        OperationCommand::UnrestakeVRT(_) => OperationCommand::UndelegateVST(UndelegateVSTCommand::default()),
        OperationCommand::UndelegateVST(_) => OperationCommand::StakeSOL(StakeSOLCommand::default()),
        OperationCommand::HarvestReward(_) => OperationCommand::StakeSOL(StakeSOLCommand::default()),
        OperationCommand::StakeSOL(_) => OperationCommand::NormalizeST(NormalizeSTCommand::default()),
        OperationCommand::NormalizeST(_) => OperationCommand::RestakeVST(RestakeVSTCommand::default()),
        OperationCommand::RestakeVST(_) => OperationCommand::DelegateVST(DelegateVSTCommand::default()),
        OperationCommand::DelegateVST(_) => return None,
    };
    Some(OperationCommandEntry::without_required_accounts(next))
}

} // verus!
