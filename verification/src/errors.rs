use vstd::prelude::*;

verus! {

/// Why a command step is refused.
#[derive(Clone, Copy, PartialEq, Eq, Structural, Debug)]
pub enum ErrorCode {
    /// Fewer accounts were handed over than the step reads.
    AccountNotEnoughKeys,
    /// A token mint is owned neither by the token program nor by the token-2022 program.
    InvalidProgramId,
    /// An account handed over is not the one the step expects.
    RequireKeysEqViolated,
    /// A bookkeeping check that one amount is at least another failed.
    RequireGteViolated,
    /// A bookkeeping check that two amounts are equal failed.
    RequireEqViolated,
    /// The fund's configuration does not allow this command step.
    FundOperationCommandExecutionFailedException,
    /// More required accounts than a command entry can hold.
    IndexOutOfBoundsException,
    /// The stored command does not match the stored discriminant, or does not fit.
    InvalidAccountData,
    /// An amount does not fit in 64 bits, or a division by zero was asked for.
    CalculationArithmeticException,
    /// The encoded command does not fit in its buffer.
    BorshIoError,
    /// No bump seed gives an off-curve associated token account address.
    ProgramAddressNotFound,
    /// A restaking vault has no delegation at the position or to the operator asked for.
    RestakingVaultDelegationNotFound,
}

} // verus!
