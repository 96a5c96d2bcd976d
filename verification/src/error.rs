//! Error taxonomy: the interceptor's own enumerated failures, plus the
//! host-level failures the processor can surface around them.

use vstd::prelude::*;

verus! {

/// Every policy-validation failure the interceptor can report.
#[derive(Clone, Copy, Debug, PartialEq, Eq, Structural)]
pub enum StakeDepositInterceptorError {
    /// A required signature was missing.
    SignatureMissing,
    /// The supplied account does not match the derived program address.
    InvalidSeeds,
    /// The account already holds an initialized record.
    AlreadyInUse,
    /// The stake pool does not match the other inputs.
    InvalidStakePool,
    /// The signing manager is not the stake pool's manager.
    InvalidStakePoolManager,
    /// The signing authority is not the record's authority.
    InvalidAuthority,
    /// The record's own seeds do not reproduce its address.
    InvalidStakePoolDepositStakeAuthority,
    /// The vault is not the authority's associated token account.
    InvalidVault,
    /// The mint is not owned by the given token program.
    InvalidTokenProgram,
    /// The deposit receipt key is invalid.
    InvalidDepositReceipt,
    /// The deposit receipt owner is invalid.
    InvalidDepositReceiptOwner,
    /// The fee token account is invalid.
    InvalidFeeTokenAccount,
}

impl StakeDepositInterceptorError {
    /// The stable numeric code of this error, as callers see it.
    pub fn code(&self) -> (c: u32)
        ensures
            c == self.code_spec(),
    {
        match self {
            StakeDepositInterceptorError::SignatureMissing => 0,
            StakeDepositInterceptorError::InvalidSeeds => 1,
            StakeDepositInterceptorError::AlreadyInUse => 2,
            StakeDepositInterceptorError::InvalidStakePool => 3,
            StakeDepositInterceptorError::InvalidStakePoolManager => 4,
            StakeDepositInterceptorError::InvalidAuthority => 5,
            StakeDepositInterceptorError::InvalidStakePoolDepositStakeAuthority => 6,
            StakeDepositInterceptorError::InvalidVault => 7,
            StakeDepositInterceptorError::InvalidTokenProgram => 8,
            StakeDepositInterceptorError::InvalidDepositReceipt => 9,
            StakeDepositInterceptorError::InvalidDepositReceiptOwner => 10,
            StakeDepositInterceptorError::InvalidFeeTokenAccount => 11,
        }
    }

    /// The numeric code, for use in contracts.
    pub open spec fn code_spec(&self) -> u32 {
        match self {
            StakeDepositInterceptorError::SignatureMissing => 0,
            StakeDepositInterceptorError::InvalidSeeds => 1,
            StakeDepositInterceptorError::AlreadyInUse => 2,
            StakeDepositInterceptorError::InvalidStakePool => 3,
            StakeDepositInterceptorError::InvalidStakePoolManager => 4,
            StakeDepositInterceptorError::InvalidAuthority => 5,
            StakeDepositInterceptorError::InvalidStakePoolDepositStakeAuthority => 6,
            StakeDepositInterceptorError::InvalidVault => 7,
            StakeDepositInterceptorError::InvalidTokenProgram => 8,
            StakeDepositInterceptorError::InvalidDepositReceipt => 9,
            StakeDepositInterceptorError::InvalidDepositReceiptOwner => 10,
            StakeDepositInterceptorError::InvalidFeeTokenAccount => 11,
        }
    }
}

/// What a processor invocation can fail with: one of the interceptor's own
/// errors, or a failure the host itself reports.
#[derive(Clone, Copy, Debug, PartialEq, Eq, Structural)]
pub enum ProcessError {
    /// A policy check failed with the given interceptor error.
    Interceptor(StakeDepositInterceptorError),
    /// Fewer accounts were supplied than the operation needs.
    NotEnoughAccountKeys,
    /// An account is owned by the wrong program.
    IncorrectProgramId,
    /// An account's balance is below the rent-exempt minimum.
    AccountNotRentExempt,
    /// The host accepted no address for the presented seed tuple.
    InvalidSeeds,
    /// The instruction payload did not parse.
    InvalidInstructionData,
    /// An account's data did not parse.
    InvalidAccountData,
}

} // verus!
