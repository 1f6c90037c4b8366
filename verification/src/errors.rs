//! Every error condition that an entry point of the escrow contract can return.
use vstd::prelude::*;

verus! {

/// Why a request was refused. A refused request leaves the ledger as it was.
#[derive(Copy, Clone, Debug, PartialEq, Eq, Structural, PartialOrd, Ord)]
pub enum EscrowError {
    // Initialization
    AlreadyInitialized,
    NotInitialized,
    // Authorization
    Unauthorized,
    AdminOnly,
    ClientOnly,
    FreelancerOnly,
    // Escrow state
    EscrowNotFound,
    EscrowNotActive,
    EscrowNotDisputed,
    CannotCancelWithPendingFunds,
    // Milestones
    MilestoneNotFound,
    InvalidMilestoneState,
    MilestoneAmountExceedsEscrow,
    TooManyMilestones,
    InvalidMilestoneAmount,
    // Funds
    TransferFailed,
    InvalidEscrowAmount,
    AmountMismatch,
    InvalidEscrowState,
    // Disputes
    DisputeAlreadyExists,
    // Deadlines
    InvalidDeadline,
    DeadlineExpired,
    // Lock time
    /// The specified lock time is in the past.
    InvalidLockTime,
    /// Funds are still locked until the lock time expires.
    LockTimeNotExpired,
    /// The lock time has expired.
    LockTimeExpired,
    /// The lock time cannot be moved to the past.
    InvalidLockTimeExtension,
    /// The contract is currently paused.
    ContractPaused,
    // Cancellation
    CancellationNotFound,
    CancellationAlreadyExists,
    CancellationAlreadyDisputed,
    CancellationDisputePeriodActive,
    CancellationDisputeDeadlineExpired,
    CancellationDisputed,
    // Slashing
    SlashNotFound,
    SlashAlreadyDisputed,
    SlashDisputeDeadlineExpired,
    InvalidSlashAmount,
    // Storage migration
    StorageMigrationFailed,
    // Recurring payments
    RecurringConfigNotFound,
    InvalidRecurringSchedule,
    NoRecurringPaymentDue,
    RecurringSchedulePaused,
    RecurringScheduleCancelled,
    // Price oracle
    OracleNotConfigured,
    OraclePriceStale,
    OracleInvalidPrice,
    // Timelock
    /// The specified timelock duration is invalid.
    InvalidTimelockDuration,
    /// The timelock is already active.
    TimelockAlreadyActive,
    /// The timelock has not yet expired.
    TimelockNotExpired,
    // Bridge
    /// Wrapped token not approved, transfer not found, or bridge not yet finalized.
    BridgeError,
    // Oracle fallback for stalled disputes
    /// The grace period has not yet elapsed; the oracle fallback is not yet available.
    GracePeriodNotElapsed,
    /// The signature of the oracle payload is invalid.
    OracleSignatureInvalid,
    /// The oracle payload is stale.
    OraclePayloadStale,
    /// The payout shares of the oracle payload do not sum to the whole.
    OraclePayoutInvalid,
    /// The start of the dispute was not recorded for this escrow.
    DisputeStartNotRecorded,
}

impl EscrowError {
    /// The number under which the error is reported to callers of the contract.
    pub open spec fn spec_code(self) -> u32 {
        match self {
            EscrowError::AlreadyInitialized => 1,
            EscrowError::NotInitialized => 2,
            EscrowError::Unauthorized => 3,
            EscrowError::AdminOnly => 4,
            EscrowError::ClientOnly => 5,
            EscrowError::FreelancerOnly => 6,
            EscrowError::EscrowNotFound => 8,
            EscrowError::EscrowNotActive => 9,
            EscrowError::EscrowNotDisputed => 10,
            EscrowError::CannotCancelWithPendingFunds => 12,
            EscrowError::MilestoneNotFound => 13,
            EscrowError::InvalidMilestoneState => 14,
            EscrowError::MilestoneAmountExceedsEscrow => 15,
            EscrowError::TooManyMilestones => 16,
            EscrowError::InvalidMilestoneAmount => 17,
            EscrowError::TransferFailed => 18,
            EscrowError::InvalidEscrowAmount => 19,
            EscrowError::AmountMismatch => 20,
            EscrowError::InvalidEscrowState => 21,
            EscrowError::DisputeAlreadyExists => 23,
            EscrowError::InvalidDeadline => 25,
            EscrowError::DeadlineExpired => 26,
            EscrowError::InvalidLockTime => 27,
            EscrowError::LockTimeNotExpired => 28,
            EscrowError::LockTimeExpired => 29,
            EscrowError::InvalidLockTimeExtension => 30,
            EscrowError::ContractPaused => 31,
            EscrowError::CancellationNotFound => 32,
            EscrowError::CancellationAlreadyExists => 33,
            EscrowError::CancellationAlreadyDisputed => 34,
            EscrowError::CancellationDisputePeriodActive => 35,
            EscrowError::CancellationDisputeDeadlineExpired => 36,
            EscrowError::CancellationDisputed => 37,
            EscrowError::SlashNotFound => 38,
            EscrowError::SlashAlreadyDisputed => 39,
            EscrowError::SlashDisputeDeadlineExpired => 40,
            EscrowError::InvalidSlashAmount => 41,
            EscrowError::StorageMigrationFailed => 42,
            EscrowError::RecurringConfigNotFound => 43,
            EscrowError::InvalidRecurringSchedule => 44,
            EscrowError::NoRecurringPaymentDue => 45,
            EscrowError::RecurringSchedulePaused => 46,
            EscrowError::RecurringScheduleCancelled => 47,
            EscrowError::OracleNotConfigured => 48,
            EscrowError::OraclePriceStale => 49,
            EscrowError::OracleInvalidPrice => 50,
            EscrowError::InvalidTimelockDuration => 51,
            EscrowError::TimelockAlreadyActive => 52,
            EscrowError::TimelockNotExpired => 53,
            EscrowError::BridgeError => 54,
            EscrowError::GracePeriodNotElapsed => 55,
            EscrowError::OracleSignatureInvalid => 56,
            EscrowError::OraclePayloadStale => 57,
            EscrowError::OraclePayoutInvalid => 58,
            EscrowError::DisputeStartNotRecorded => 59,
        }
    }

    /// The number under which the error is reported to callers of the contract.
    pub fn code(self) -> (r: u32)
        ensures
            r == self.spec_code(),
    {
        match self {
            EscrowError::AlreadyInitialized => 1,
            EscrowError::NotInitialized => 2,
            EscrowError::Unauthorized => 3,
            EscrowError::AdminOnly => 4,
            EscrowError::ClientOnly => 5,
            EscrowError::FreelancerOnly => 6,
            EscrowError::EscrowNotFound => 8,
            EscrowError::EscrowNotActive => 9,
            EscrowError::EscrowNotDisputed => 10,
            EscrowError::CannotCancelWithPendingFunds => 12,
            EscrowError::MilestoneNotFound => 13,
            EscrowError::InvalidMilestoneState => 14,
            EscrowError::MilestoneAmountExceedsEscrow => 15,
            EscrowError::TooManyMilestones => 16,
            EscrowError::InvalidMilestoneAmount => 17,
            EscrowError::TransferFailed => 18,
            EscrowError::InvalidEscrowAmount => 19,
            EscrowError::AmountMismatch => 20,
            EscrowError::InvalidEscrowState => 21,
            EscrowError::DisputeAlreadyExists => 23,
            EscrowError::InvalidDeadline => 25,
            EscrowError::DeadlineExpired => 26,
            EscrowError::InvalidLockTime => 27,
            EscrowError::LockTimeNotExpired => 28,
            EscrowError::LockTimeExpired => 29,
            EscrowError::InvalidLockTimeExtension => 30,
            EscrowError::ContractPaused => 31,
            EscrowError::CancellationNotFound => 32,
            EscrowError::CancellationAlreadyExists => 33,
            EscrowError::CancellationAlreadyDisputed => 34,
            EscrowError::CancellationDisputePeriodActive => 35,
            EscrowError::CancellationDisputeDeadlineExpired => 36,
            EscrowError::CancellationDisputed => 37,
            EscrowError::SlashNotFound => 38,
            EscrowError::SlashAlreadyDisputed => 39,
            EscrowError::SlashDisputeDeadlineExpired => 40,
            EscrowError::InvalidSlashAmount => 41,
            EscrowError::StorageMigrationFailed => 42,
            EscrowError::RecurringConfigNotFound => 43,
            EscrowError::InvalidRecurringSchedule => 44,
            EscrowError::NoRecurringPaymentDue => 45,
            EscrowError::RecurringSchedulePaused => 46,
            EscrowError::RecurringScheduleCancelled => 47,
            EscrowError::OracleNotConfigured => 48,
            EscrowError::OraclePriceStale => 49,
            EscrowError::OracleInvalidPrice => 50,
            EscrowError::InvalidTimelockDuration => 51,
            EscrowError::TimelockAlreadyActive => 52,
            EscrowError::TimelockNotExpired => 53,
            EscrowError::BridgeError => 54,
            EscrowError::GracePeriodNotElapsed => 55,
            EscrowError::OracleSignatureInvalid => 56,
            EscrowError::OraclePayloadStale => 57,
            EscrowError::OraclePayoutInvalid => 58,
            EscrowError::DisputeStartNotRecorded => 59,
        }
    }
}

/// No two errors share a number.
pub proof fn law_error_codes_are_distinct(a: EscrowError, b: EscrowError)
    ensures
        a.spec_code() == b.spec_code() ==> a == b,
{
}

} // verus!
