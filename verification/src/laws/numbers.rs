//! The numbers that callers and the host rely on, written out.
use vstd::prelude::*;

use crate::errors::EscrowError;
use crate::laws::accounts;
use crate::ledger::Ledger;
use crate::types::{
    Address, MilestoneStatus, OptionalTimelock, OracleResolutionPayload, ReputationRecord, Timelock,
    MS_APPROVED, MS_BLOCKS_CANCEL, MS_DISPUTED, MS_PENDING, MS_REJECTED, MS_RELEASED, MS_SUBMITTED,
    MS_TERMINAL,
};

verus! {

/// Each error is reported under its own number, and under no other.
pub proof fn law_error_numbers(error: EscrowError)
    ensures
        error == EscrowError::AlreadyInitialized <==> error.spec_code() == 1,
        error == EscrowError::NotInitialized <==> error.spec_code() == 2,
        error == EscrowError::Unauthorized <==> error.spec_code() == 3,
        error == EscrowError::AdminOnly <==> error.spec_code() == 4,
        error == EscrowError::ClientOnly <==> error.spec_code() == 5,
        error == EscrowError::FreelancerOnly <==> error.spec_code() == 6,
        error == EscrowError::EscrowNotFound <==> error.spec_code() == 8,
        error == EscrowError::EscrowNotActive <==> error.spec_code() == 9,
        error == EscrowError::EscrowNotDisputed <==> error.spec_code() == 10,
        error == EscrowError::CannotCancelWithPendingFunds <==> error.spec_code() == 12,
        error == EscrowError::MilestoneNotFound <==> error.spec_code() == 13,
        error == EscrowError::InvalidMilestoneState <==> error.spec_code() == 14,
        error == EscrowError::MilestoneAmountExceedsEscrow <==> error.spec_code() == 15,
        error == EscrowError::TooManyMilestones <==> error.spec_code() == 16,
        error == EscrowError::InvalidMilestoneAmount <==> error.spec_code() == 17,
        error == EscrowError::TransferFailed <==> error.spec_code() == 18,
        error == EscrowError::InvalidEscrowAmount <==> error.spec_code() == 19,
        error == EscrowError::AmountMismatch <==> error.spec_code() == 20,
        error == EscrowError::InvalidEscrowState <==> error.spec_code() == 21,
        error == EscrowError::DisputeAlreadyExists <==> error.spec_code() == 23,
        error == EscrowError::InvalidDeadline <==> error.spec_code() == 25,
        error == EscrowError::DeadlineExpired <==> error.spec_code() == 26,
        error == EscrowError::InvalidLockTime <==> error.spec_code() == 27,
        error == EscrowError::LockTimeNotExpired <==> error.spec_code() == 28,
        error == EscrowError::LockTimeExpired <==> error.spec_code() == 29,
        error == EscrowError::InvalidLockTimeExtension <==> error.spec_code() == 30,
        error == EscrowError::ContractPaused <==> error.spec_code() == 31,
        error == EscrowError::CancellationNotFound <==> error.spec_code() == 32,
        error == EscrowError::CancellationAlreadyExists <==> error.spec_code() == 33,
        error == EscrowError::CancellationAlreadyDisputed <==> error.spec_code() == 34,
        error == EscrowError::CancellationDisputePeriodActive <==> error.spec_code() == 35,
        error == EscrowError::CancellationDisputeDeadlineExpired <==> error.spec_code() == 36,
        error == EscrowError::CancellationDisputed <==> error.spec_code() == 37,
        error == EscrowError::SlashNotFound <==> error.spec_code() == 38,
        error == EscrowError::SlashAlreadyDisputed <==> error.spec_code() == 39,
        error == EscrowError::SlashDisputeDeadlineExpired <==> error.spec_code() == 40,
        error == EscrowError::InvalidSlashAmount <==> error.spec_code() == 41,
        error == EscrowError::StorageMigrationFailed <==> error.spec_code() == 42,
        error == EscrowError::RecurringConfigNotFound <==> error.spec_code() == 43,
        error == EscrowError::InvalidRecurringSchedule <==> error.spec_code() == 44,
        error == EscrowError::NoRecurringPaymentDue <==> error.spec_code() == 45,
        error == EscrowError::RecurringSchedulePaused <==> error.spec_code() == 46,
        error == EscrowError::RecurringScheduleCancelled <==> error.spec_code() == 47,
        error == EscrowError::OracleNotConfigured <==> error.spec_code() == 48,
        error == EscrowError::OraclePriceStale <==> error.spec_code() == 49,
        error == EscrowError::OracleInvalidPrice <==> error.spec_code() == 50,
        error == EscrowError::InvalidTimelockDuration <==> error.spec_code() == 51,
        error == EscrowError::TimelockAlreadyActive <==> error.spec_code() == 52,
        error == EscrowError::TimelockNotExpired <==> error.spec_code() == 53,
        error == EscrowError::BridgeError <==> error.spec_code() == 54,
        error == EscrowError::GracePeriodNotElapsed <==> error.spec_code() == 55,
        error == EscrowError::OracleSignatureInvalid <==> error.spec_code() == 56,
        error == EscrowError::OraclePayloadStale <==> error.spec_code() == 57,
        error == EscrowError::OraclePayoutInvalid <==> error.spec_code() == 58,
        error == EscrowError::DisputeStartNotRecorded <==> error.spec_code() == 59,
{
}

/// Each state of a milestone is one bit. The states in which it is over, and those in which it
/// stands in the way of a cancellation, are the bits that they are made of.
pub proof fn law_states(status: MilestoneStatus)
    ensures
        status == MS_PENDING <==> status == 1,
        status == MS_SUBMITTED <==> status == 2,
        status == MS_APPROVED <==> status == 4,
        status == MS_RELEASED <==> status == 8,
        status == MS_REJECTED <==> status == 16,
        status == MS_DISPUTED <==> status == 32,
        status == MS_TERMINAL <==> status == 40,
        status == MS_BLOCKS_CANCEL <==> status == 6,
{
    assert(8u32 | 32u32 == 40u32) by (bit_vector);
    assert(2u32 | 4u32 == 6u32) by (bit_vector);
}

/// What is kept alive is extended to fifty thousand ledgers once less than five thousand are left.
pub proof fn law_lifetimes(left: u32)
    ensures
        left < crate::storage::INSTANCE_TTL_THRESHOLD <==> left < 5_000,
        left < crate::storage::PERSISTENT_TTL_THRESHOLD <==> left < 5_000,
        left == crate::storage::INSTANCE_TTL_EXTEND_TO <==> left == 50_000,
        left == crate::storage::PERSISTENT_TTL_EXTEND_TO <==> left == 50_000,
{
}

/// A timelock that may be absent is present in one form if and only if it is in the other.
pub proof fn law_timelock_forms(t: Timelock)
    ensures
        <OptionalTimelock as vstd::std_specs::convert::FromSpec<Option<Timelock>>>::from_spec(
            Some(t),
        ) == OptionalTimelock::Present(t),
        <OptionalTimelock as vstd::std_specs::convert::FromSpec<Option<Timelock>>>::from_spec(
            None,
        ) == OptionalTimelock::Absent,
        <Option<Timelock> as vstd::std_specs::convert::FromSpec<OptionalTimelock>>::from_spec(
            OptionalTimelock::Present(t),
        ) == Some(t),
        <Option<Timelock> as vstd::std_specs::convert::FromSpec<OptionalTimelock>>::from_spec(
            OptionalTimelock::Absent,
        ) is None,
{
}

/// Division rounds toward zero: down where the dividend is not negative, and up where it is.
pub proof fn law_rounding(x: int, d: int)
    requires
        d > 0,
    ensures
        ({
            let q = crate::reputation::quotient(x, d);
            &&& x >= 0 ==> d * q <= x < d * q + d
            &&& x < 0 ==> d * q - d < x <= d * q
        }),
{
    let y: int = if x >= 0 {
        x
    } else {
        -x
    };
    let q = y / d;
    assert(d * q <= y < d * q + d) by (nonlinear_arith)
        requires
            q == y / d,
            d > 0,
            y >= 0,
    ;
    assert(d * -q == -(d * q)) by (nonlinear_arith);
}

/// What does not fit becomes the nearest number that does.
pub proof fn law_saturation(x: int, y: i128, z: u64)
    ensures
        i128::MIN <= x <= i128::MAX ==> crate::reputation::clamped(x) == x,
        x >= y ==> crate::reputation::clamped(x) >= y,
        x <= y ==> crate::reputation::clamped(x) <= y,
        0 <= x <= u64::MAX ==> crate::reputation::clamped_score(x) == x,
        x >= z ==> crate::reputation::clamped_score(x) >= z,
        x <= z ==> crate::reputation::clamped_score(x) <= z,
{
}

/// A reputation has room for an update as long as its counters are not full, and the reputations
/// of two parties have room for a dispute as long as theirs are not.
pub proof fn law_room_for_updates(
    s: Ledger,
    record: ReputationRecord,
    completed: bool,
    disputed: bool,
    client: Address,
    freelancer: Address,
)
    requires
        s.well_kept(),
    ensures
        crate::reputation::update_fits(record, completed, disputed) <==> {
            &&& completed ==> record.completed_escrows < 4_294_967_295
            &&& disputed ==> record.disputed_escrows < 4_294_967_295
        },
        client != freelancer ==> (s.dispute_in_range(client, freelancer) <==> {
            &&& s.reputation_of(client).disputed_escrows < 4_294_967_295
            &&& s.reputation_of(freelancer).disputed_escrows < 4_294_967_295
        }),
{
}

/// A cancellation can be executed as long as ten times the balance is an amount, and the
/// requester's reputation has room for one more slash of a tenth of it.
pub proof fn law_room_for_slashes(s: Ledger, id: u64)
    requires
        s.well_kept(),
        s.execute_cancellation_refusal(id) is None,
    ensures
        ({
            let balance = s.escrows[id].remaining_balance as int;
            let record = s.reputation_of(s.cancellations[id].requester);
            s.execution_in_range(id) <==> {
                &&& balance * 10 <= i128::MAX
                &&& record.slash_count < 4_294_967_295
                &&& record.total_slashed + balance / 10 <= i128::MAX
            }
        }),
{
    accounts::law_access(s, id, s.contract, s.contract);
    assert(s.keeps(id));
    let balance = s.escrows[id].remaining_balance as int;
    assert(balance * 10 / 100 == balance / 10) by (nonlinear_arith)
        requires
            balance >= 0,
    ;
}

/// A dispute can be resolved as long as the reputations of both parties have room for it. The
/// oracle's shares must also be within reach of the arithmetic.
pub proof fn law_room_for_resolutions(
    s: Ledger,
    caller: Address,
    id: u64,
    client_amount: i128,
    freelancer_amount: i128,
    payload: OracleResolutionPayload,
    grace: u64,
)
    requires
        s.well_kept(),
        s.escrows[id].client != s.escrows[id].freelancer,
    ensures
        ({
            let meta = s.escrows[id];
            let room = s.reputation_of(meta.client).disputed_escrows < 4_294_967_295
                && s.reputation_of(meta.freelancer).disputed_escrows < 4_294_967_295;
            let refusal = s.resolve_dispute_refusal(caller, id, client_amount, freelancer_amount);
            &&& refusal is None ==> (s.resolve_in_range(
                caller,
                id,
                client_amount,
                freelancer_amount,
            ) <==> room)
            &&& s.oracle_resolve_refusal(id, payload, grace) is None ==> (s.oracle_in_range(
                id,
                payload,
                grace,
            ) <==> meta.remaining_balance * payload.client_bps <= i128::MAX && room)
        }),
{
    let record = s.reputation_of(s.contract);
    let meta = s.escrows[id];
    law_room_for_updates(s, record, false, false, meta.client, meta.freelancer);
    if s.access_refusal(id) is None {
        accounts::law_access(s, id, caller, caller);
        assert(s.keeps(id));
        assert(meta.remaining_balance * payload.client_bps >= 0) by (nonlinear_arith)
            requires
                meta.remaining_balance >= 0,
        ;
    }
}

/// The rent of an escrow can be settled as long as the time at which it will expire is a time.
pub proof fn law_room_for_settlement(s: Ledger, id: u64)
    requires
        s.well_kept(),
        s.access_refusal(id) is None,
        accounts::days_owed(s, id) > 0,
    ensures
        s.rent_in_range(id) <==> s.rent_expires_at(s.accessed_escrow(id)) <= u64::MAX,
        s.collect_in_range(id) <==> s.rent_in_range(id),
{
    assert(s.keeps(id));
    assert(s.rent_periods(s.escrows[id]) > 0);
}

/// The rent of an escrow that owes none can always be settled.
pub proof fn law_room_for_rent(s: Ledger, id: u64)
    requires
        accounts::days_owed(s, id) == 0,
    ensures
        s.rent_in_range(id),
        s.collect_in_range(id),
{
    assert(s.escrows.contains_key(id) ==> s.rent_periods(s.escrows[id]) == 0);
}

} // verus!
