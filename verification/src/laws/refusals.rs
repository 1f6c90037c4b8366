//! When a request is refused, and why: each error has its reason, and the first reason counts.
use vstd::prelude::*;

use crate::errors::EscrowError;
use crate::laws::accounts;
use crate::ledger::Ledger;
use crate::types::{
    Address, EscrowMetaView, EscrowStatus, MilestoneStatus, MilestoneView, OptionalTimelock,
    OracleResolutionPayload, RecurringInterval, RecurringPaymentConfig, Text, MS_APPROVED,
    MS_PENDING, MS_REJECTED, MS_SUBMITTED,
};

verus! {

/// Whether escrow `id` is there and its reserve covers the rent that it owes.
pub open spec fn in_reach(s: Ledger, id: u64) -> bool {
    s.escrows.contains_key(id) && accounts::rent_owed(s, id) <= s.escrows[id].rent_balance
}

/// An escrow can be created with a positive amount, a deadline and a lock time ahead, and a token
/// that is not an unapproved wrapped one.
pub proof fn law_create_escrow_refusals(
    s: Ledger,
    token: Address,
    amount: i128,
    deadline: Option<u64>,
    lock_time: Option<u64>,
)
    ensures
        ({
            let refusal = s.create_escrow_refusal(token, amount, deadline, lock_time);
            let ok1 = s.admin is Some;
            let ok2 = ok1 && s.paused != Some(true);
            let ok3 = ok2 && amount > 0;
            let ok4 = ok3 && (deadline is None || deadline->0 > s.now);
            let ok5 = ok4 && (lock_time is None || lock_time->0 > s.now);
            let ok6 = ok5
                && (!s.wrapped_tokens.contains_key(token) || s.wrapped_tokens[token].is_approved);
            &&& refusal == Some(EscrowError::NotInitialized) <==> s.admin is None
            &&& refusal == Some(EscrowError::ContractPaused) <==> ok1 && s.paused == Some(true)
            &&& refusal == Some(EscrowError::InvalidEscrowAmount) <==> ok2 && amount <= 0
            &&& refusal == Some(EscrowError::InvalidDeadline) <==> ok3
                && !(deadline is None || deadline->0 > s.now)
            &&& refusal == Some(EscrowError::InvalidLockTime) <==> ok4
                && !(lock_time is None || lock_time->0 > s.now)
            &&& refusal == Some(EscrowError::BridgeError) <==> ok5
                && !(!s.wrapped_tokens.contains_key(token) || s.wrapped_tokens[token].is_approved)
            &&& refusal is None <==> ok6
        }),
{
}

/// A schedule can be created with a positive amount, a start ahead and at least one payment, where
/// all payments together are an amount.
pub proof fn law_create_recurring_refusals(
    s: Ledger,
    amount: i128,
    interval: RecurringInterval,
    start: u64,
    end: Option<u64>,
    count: Option<u32>,
)
    ensures
        ({
            let refusal = s.create_recurring_refusal(amount, interval, start, end, count);
            let total = crate::recurring::total_payments(start, interval, end, count);
            let ok1 = s.admin is Some;
            let ok2 = ok1 && s.paused != Some(true);
            let ok3 = ok2 && amount > 0;
            let ok4 = ok3 && (start > s.now && total is Some);
            let ok5 = ok4 && amount * total->0 <= i128::MAX;
            &&& refusal == Some(EscrowError::NotInitialized) <==> s.admin is None
            &&& refusal == Some(EscrowError::ContractPaused) <==> ok1 && s.paused == Some(true)
            &&& refusal == Some(EscrowError::InvalidMilestoneAmount) <==> ok2 && amount <= 0
            &&& refusal == Some(EscrowError::InvalidRecurringSchedule) <==> ok3
                && !(start > s.now && total is Some)
            &&& refusal == Some(EscrowError::AmountMismatch) <==> ok4
                && amount * total->0 > i128::MAX
            &&& refusal is None <==> ok5
        }),
{
}

/// The client can add a milestone with a positive amount to an active escrow, as long as that much
/// is not set aside yet, and there are less than twenty.
pub proof fn law_add_milestone_refusals(
    s: Ledger,
    caller: Address,
    id: u64,
    amount: i128,
)
    requires
        s.well_kept(),
    ensures
        ({
            let refusal = s.add_milestone_refusal(caller, id, amount);
            let meta = s.escrows[id];
            let ok1 = s.paused != Some(true);
            let ok2 = ok1 && amount > 0;
            let ok3 = ok2 && in_reach(s, id);
            let ok4 = ok3 && caller == meta.client;
            let ok5 = ok4 && meta.status == EscrowStatus::Active;
            let ok6 = ok5 && meta.allocated_amount + amount <= meta.total_amount;
            let ok7 = ok6 && meta.milestone_count < 20;
            let ok8 = ok7 && meta.rent_balance - accounts::rent_owed(s, id) + 30 <= i128::MAX;
            &&& refusal == Some(EscrowError::ContractPaused) <==> s.paused == Some(true)
            &&& refusal == Some(EscrowError::InvalidMilestoneAmount) <==> ok1 && amount <= 0
            &&& refusal == Some(EscrowError::EscrowNotFound) <==> ok2 && !in_reach(s, id)
            &&& refusal == Some(EscrowError::ClientOnly) <==> ok3 && caller != meta.client
            &&& refusal == Some(EscrowError::EscrowNotActive) <==> ok4
                && meta.status != EscrowStatus::Active
            &&& refusal == Some(EscrowError::MilestoneAmountExceedsEscrow) <==> ok5
                && meta.allocated_amount + amount > meta.total_amount
            &&& refusal == Some(EscrowError::TooManyMilestones) <==> ok6
                && meta.milestone_count >= 20
            &&& refusal == Some(EscrowError::AmountMismatch) <==> ok7
                && meta.rent_balance - accounts::rent_owed(s, id) + 30 > i128::MAX
            &&& refusal is None <==> ok8
        }),
{
    accounts::law_reach(s, id);
    if in_reach(s, id) {
        accounts::law_access(s, id, s.contract, s.contract);
    }
}

/// The freelancer can submit a milestone that is pending or was rejected.
pub proof fn law_submit_milestone_refusals(
    s: Ledger,
    caller: Address,
    id: u64,
    mid: u32,
)
    requires
        s.well_kept(),
    ensures
        ({
            let refusal = s.submit_milestone_refusal(caller, id, mid);
            let meta = s.escrows[id];
            let m = s.milestones[(id, mid)];
            let ok1 = s.paused != Some(true);
            let ok2 = ok1 && in_reach(s, id);
            let ok3 = ok2 && caller == meta.freelancer;
            let ok4 = ok3 && s.milestones.contains_key((id, mid));
            let ok5 = ok4 && (m.status == MS_PENDING || m.status == MS_REJECTED);
            let ok6 = ok5 && meta.submitted_count < u32::MAX;
            &&& refusal == Some(EscrowError::ContractPaused) <==> s.paused == Some(true)
            &&& refusal == Some(EscrowError::EscrowNotFound) <==> ok1 && !in_reach(s, id)
            &&& refusal == Some(EscrowError::FreelancerOnly) <==> ok2
                && caller != meta.freelancer
            &&& refusal == Some(EscrowError::MilestoneNotFound) <==> ok3
                && !s.milestones.contains_key((id, mid))
            &&& refusal == Some(EscrowError::InvalidMilestoneState) <==> ok4
                && !(m.status == MS_PENDING || m.status == MS_REJECTED)
            &&& refusal == Some(EscrowError::AmountMismatch) <==> ok5
                && meta.submitted_count >= u32::MAX
            &&& refusal is None <==> ok6
        }),
{
    accounts::law_reach(s, id);
    if in_reach(s, id) {
        accounts::law_access(s, id, s.contract, s.contract);
    }
}

/// A submitted milestone of an active escrow whose lock time is over can be approved: by an
/// approver of its policy or, where it has none, by the client and the other signers, and by each
/// of them once. What is then released must be there.
pub proof fn law_approve_milestone_refusals(
    s: Ledger,
    caller: Address,
    id: u64,
    mid: u32,
)
    requires
        s.well_kept(),
    ensures
        ({
            let refusal = s.approve_milestone_refusal(caller, id, mid);
            let meta = s.escrows[id];
            let m = s.milestones[(id, mid)];
            let may = if meta.multisig.approvers.len() > 0 {
                meta.multisig.approvers.contains(caller)
            } else {
                caller == meta.client || meta.buyer_signers.contains(caller)
            };
            let fresh = forall|i: int|
                0 <= i < m.approvals.len() ==> (#[trigger] m.approvals[i]).signer != caller;
            let done = crate::laws::work::decides(meta, m, caller);
            let open = crate::laws::work::timelock_is_over(meta.timelock, s.now);
            let ok1 = s.paused != Some(true);
            let ok2 = ok1 && in_reach(s, id);
            let ok3 = ok2 && meta.status == EscrowStatus::Active;
            let ok4 = ok3 && (meta.lock_time is None || meta.lock_time->0 <= s.now);
            let ok5 = ok4 && may;
            let ok6 = ok5 && s.milestones.contains_key((id, mid));
            let ok7 = ok6 && (m.status == MS_SUBMITTED && fresh);
            let ok8 = ok7
                && (!done
                    || (meta.approved_count < u32::MAX
                        && (!open
                            || (m.amount <= meta.remaining_balance
                                && meta.released_count < u32::MAX))));
            &&& refusal == Some(EscrowError::ContractPaused) <==> s.paused == Some(true)
            &&& refusal == Some(EscrowError::EscrowNotFound) <==> ok1 && !in_reach(s, id)
            &&& refusal == Some(EscrowError::EscrowNotActive) <==> ok2
                && meta.status != EscrowStatus::Active
            &&& refusal == Some(EscrowError::LockTimeNotExpired) <==> ok3
                && !(meta.lock_time is None || meta.lock_time->0 <= s.now)
            &&& refusal == Some(EscrowError::Unauthorized) <==> ok4 && !may
            &&& refusal == Some(EscrowError::MilestoneNotFound) <==> ok5
                && !s.milestones.contains_key((id, mid))
            &&& refusal == Some(EscrowError::InvalidMilestoneState) <==> ok6
                && !(m.status == MS_SUBMITTED && fresh)
            &&& refusal == Some(EscrowError::AmountMismatch) <==> ok7
                && !(!done
                    || (meta.approved_count < u32::MAX
                        && (!open
                            || (m.amount <= meta.remaining_balance
                                && meta.released_count < u32::MAX))))
            &&& refusal is None <==> ok8
        }),
{
    accounts::law_reach(s, id);
    if in_reach(s, id) {
        accounts::law_access(s, id, s.contract, s.contract);
    }
    if in_reach(s, id) && s.milestones.contains_key((id, mid)) {
        assert(s.keeps(id));
        assert(s.milestones[(id, mid)].amount > 0);
        crate::laws::approvals::lemma_same_signers(
            s.escrows[id],
            s.accessed_escrow(id),
            s.milestones[(id, mid)],
            caller,
        );
        assert(crate::laws::work::decides(s.escrows[id], s.milestones[(id, mid)], caller)
            == crate::milestones::suffices(s.escrows[id], s.milestones[(id, mid)], caller));
    }
}

/// A submitted milestone of an active escrow can be rejected by the client and the approvers of the
/// policy.
pub proof fn law_reject_milestone_refusals(
    s: Ledger,
    caller: Address,
    id: u64,
    mid: u32,
)
    requires
        s.well_kept(),
    ensures
        ({
            let refusal = s.reject_milestone_refusal(caller, id, mid);
            let meta = s.escrows[id];
            let ok1 = s.paused != Some(true);
            let ok2 = ok1 && in_reach(s, id);
            let ok3 = ok2 && (caller == meta.client || meta.multisig.approvers.contains(caller));
            let ok4 = ok3 && meta.status == EscrowStatus::Active;
            let ok5 = ok4 && s.milestones.contains_key((id, mid));
            let ok6 = ok5 && s.milestones[(id, mid)].status == MS_SUBMITTED;
            &&& refusal == Some(EscrowError::ContractPaused) <==> s.paused == Some(true)
            &&& refusal == Some(EscrowError::EscrowNotFound) <==> ok1 && !in_reach(s, id)
            &&& refusal == Some(EscrowError::ClientOnly) <==> ok2
                && !(caller == meta.client || meta.multisig.approvers.contains(caller))
            &&& refusal == Some(EscrowError::EscrowNotActive) <==> ok3
                && meta.status != EscrowStatus::Active
            &&& refusal == Some(EscrowError::MilestoneNotFound) <==> ok4
                && !s.milestones.contains_key((id, mid))
            &&& refusal == Some(EscrowError::InvalidMilestoneState) <==> ok5
                && s.milestones[(id, mid)].status != MS_SUBMITTED
            &&& refusal is None <==> ok6
        }),
{
    accounts::law_reach(s, id);
    if in_reach(s, id) {
        accounts::law_access(s, id, s.contract, s.contract);
    }
}

/// The admin can release the funds of an approved milestone when the lock time is over, unless the
/// escrow is disputed. They must be there.
pub proof fn law_release_funds_refusals(
    s: Ledger,
    caller: Address,
    id: u64,
    mid: u32,
)
    requires
        s.well_kept(),
    ensures
        ({
            let refusal = s.release_funds_refusal(caller, id, mid);
            let meta = s.escrows[id];
            let m = s.milestones[(id, mid)];
            let ok1 = s.paused != Some(true);
            let ok2 = ok1 && s.admin is Some;
            let ok3 = ok2 && s.admin == Some(caller);
            let ok4 = ok3 && s.milestones.contains_key((id, mid));
            let ok5 = ok4 && m.status == MS_APPROVED;
            let ok6 = ok5 && in_reach(s, id);
            let ok7 = ok6 && (meta.lock_time is None || meta.lock_time->0 <= s.now);
            let ok8 = ok7 && (m.amount <= meta.remaining_balance && meta.released_count < u32::MAX);
            let ok9 = ok8 && meta.status != EscrowStatus::Disputed;
            &&& refusal == Some(EscrowError::ContractPaused) <==> s.paused == Some(true)
            &&& refusal == Some(EscrowError::NotInitialized) <==> ok1 && s.admin is None
            &&& refusal == Some(EscrowError::AdminOnly) <==> ok2 && s.admin != Some(caller)
            &&& refusal == Some(EscrowError::MilestoneNotFound) <==> ok3
                && !s.milestones.contains_key((id, mid))
            &&& refusal == Some(EscrowError::InvalidMilestoneState) <==> ok4
                && m.status != MS_APPROVED
            &&& refusal == Some(EscrowError::EscrowNotFound) <==> ok5 && !in_reach(s, id)
            &&& refusal == Some(EscrowError::LockTimeNotExpired) <==> ok6
                && !(meta.lock_time is None || meta.lock_time->0 <= s.now)
            &&& refusal == Some(EscrowError::AmountMismatch) <==> ok7
                && !(m.amount <= meta.remaining_balance && meta.released_count < u32::MAX)
            &&& refusal == Some(EscrowError::EscrowNotActive) <==> ok8
                && meta.status == EscrowStatus::Disputed
            &&& refusal is None <==> ok9
        }),
{
    accounts::law_reach(s, id);
    if in_reach(s, id) {
        accounts::law_access(s, id, s.contract, s.contract);
    }
    if in_reach(s, id) && s.milestones.contains_key((id, mid)) {
        assert(s.keeps(id));
        assert(s.milestones[(id, mid)].amount > 0);
    }
}

/// The client can cancel an active escrow outright when no work is submitted, and none is approved
/// and not released.
pub proof fn law_cancel_escrow_refusals(
    s: Ledger,
    caller: Address,
    id: u64,
)
    requires
        s.well_kept(),
    ensures
        ({
            let refusal = s.cancel_escrow_refusal(caller, id);
            let meta = s.escrows[id];
            let ok1 = s.paused != Some(true);
            let ok2 = ok1 && in_reach(s, id);
            let ok3 = ok2 && caller == meta.client;
            let ok4 = ok3 && meta.status == EscrowStatus::Active;
            let ok5 = ok4
                && (meta.submitted_count == 0 && meta.approved_count <= meta.released_count);
            &&& refusal == Some(EscrowError::ContractPaused) <==> s.paused == Some(true)
            &&& refusal == Some(EscrowError::EscrowNotFound) <==> ok1 && !in_reach(s, id)
            &&& refusal == Some(EscrowError::ClientOnly) <==> ok2 && caller != meta.client
            &&& refusal == Some(EscrowError::EscrowNotActive) <==> ok3
                && meta.status != EscrowStatus::Active
            &&& refusal == Some(EscrowError::CannotCancelWithPendingFunds) <==> ok4
                && !(meta.submitted_count == 0 && meta.approved_count <= meta.released_count)
            &&& refusal is None <==> ok5
        }),
{
    accounts::law_reach(s, id);
    if in_reach(s, id) {
        accounts::law_access(s, id, s.contract, s.contract);
    }
}

/// A party can start a timelock of one to thirty days on an active escrow that has none.
pub proof fn law_start_timelock_refusals(
    s: Ledger,
    caller: Address,
    id: u64,
    duration: u64,
)
    requires
        s.well_kept(),
    ensures
        ({
            let refusal = s.start_timelock_refusal(caller, id, duration);
            let meta = s.escrows[id];
            let ok1 = s.admin is Some;
            let ok2 = ok1 && s.paused != Some(true);
            let ok3 = ok2 && 86_400 <= duration <= 2_592_000;
            let ok4 = ok3 && in_reach(s, id);
            let ok5 = ok4 && (caller == meta.client || caller == meta.freelancer);
            let ok6 = ok5 && meta.status == EscrowStatus::Active;
            let ok7 = ok6 && meta.timelock == OptionalTimelock::Absent;
            &&& refusal == Some(EscrowError::NotInitialized) <==> s.admin is None
            &&& refusal == Some(EscrowError::ContractPaused) <==> ok1 && s.paused == Some(true)
            &&& refusal == Some(EscrowError::InvalidTimelockDuration) <==> ok2
                && !(86_400 <= duration <= 2_592_000)
            &&& refusal == Some(EscrowError::EscrowNotFound) <==> ok3 && !in_reach(s, id)
            &&& refusal == Some(EscrowError::Unauthorized) <==> ok4
                && !(caller == meta.client || caller == meta.freelancer)
            &&& refusal == Some(EscrowError::EscrowNotActive) <==> ok5
                && meta.status != EscrowStatus::Active
            &&& refusal == Some(EscrowError::TimelockAlreadyActive) <==> ok6
                && meta.timelock != OptionalTimelock::Absent
            &&& refusal is None <==> ok7
        }),
{
    accounts::law_reach(s, id);
    if in_reach(s, id) {
        accounts::law_access(s, id, s.contract, s.contract);
    }
}

/// The client can move the lock time of an active escrow to a moment ahead, up to the last one that
/// is allowed, where there is such a limit.
pub proof fn law_extend_lock_refusals(
    s: Ledger,
    caller: Address,
    id: u64,
    time: u64,
)
    requires
        s.well_kept(),
    ensures
        ({
            let refusal = s.extend_lock_refusal(caller, id, time);
            let meta = s.escrows[id];
            let ok1 = s.paused != Some(true);
            let ok2 = ok1 && in_reach(s, id);
            let ok3 = ok2 && caller == meta.client;
            let ok4 = ok3 && meta.status == EscrowStatus::Active;
            let ok5 = ok4
                && (time > s.now
                    && (meta.lock_time_extension is None || time <= meta.lock_time_extension->0));
            &&& refusal == Some(EscrowError::ContractPaused) <==> s.paused == Some(true)
            &&& refusal == Some(EscrowError::EscrowNotFound) <==> ok1 && !in_reach(s, id)
            &&& refusal == Some(EscrowError::ClientOnly) <==> ok2 && caller != meta.client
            &&& refusal == Some(EscrowError::EscrowNotActive) <==> ok3
                && meta.status != EscrowStatus::Active
            &&& refusal == Some(EscrowError::InvalidLockTimeExtension) <==> ok4
                && !(time > s.now
                    && (meta.lock_time_extension is None || time <= meta.lock_time_extension->0))
            &&& refusal is None <==> ok5
        }),
{
    accounts::law_reach(s, id);
    if in_reach(s, id) {
        accounts::law_access(s, id, s.contract, s.contract);
    }
}

/// A party can raise a dispute over an active escrow, and over a milestone of it that is there.
pub proof fn law_raise_dispute_refusals(
    s: Ledger,
    caller: Address,
    id: u64,
    milestone_id: Option<u32>,
)
    requires
        s.well_kept(),
    ensures
        ({
            let refusal = s.raise_dispute_refusal(caller, id, milestone_id);
            let meta = s.escrows[id];
            let ok1 = s.paused != Some(true);
            let ok2 = ok1 && in_reach(s, id);
            let ok3 = ok2 && (caller == meta.client || caller == meta.freelancer);
            let ok4 = ok3 && meta.status != EscrowStatus::Disputed;
            let ok5 = ok4 && meta.status == EscrowStatus::Active;
            let ok6 = ok5
                && (milestone_id is None || s.milestones.contains_key((id, milestone_id->0)));
            &&& refusal == Some(EscrowError::ContractPaused) <==> s.paused == Some(true)
            &&& refusal == Some(EscrowError::EscrowNotFound) <==> ok1 && !in_reach(s, id)
            &&& refusal == Some(EscrowError::Unauthorized) <==> ok2
                && !(caller == meta.client || caller == meta.freelancer)
            &&& refusal == Some(EscrowError::DisputeAlreadyExists) <==> ok3
                && meta.status == EscrowStatus::Disputed
            &&& refusal == Some(EscrowError::EscrowNotActive) <==> ok4
                && meta.status != EscrowStatus::Active
            &&& refusal == Some(EscrowError::MilestoneNotFound) <==> ok5
                && !(milestone_id is None || s.milestones.contains_key((id, milestone_id->0)))
            &&& refusal is None <==> ok6
        }),
{
    accounts::law_reach(s, id);
    if in_reach(s, id) {
        accounts::law_access(s, id, s.contract, s.contract);
    }
}

/// The arbiter and the admin can resolve a dispute, with two shares of which neither is negative
/// and which together are the remaining balance.
pub proof fn law_resolve_dispute_refusals(
    s: Ledger,
    caller: Address,
    id: u64,
    client_amount: i128,
    freelancer_amount: i128,
)
    requires
        s.well_kept(),
    ensures
        ({
            let refusal = s.resolve_dispute_refusal(caller, id, client_amount, freelancer_amount);
            let meta = s.escrows[id];
            let ok1 = s.paused != Some(true);
            let ok2 = ok1 && in_reach(s, id);
            let ok3 = ok2 && (meta.arbiter == Some(caller) || s.admin == Some(caller));
            let ok4 = ok3 && meta.status == EscrowStatus::Disputed;
            let ok5 = ok4
                && (client_amount >= 0 && freelancer_amount >= 0 && client_amount
                    + freelancer_amount == meta.remaining_balance);
            &&& refusal == Some(EscrowError::ContractPaused) <==> s.paused == Some(true)
            &&& refusal == Some(EscrowError::EscrowNotFound) <==> ok1 && !in_reach(s, id)
            &&& refusal == Some(EscrowError::AdminOnly) <==> ok2
                && !(meta.arbiter == Some(caller) || s.admin == Some(caller))
            &&& refusal == Some(EscrowError::EscrowNotDisputed) <==> ok3
                && meta.status != EscrowStatus::Disputed
            &&& refusal == Some(EscrowError::AmountMismatch) <==> ok4
                && !(client_amount >= 0 && freelancer_amount >= 0 && client_amount
                    + freelancer_amount == meta.remaining_balance)
            &&& refusal is None <==> ok5
        }),
{
    accounts::law_reach(s, id);
    if in_reach(s, id) {
        accounts::law_access(s, id, s.contract, s.contract);
    }
    if in_reach(s, id) {
        assert(s.keeps(id));
    }
}

/// A payload resolves the disputed escrow that it names, once the grace period since the dispute
/// was raised is over and as long as the payload has not expired. Its shares must be ten thousand
/// in all, and its key the trusted one.
pub proof fn law_oracle_resolve_refusals(
    s: Ledger,
    id: u64,
    payload: OracleResolutionPayload,
    grace: u64,
)
    requires
        s.well_kept(),
    ensures
        ({
            let refusal = s.oracle_resolve_refusal(id, payload, grace);
            let meta = s.escrows[id];
            let ok1 = s.paused != Some(true);
            let ok2 = ok1 && in_reach(s, id);
            let ok3 = ok2 && meta.status == EscrowStatus::Disputed;
            let ok4 = ok3 && meta.dispute_start_ledger is Some;
            let ok5 = ok4 && (s.now >= meta.dispute_start_ledger->0 + grace || s.now == u64::MAX);
            let ok6 = ok5 && s.now <= payload.expires_at;
            let ok7 = ok6 && payload.client_bps + payload.freelancer_bps == 10_000;
            let ok8 = ok7 && s.trusted_oracle_key is Some;
            let ok9 = ok8
                && (payload.escrow_id == id && s.trusted_oracle_key == Some(payload.oracle_pubkey));
            &&& refusal == Some(EscrowError::ContractPaused) <==> s.paused == Some(true)
            &&& refusal == Some(EscrowError::EscrowNotFound) <==> ok1 && !in_reach(s, id)
            &&& refusal == Some(EscrowError::EscrowNotDisputed) <==> ok2
                && meta.status != EscrowStatus::Disputed
            &&& refusal == Some(EscrowError::DisputeStartNotRecorded) <==> ok3
                && meta.dispute_start_ledger is None
            &&& refusal == Some(EscrowError::GracePeriodNotElapsed) <==> ok4
                && !(s.now >= meta.dispute_start_ledger->0 + grace || s.now == u64::MAX)
            &&& refusal == Some(EscrowError::OraclePayloadStale) <==> ok5
                && s.now > payload.expires_at
            &&& refusal == Some(EscrowError::OraclePayoutInvalid) <==> ok6
                && payload.client_bps + payload.freelancer_bps != 10_000
            &&& refusal == Some(EscrowError::OracleNotConfigured) <==> ok7
                && s.trusted_oracle_key is None
            &&& refusal == Some(EscrowError::OracleSignatureInvalid) <==> ok8
                && !(payload.escrow_id == id && s.trusted_oracle_key == Some(payload.oracle_pubkey))
            &&& refusal is None <==> ok9
        }),
{
    accounts::law_reach(s, id);
    if in_reach(s, id) {
        accounts::law_access(s, id, s.contract, s.contract);
    }
}

/// A party can ask for the cancellation of an active escrow for which nobody has yet.
pub proof fn law_request_cancellation_refusals(
    s: Ledger,
    caller: Address,
    id: u64,
)
    requires
        s.well_kept(),
    ensures
        ({
            let refusal = s.request_cancellation_refusal(caller, id);
            let meta = s.escrows[id];
            let ok1 = s.admin is Some;
            let ok2 = ok1 && s.paused != Some(true);
            let ok3 = ok2 && in_reach(s, id);
            let ok4 = ok3 && (caller == meta.client || caller == meta.freelancer);
            let ok5 = ok4 && meta.status == EscrowStatus::Active;
            let ok6 = ok5 && !s.cancellations.contains_key(id);
            let ok7 = ok6 && meta.rent_balance - accounts::rent_owed(s, id) + 30 <= i128::MAX;
            &&& refusal == Some(EscrowError::NotInitialized) <==> s.admin is None
            &&& refusal == Some(EscrowError::ContractPaused) <==> ok1 && s.paused == Some(true)
            &&& refusal == Some(EscrowError::EscrowNotFound) <==> ok2 && !in_reach(s, id)
            &&& refusal == Some(EscrowError::Unauthorized) <==> ok3
                && !(caller == meta.client || caller == meta.freelancer)
            &&& refusal == Some(EscrowError::EscrowNotActive) <==> ok4
                && meta.status != EscrowStatus::Active
            &&& refusal == Some(EscrowError::CancellationAlreadyExists) <==> ok5
                && s.cancellations.contains_key(id)
            &&& refusal == Some(EscrowError::AmountMismatch) <==> ok6
                && meta.rent_balance - accounts::rent_owed(s, id) + 30 > i128::MAX
            &&& refusal is None <==> ok7
        }),
{
    accounts::law_reach(s, id);
    if in_reach(s, id) {
        accounts::law_access(s, id, s.contract, s.contract);
    }
}

/// Anyone can have a cancellation executed once it can no longer be disputed, unless it was.
pub proof fn law_execute_cancellation_refusals(
    s: Ledger,
    id: u64,
)
    requires
        s.well_kept(),
    ensures
        ({
            let refusal = s.execute_cancellation_refusal(id);
            let ok1 = s.admin is Some;
            let ok2 = ok1 && s.paused != Some(true);
            let ok3 = ok2 && in_reach(s, id);
            let ok4 = ok3 && s.cancellations.contains_key(id);
            let ok5 = ok4 && s.now >= s.cancellations[id].dispute_deadline;
            let ok6 = ok5 && !s.cancellations[id].disputed;
            &&& refusal == Some(EscrowError::NotInitialized) <==> s.admin is None
            &&& refusal == Some(EscrowError::ContractPaused) <==> ok1 && s.paused == Some(true)
            &&& refusal == Some(EscrowError::EscrowNotFound) <==> ok2 && !in_reach(s, id)
            &&& refusal == Some(EscrowError::CancellationNotFound) <==> ok3
                && !s.cancellations.contains_key(id)
            &&& refusal == Some(EscrowError::CancellationDisputePeriodActive) <==> ok4
                && s.now < s.cancellations[id].dispute_deadline
            &&& refusal == Some(EscrowError::CancellationDisputed) <==> ok5
                && s.cancellations[id].disputed
            &&& refusal is None <==> ok6
        }),
{
    accounts::law_reach(s, id);
    if in_reach(s, id) {
        accounts::law_access(s, id, s.contract, s.contract);
    }
}

/// The party that did not ask for a cancellation can dispute it before its deadline, once.
pub proof fn law_dispute_cancellation_refusals(
    s: Ledger,
    caller: Address,
    id: u64,
)
    requires
        s.well_kept(),
    ensures
        ({
            let refusal = s.dispute_cancellation_refusal(caller, id);
            let meta = s.escrows[id];
            let request = s.cancellations[id];
            let ok1 = s.admin is Some;
            let ok2 = ok1 && s.paused != Some(true);
            let ok3 = ok2 && in_reach(s, id);
            let ok4 = ok3 && s.cancellations.contains_key(id);
            let ok5 = ok4
                && (caller != request.requester
                    && (caller == meta.client || caller == meta.freelancer));
            let ok6 = ok5 && !request.disputed;
            let ok7 = ok6 && s.now < request.dispute_deadline;
            &&& refusal == Some(EscrowError::NotInitialized) <==> s.admin is None
            &&& refusal == Some(EscrowError::ContractPaused) <==> ok1 && s.paused == Some(true)
            &&& refusal == Some(EscrowError::EscrowNotFound) <==> ok2 && !in_reach(s, id)
            &&& refusal == Some(EscrowError::CancellationNotFound) <==> ok3
                && !s.cancellations.contains_key(id)
            &&& refusal == Some(EscrowError::Unauthorized) <==> ok4
                && !(caller != request.requester
                    && (caller == meta.client || caller == meta.freelancer))
            &&& refusal == Some(EscrowError::CancellationAlreadyDisputed) <==> ok5
                && request.disputed
            &&& refusal == Some(EscrowError::CancellationDisputeDeadlineExpired) <==> ok6
                && s.now >= request.dispute_deadline
            &&& refusal is None <==> ok7
        }),
{
    accounts::law_reach(s, id);
    if in_reach(s, id) {
        accounts::law_access(s, id, s.contract, s.contract);
    }
}

/// Anyone can have a slash finalized that nobody disputed for 51 840 seconds.
pub proof fn law_finalize_slash_refusals(
    s: Ledger,
    id: u64,
)
    requires
        s.well_kept(),
    ensures
        ({
            let refusal = s.finalize_slash_refusal(id);
            let ok1 = s.admin is Some;
            let ok2 = ok1 && s.paused != Some(true);
            let ok3 = ok2 && s.slashes.contains_key(id);
            let ok4 = ok3 && !s.slashes[id].disputed;
            let ok5 = ok4 && s.now >= s.slashes[id].slashed_at + 51_840;
            &&& refusal == Some(EscrowError::NotInitialized) <==> s.admin is None
            &&& refusal == Some(EscrowError::ContractPaused) <==> ok1 && s.paused == Some(true)
            &&& refusal == Some(EscrowError::SlashNotFound) <==> ok2
                && !s.slashes.contains_key(id)
            &&& refusal == Some(EscrowError::SlashAlreadyDisputed) <==> ok3
                && s.slashes[id].disputed
            &&& refusal == Some(EscrowError::SlashDisputeDeadlineExpired) <==> ok4
                && s.now < s.slashes[id].slashed_at + 51_840
            &&& refusal is None <==> ok5
        }),
{
    accounts::law_reach(s, id);
    if s.slashes.contains_key(id) {
        assert(s.escrows.contains_key(id));
    }
}

/// The slashed user can dispute a slash for 51 840 seconds, once.
pub proof fn law_dispute_slash_refusals(
    s: Ledger,
    caller: Address,
    id: u64,
)
    requires
        s.well_kept(),
    ensures
        ({
            let refusal = s.dispute_slash_refusal(caller, id);
            let ok1 = s.paused != Some(true);
            let ok2 = ok1 && in_reach(s, id);
            let ok3 = ok2 && s.slashes.contains_key(id);
            let ok4 = ok3 && caller == s.slashes[id].slashed_user;
            let ok5 = ok4 && !s.slashes[id].disputed;
            let ok6 = ok5 && s.now < s.slashes[id].slashed_at + 51_840;
            &&& refusal == Some(EscrowError::ContractPaused) <==> s.paused == Some(true)
            &&& refusal == Some(EscrowError::EscrowNotFound) <==> ok1 && !in_reach(s, id)
            &&& refusal == Some(EscrowError::SlashNotFound) <==> ok2
                && !s.slashes.contains_key(id)
            &&& refusal == Some(EscrowError::Unauthorized) <==> ok3
                && caller != s.slashes[id].slashed_user
            &&& refusal == Some(EscrowError::SlashAlreadyDisputed) <==> ok4
                && s.slashes[id].disputed
            &&& refusal == Some(EscrowError::SlashDisputeDeadlineExpired) <==> ok5
                && s.now >= s.slashes[id].slashed_at + 51_840
            &&& refusal is None <==> ok6
        }),
{
    accounts::law_reach(s, id);
    if in_reach(s, id) {
        accounts::law_access(s, id, s.contract, s.contract);
    }
}

/// The arbiter and the admin can resolve a dispute over a slash.
pub proof fn law_resolve_slash_refusals(
    s: Ledger,
    caller: Address,
    id: u64,
)
    requires
        s.well_kept(),
    ensures
        ({
            let refusal = s.resolve_slash_refusal(caller, id);
            let meta = s.escrows[id];
            let ok1 = s.paused != Some(true);
            let ok2 = ok1 && s.slashes.contains_key(id);
            let ok3 = ok2 && in_reach(s, id);
            let ok4 = ok3 && (meta.arbiter == Some(caller) || s.admin == Some(caller));
            let ok5 = ok4 && s.slashes[id].disputed;
            &&& refusal == Some(EscrowError::ContractPaused) <==> s.paused == Some(true)
            &&& refusal == Some(EscrowError::SlashNotFound)
                <==> (ok1 && !s.slashes.contains_key(id)) || (ok4 && !(s.slashes[id].disputed))
            &&& refusal == Some(EscrowError::EscrowNotFound) <==> ok2 && !in_reach(s, id)
            &&& refusal == Some(EscrowError::AdminOnly) <==> ok3
                && !(meta.arbiter == Some(caller) || s.admin == Some(caller))
            &&& refusal is None <==> ok5
        }),
{
    accounts::law_reach(s, id);
    if in_reach(s, id) {
        accounts::law_access(s, id, s.contract, s.contract);
    }
    if in_reach(s, id) {
        assert(s.keeps(id));
    }
}

/// The client can pause and resume a schedule that was not cancelled.
pub proof fn law_schedule_refusals(
    s: Ledger,
    caller: Address,
    id: u64,
)
    requires
        s.well_kept(),
    ensures
        ({
            let refusal = s.schedule_refusal(caller, id);
            let meta = s.escrows[id];
            let ok1 = s.paused != Some(true);
            let ok2 = ok1 && in_reach(s, id);
            let ok3 = ok2 && caller == meta.client;
            let ok4 = ok3 && s.recurring.contains_key(id);
            let ok5 = ok4 && !s.recurring[id].cancelled;
            &&& refusal == Some(EscrowError::ContractPaused) <==> s.paused == Some(true)
            &&& refusal == Some(EscrowError::EscrowNotFound) <==> ok1 && !in_reach(s, id)
            &&& refusal == Some(EscrowError::ClientOnly) <==> ok2 && caller != meta.client
            &&& refusal == Some(EscrowError::RecurringConfigNotFound) <==> ok3
                && !s.recurring.contains_key(id)
            &&& refusal == Some(EscrowError::RecurringScheduleCancelled) <==> ok4
                && s.recurring[id].cancelled
            &&& refusal is None <==> ok5
        }),
{
    accounts::law_reach(s, id);
    if in_reach(s, id) {
        accounts::law_access(s, id, s.contract, s.contract);
    }
}

/// The client can cancel the schedule of an active escrow, once.
pub proof fn law_cancel_recurring_refusals(
    s: Ledger,
    caller: Address,
    id: u64,
)
    requires
        s.well_kept(),
    ensures
        ({
            let refusal = s.cancel_recurring_refusal(caller, id);
            let meta = s.escrows[id];
            let ok1 = s.paused != Some(true);
            let ok2 = ok1 && in_reach(s, id);
            let ok3 = ok2 && caller == meta.client;
            let ok4 = ok3 && meta.status == EscrowStatus::Active;
            let ok5 = ok4 && s.recurring.contains_key(id);
            let ok6 = ok5 && !s.recurring[id].cancelled;
            &&& refusal == Some(EscrowError::ContractPaused) <==> s.paused == Some(true)
            &&& refusal == Some(EscrowError::EscrowNotFound) <==> ok1 && !in_reach(s, id)
            &&& refusal == Some(EscrowError::ClientOnly) <==> ok2 && caller != meta.client
            &&& refusal == Some(EscrowError::EscrowNotActive) <==> ok3
                && meta.status != EscrowStatus::Active
            &&& refusal == Some(EscrowError::RecurringConfigNotFound) <==> ok4
                && !s.recurring.contains_key(id)
            &&& refusal == Some(EscrowError::RecurringScheduleCancelled) <==> ok5
                && s.recurring[id].cancelled
            &&& refusal is None <==> ok6
        }),
{
    accounts::law_reach(s, id);
    if in_reach(s, id) {
        accounts::law_access(s, id, s.contract, s.contract);
    }
}

/// The client can top up the reserve of an escrow in reach.
pub proof fn law_top_up_refusals(
    s: Ledger,
    caller: Address,
    id: u64,
    days: u64,
)
    requires
        s.well_kept(),
    ensures
        ({
            let refusal = s.top_up_refusal(caller, id, days);
            let meta = s.escrows[id];
            let ok1 = s.admin is Some;
            let ok2 = ok1 && s.paused != Some(true);
            let ok3 = ok2 && in_reach(s, id);
            let ok4 = ok3 && caller == meta.client;
            let ok5 = ok4
                && (meta.rent_balance - accounts::rent_owed(s, id)
                    + days * accounts::entries_of(s, id) <= i128::MAX);
            &&& refusal == Some(EscrowError::NotInitialized) <==> s.admin is None
            &&& refusal == Some(EscrowError::ContractPaused) <==> ok1 && s.paused == Some(true)
            &&& refusal == Some(EscrowError::EscrowNotFound) <==> ok2 && !in_reach(s, id)
            &&& refusal == Some(EscrowError::ClientOnly) <==> ok3 && caller != meta.client
            &&& refusal == Some(EscrowError::AmountMismatch) <==> ok4
                && !(meta.rent_balance - accounts::rent_owed(s, id)
                    + days * accounts::entries_of(s, id) <= i128::MAX)
            &&& refusal is None <==> ok5
        }),
{
    accounts::law_reach(s, id);
    if in_reach(s, id) {
        accounts::law_access(s, id, s.contract, s.contract);
    }
    let rate = accounts::entries_of(s, id);
    assert(rate * days == days * rate) by (nonlinear_arith);
    assert(days == 0 ==> days * rate == 0) by (nonlinear_arith);
    if in_reach(s, id) {
        assert(s.keeps(id));
        assert(s.rent_due_per_period(s.accessed_escrow(id)) == rate);
        accounts::law_access(s, id, caller, caller);
    }
}

/// An escrow in reach can be shown.
pub proof fn law_get_escrow_refusals(
    s: Ledger,
    id: u64,
)
    requires
        s.well_kept(),
    ensures
        ({
            let refusal = s.get_escrow_refusal(id);
            let ok1 = in_reach(s, id);
            &&& refusal == Some(EscrowError::EscrowNotFound) <==> !in_reach(s, id)
            &&& refusal is None <==> ok1
        }),
{
    accounts::law_reach(s, id);
    if in_reach(s, id) {
        accounts::law_access(s, id, s.contract, s.contract);
    }
    if in_reach(s, id) {
        assert(s.keeps(id));
    }
}

/// Rent can be collected from every escrow.
pub proof fn law_collect_refusals(
    s: Ledger,
    id: u64,
)
    requires
        s.well_kept(),
    ensures
        ({
            let refusal = s.collect_refusal(id);
            let ok1 = s.admin is Some;
            let ok2 = ok1 && s.escrows.contains_key(id);
            &&& refusal == Some(EscrowError::NotInitialized) <==> s.admin is None
            &&& refusal == Some(EscrowError::EscrowNotFound) <==> ok1
                && !s.escrows.contains_key(id)
            &&& refusal is None <==> ok2
        }),
{
    accounts::law_reach(s, id);
    if s.escrows.contains_key(id) {
        assert(s.keeps(id));
        if accounts::rent_owed(s, id) <= s.escrows[id].rent_balance {
            crate::laws::terms::law_rent_is_collected(s, id, s.contract, s.contract);
        } else {
            crate::laws::terms::law_escrow_is_wound_up(s, id, s.contract, s.contract);
        }
    }
}

/// The first amount of a batch that is not positive, or with which the sum is no amount, decides.
pub proof fn law_amounts_refusals(
    amounts: Seq<i128>,
    more: i128,
)
    ensures
        ({
            let refusal = crate::batch::amounts_refusal(amounts.push(more));
            let ok1 = crate::batch::amounts_refusal(amounts) is None;
            let ok2 = ok1 && more > 0;
            let ok3 = ok2 && crate::batch::sum_of(amounts) + more <= i128::MAX;
            &&& refusal == Some(EscrowError::InvalidMilestoneAmount)
                <==> (crate::batch::amounts_refusal(amounts)
                    == Some(EscrowError::InvalidMilestoneAmount)) || (ok1 && more <= 0)
            &&& refusal == Some(EscrowError::MilestoneAmountExceedsEscrow)
                <==> (crate::batch::amounts_refusal(amounts)
                    == Some(EscrowError::MilestoneAmountExceedsEscrow)) || (ok2
                        && crate::batch::sum_of(amounts) + more > i128::MAX)
            &&& refusal is None <==> ok3
            &&& crate::batch::amounts_refusal(Seq::empty()) is None
        }),
{
    assert(amounts.push(more).drop_last() =~= amounts);
}

/// The client can add some milestones to an active escrow at once, if there is a title, a hash and
/// a positive amount for each, they are twenty in all at most, and their amounts are not set aside
/// yet.
pub proof fn law_batch_add_refusals(
    s: Ledger,
    caller: Address,
    id: u64,
    titles: Seq<Text>,
    hashes: Seq<[u8; 32]>,
    amounts: Seq<i128>,
)
    requires
        s.well_kept(),
    ensures
        ({
            let refusal = s.batch_add_refusal(caller, id, titles, hashes, amounts);
            let meta = s.escrows[id];
            let ok1 = s.paused != Some(true);
            let ok2 = ok1
                && (titles.len() > 0 && titles.len() == hashes.len() && titles.len()
                    == amounts.len());
            let ok3 = ok2 && in_reach(s, id);
            let ok4 = ok3 && caller == meta.client;
            let ok5 = ok4 && meta.status == EscrowStatus::Active;
            let ok6 = ok5 && meta.milestone_count + titles.len() <= 20;
            let ok7 = ok6 && crate::batch::amounts_refusal(amounts) is None;
            let ok8 = ok7
                && meta.allocated_amount + crate::batch::sum_of(amounts) <= meta.total_amount;
            let ok9 = ok8
                && (meta.rent_balance - accounts::rent_owed(s, id)
                    + 30 * titles.len() <= i128::MAX);
            &&& refusal == Some(EscrowError::ContractPaused) <==> s.paused == Some(true)
            &&& refusal == Some(EscrowError::InvalidMilestoneAmount)
                <==> (ok1
                    && !(titles.len() > 0 && titles.len() == hashes.len() && titles.len()
                        == amounts.len())) || (ok6 && crate::batch::amounts_refusal(amounts)
                            == Some(EscrowError::InvalidMilestoneAmount))
            &&& refusal == Some(EscrowError::EscrowNotFound) <==> ok2 && !in_reach(s, id)
            &&& refusal == Some(EscrowError::ClientOnly) <==> ok3 && caller != meta.client
            &&& refusal == Some(EscrowError::EscrowNotActive) <==> ok4
                && meta.status != EscrowStatus::Active
            &&& refusal == Some(EscrowError::TooManyMilestones) <==> ok5
                && meta.milestone_count + titles.len() > 20
            &&& refusal == Some(EscrowError::MilestoneAmountExceedsEscrow)
                <==> (ok6 && crate::batch::amounts_refusal(amounts)
                    == Some(EscrowError::MilestoneAmountExceedsEscrow)) || (ok7
                        && !(meta.allocated_amount
                            + crate::batch::sum_of(amounts) <= meta.total_amount))
            &&& refusal == Some(EscrowError::AmountMismatch) <==> ok8
                && !(meta.rent_balance - accounts::rent_owed(s, id)
                    + 30 * titles.len() <= i128::MAX)
            &&& refusal is None <==> ok9
        }),
{
    accounts::law_reach(s, id);
    if in_reach(s, id) {
        accounts::law_access(s, id, s.contract, s.contract);
    }
    lemma_amounts_errors(amounts);
}

/// The first milestone of a selection that is not there, is in another state, or with which the sum
/// is no amount, decides.
pub proof fn law_listed_refusals(
    milestones: Map<(u64, u32), MilestoneView>,
    id: u64,
    mids: Seq<u32>,
    more: u32,
    status: MilestoneStatus,
)
    ensures
        ({
            let refusal = crate::batch::listed_refusal(milestones, id, mids.push(more), status);
            let sum = crate::batch::selected_total(milestones, id, mids);
            let ok1 = crate::batch::listed_refusal(milestones, id, mids, status) is None;
            let ok2 = ok1 && milestones.contains_key((id, more));
            let ok3 = ok2 && milestones[(id, more)].status == status;
            let ok4 = ok3 && i128::MIN <= sum + milestones[(id, more)].amount <= i128::MAX;
            &&& refusal == Some(EscrowError::MilestoneNotFound)
                <==> (crate::batch::listed_refusal(milestones, id, mids, status)
                    == Some(EscrowError::MilestoneNotFound)) || (ok1
                        && !milestones.contains_key((id, more)))
            &&& refusal == Some(EscrowError::InvalidMilestoneState)
                <==> (crate::batch::listed_refusal(milestones, id, mids, status)
                    == Some(EscrowError::InvalidMilestoneState)) || (ok2
                        && milestones[(id, more)].status != status)
            &&& refusal == Some(EscrowError::AmountMismatch)
                <==> (crate::batch::listed_refusal(milestones, id, mids, status)
                    == Some(EscrowError::AmountMismatch)) || (ok3
                        && !(i128::MIN <= sum + milestones[(id, more)].amount <= i128::MAX))
            &&& refusal is None <==> ok4
            &&& crate::batch::listed_refusal(milestones, id, Seq::empty(), status) is None
        }),
{
    assert(mids.push(more).drop_last() =~= mids);
}

/// The admin can release approved milestones together when the lock time is over, each of them
/// once, unless the escrow is disputed. What they come to must be there.
pub proof fn law_batch_release_refusals(
    s: Ledger,
    caller: Address,
    id: u64,
    mids: Seq<u32>,
)
    requires
        s.well_kept(),
    ensures
        ({
            let refusal = s.batch_release_refusal(caller, id, mids);
            let meta = s.escrows[id];
            let once = forall|i: int, j: int|
                0 <= i < j < mids.len() ==> #[trigger] mids[i] != #[trigger] mids[j];
            let sum = crate::batch::selected_total(s.milestones, id, mids);
            let ok1 = s.paused != Some(true);
            let ok2 = ok1 && s.admin is Some;
            let ok3 = ok2 && s.admin == Some(caller);
            let ok4 = ok3 && mids.len() > 0;
            let ok5 = ok4 && in_reach(s, id);
            let ok6 = ok5 && (meta.lock_time is None || meta.lock_time->0 <= s.now);
            let ok7 = ok6
                && crate::batch::listed_refusal(s.milestones, id, mids, MS_APPROVED) is None;
            let ok8 = ok7 && once;
            let ok9 = ok8
                && (meta.released_count + mids.len() <= u32::MAX && sum <= meta.remaining_balance);
            let ok10 = ok9 && meta.status != EscrowStatus::Disputed;
            &&& refusal == Some(EscrowError::ContractPaused) <==> s.paused == Some(true)
            &&& refusal == Some(EscrowError::NotInitialized) <==> ok1 && s.admin is None
            &&& refusal == Some(EscrowError::AdminOnly) <==> ok2 && s.admin != Some(caller)
            &&& refusal == Some(EscrowError::InvalidMilestoneAmount) <==> ok3 && mids.len() <= 0
            &&& refusal == Some(EscrowError::EscrowNotFound) <==> ok4 && !in_reach(s, id)
            &&& refusal == Some(EscrowError::LockTimeNotExpired) <==> ok5
                && !(meta.lock_time is None || meta.lock_time->0 <= s.now)
            &&& refusal == Some(EscrowError::MilestoneNotFound) <==> ok6
                && crate::batch::listed_refusal(s.milestones, id, mids, MS_APPROVED)
                    == Some(EscrowError::MilestoneNotFound)
            &&& refusal == Some(EscrowError::InvalidMilestoneState)
                <==> (ok6 && crate::batch::listed_refusal(s.milestones, id, mids, MS_APPROVED)
                    == Some(EscrowError::InvalidMilestoneState)) || (ok7 && !once)
            &&& refusal == Some(EscrowError::AmountMismatch)
                <==> (ok6 && crate::batch::listed_refusal(s.milestones, id, mids, MS_APPROVED)
                    == Some(EscrowError::AmountMismatch)) || (ok8
                        && !(meta.released_count + mids.len() <= u32::MAX
                            && sum <= meta.remaining_balance))
            &&& refusal == Some(EscrowError::EscrowNotActive) <==> ok9
                && meta.status == EscrowStatus::Disputed
            &&& refusal is None <==> ok10
        }),
{
    accounts::law_reach(s, id);
    if in_reach(s, id) {
        accounts::law_access(s, id, s.contract, s.contract);
    }
    lemma_listed_errors(s.milestones, id, mids, MS_APPROVED);
    if in_reach(s, id)
        && crate::batch::selection_refusal(s.milestones, id, mids, MS_APPROVED) is None {
        assert(s.keeps(id));
        crate::batch::lemma_selection_accepted(s.milestones, id, mids, MS_APPROVED);
        crate::laws::keeping::lemma_selected_positive(
            s.milestones,
            id,
            s.escrows[id].milestone_count,
            mids,
        );
    }
}

/// Submitted milestones can be approved together where each of them could be, each of them once.
/// What is then released must be there.
pub proof fn law_batch_approve_refusals(
    s: Ledger,
    caller: Address,
    id: u64,
    mids: Seq<u32>,
)
    requires
        s.well_kept(),
    ensures
        ({
            let refusal = s.batch_approve_refusal(caller, id, mids);
            let meta = s.escrows[id];
            let once = forall|i: int, j: int|
                0 <= i < j < mids.len() ==> #[trigger] mids[i] != #[trigger] mids[j];
            let may = if meta.multisig.approvers.len() > 0 {
                meta.multisig.approvers.contains(caller)
            } else {
                caller == meta.client || meta.buyer_signers.contains(caller)
            };
            let fresh = forall|i: int, j: int|
                #![trigger s.milestones[(id, mids[i])].approvals[j]]
                0 <= i < mids.len() && 0 <= j < s.milestones[(id, mids[i])].approvals.len()
                    ==> s.milestones[(id, mids[i])].approvals[j].signer != caller;
            let done = crate::batch::chosen(s.milestones, id, s.accessed_escrow(id), caller, mids);
            let sum = crate::batch::selected_total(s.milestones, id, done);
            let open = crate::laws::work::timelock_is_over(meta.timelock, s.now);
            let ok1 = s.paused != Some(true);
            let ok2 = ok1 && mids.len() > 0;
            let ok3 = ok2 && in_reach(s, id);
            let ok4 = ok3 && meta.status == EscrowStatus::Active;
            let ok5 = ok4 && (meta.lock_time is None || meta.lock_time->0 <= s.now);
            let ok6 = ok5 && may;
            let ok7 = ok6
                && crate::batch::listed_refusal(s.milestones, id, mids, MS_SUBMITTED) is None;
            let ok8 = ok7 && once;
            let ok9 = ok8 && fresh;
            let ok10 = ok9
                && crate::batch::selection_refusal(s.milestones, id, done, MS_SUBMITTED) is None;
            let ok11 = ok10
                && (meta.approved_count + done.len() <= u32::MAX
                    && (!open
                        || (meta.released_count + done.len() <= u32::MAX
                            && sum <= meta.remaining_balance)));
            &&& refusal == Some(EscrowError::ContractPaused) <==> s.paused == Some(true)
            &&& refusal == Some(EscrowError::InvalidMilestoneAmount) <==> ok1 && mids.len() <= 0
            &&& refusal == Some(EscrowError::EscrowNotFound) <==> ok2 && !in_reach(s, id)
            &&& refusal == Some(EscrowError::EscrowNotActive) <==> ok3
                && meta.status != EscrowStatus::Active
            &&& refusal == Some(EscrowError::LockTimeNotExpired) <==> ok4
                && !(meta.lock_time is None || meta.lock_time->0 <= s.now)
            &&& refusal == Some(EscrowError::Unauthorized) <==> ok5 && !may
            &&& refusal == Some(EscrowError::MilestoneNotFound)
                <==> (ok6 && crate::batch::listed_refusal(s.milestones, id, mids, MS_SUBMITTED)
                    == Some(EscrowError::MilestoneNotFound)) || (ok9
                        && crate::batch::selection_refusal(s.milestones, id, done, MS_SUBMITTED)
                            == Some(EscrowError::MilestoneNotFound))
            &&& refusal == Some(EscrowError::InvalidMilestoneState)
                <==> (ok6 && crate::batch::listed_refusal(s.milestones, id, mids, MS_SUBMITTED)
                    == Some(EscrowError::InvalidMilestoneState)) || (ok7 && !once) || (ok8
                        && !fresh) || (ok9
                            && crate::batch::selection_refusal(s.milestones, id, done, MS_SUBMITTED)
                                == Some(EscrowError::InvalidMilestoneState))
            &&& refusal == Some(EscrowError::AmountMismatch)
                <==> (ok6 && crate::batch::listed_refusal(s.milestones, id, mids, MS_SUBMITTED)
                    == Some(EscrowError::AmountMismatch)) || (ok9
                        && crate::batch::selection_refusal(s.milestones, id, done, MS_SUBMITTED)
                            == Some(EscrowError::AmountMismatch)) || (ok10
                                && !(meta.approved_count + done.len() <= u32::MAX
                                    && (!open
                                        || (meta.released_count + done.len() <= u32::MAX
                                            && sum <= meta.remaining_balance))))
            &&& refusal is None <==> ok11
        }),
{
    accounts::law_reach(s, id);
    if in_reach(s, id) {
        accounts::law_access(s, id, s.contract, s.contract);
    }
    let done = crate::batch::chosen(s.milestones, id, s.accessed_escrow(id), caller, mids);
    lemma_listed_errors(s.milestones, id, mids, MS_SUBMITTED);
    lemma_listed_errors(s.milestones, id, done, MS_SUBMITTED);
    lemma_fresh(s, id, caller, mids);
    if in_reach(s, id)
        && crate::batch::selection_refusal(s.milestones, id, done, MS_SUBMITTED) is None {
        assert(s.keeps(id));
        crate::batch::lemma_selection_accepted(s.milestones, id, done, MS_SUBMITTED);
        crate::laws::keeping::lemma_selected_positive(
            s.milestones,
            id,
            s.escrows[id].milestone_count,
            done,
        );
    }
}

/// A payment cannot be made that takes a counter, an amount or the time of the next payment out of
/// range.
pub proof fn law_payment_refusals(
    meta: EscrowMetaView,
    config: RecurringPaymentConfig,
    k: int,
)
    ensures
        ({
            let refusal = crate::recurring::payment_refusal(meta, config, k);
            let sum = k * config.payment_amount;
            let next = config.next_payment_at
                + k * crate::laws::schedules::seconds_of(config.interval);
            let ok1 = meta.milestone_count + k <= u32::MAX && meta.approved_count + k <= u32::MAX
                && meta.released_count + k <= u32::MAX;
            let ok2 = ok1
                && (i128::MIN <= meta.allocated_amount + sum <= i128::MAX
                    && i128::MIN <= meta.remaining_balance - sum <= i128::MAX);
            let ok3 = ok2 && config.processed_payments + k <= u32::MAX;
            let ok4 = ok3 && i128::MIN <= sum <= i128::MAX;
            let ok5 = ok4 && (k >= config.payments_remaining || next <= u64::MAX);
            &&& refusal == Some(EscrowError::TooManyMilestones)
                <==> (!(meta.milestone_count + k <= u32::MAX && meta.approved_count + k <= u32::MAX
                    && meta.released_count + k <= u32::MAX)) || (ok2 && !(config.processed_payments
                        + k <= u32::MAX))
            &&& refusal == Some(EscrowError::AmountMismatch)
                <==> (ok1
                    && !(i128::MIN <= meta.allocated_amount + sum <= i128::MAX
                        && i128::MIN <= meta.remaining_balance - sum <= i128::MAX)) || (ok3
                            && !(i128::MIN <= sum <= i128::MAX))
            &&& refusal == Some(EscrowError::InvalidRecurringSchedule) <==> ok4
                && !(k >= config.payments_remaining || next <= u64::MAX)
            &&& refusal is None <==> ok5
        }),
{
    assert(crate::laws::schedules::seconds_of(config.interval)
        == crate::recurring::interval_seconds(config.interval));
}

/// The first payment that cannot be made decides.
pub proof fn law_payments_refusals(
    meta: EscrowMetaView,
    config: RecurringPaymentConfig,
    k: int,
)
    requires
        k >= 1,
    ensures
        ({
            let refusal = crate::recurring::payments_refusal(meta, config, k);
            let ok1 = crate::recurring::payments_refusal(meta, config, k - 1) is None;
            let ok2 = ok1 && crate::recurring::payment_refusal(meta, config, k) is None;
            &&& refusal == Some(EscrowError::TooManyMilestones)
                <==> (crate::recurring::payments_refusal(meta, config, k - 1)
                    == Some(EscrowError::TooManyMilestones)) || (ok1
                        && crate::recurring::payment_refusal(meta, config, k)
                            == Some(EscrowError::TooManyMilestones))
            &&& refusal == Some(EscrowError::AmountMismatch)
                <==> (crate::recurring::payments_refusal(meta, config, k - 1)
                    == Some(EscrowError::AmountMismatch)) || (ok1
                        && crate::recurring::payment_refusal(meta, config, k)
                            == Some(EscrowError::AmountMismatch))
            &&& refusal == Some(EscrowError::InvalidRecurringSchedule)
                <==> (crate::recurring::payments_refusal(meta, config, k - 1)
                    == Some(EscrowError::InvalidRecurringSchedule)) || (ok1
                        && crate::recurring::payment_refusal(meta, config, k)
                            == Some(EscrowError::InvalidRecurringSchedule))
            &&& refusal is None <==> ok2
            &&& crate::recurring::payments_refusal(meta, config, 0) is None
        }),
{
}

/// Payments are processed for an active escrow with a schedule that is neither cancelled nor paused
/// and has one due, when no lock holds its funds back. They must be there.
pub proof fn law_process_recurring_refusals(
    s: Ledger,
    id: u64,
)
    requires
        s.well_kept(),
    ensures
        ({
            let refusal = s.process_recurring_refusal(id);
            let meta = s.escrows[id];
            let config = s.recurring[id];
            let n = crate::recurring::due_payments(config, s.now);
            let end = match meta.timelock {
                OptionalTimelock::Absent => 0int,
                OptionalTimelock::Present(t) => t.start_ledger + t.duration_ledger,
            };
            let ok1 = s.admin is Some;
            let ok2 = ok1 && s.paused != Some(true);
            let ok3 = ok2 && in_reach(s, id);
            let ok4 = ok3 && meta.status == EscrowStatus::Active;
            let ok5 = ok4 && s.recurring.contains_key(id);
            let ok6 = ok5 && !config.cancelled;
            let ok7 = ok6 && !config.paused;
            let ok8 = ok7 && (config.payments_remaining > 0 && s.now >= config.next_payment_at);
            let ok9 = ok8 && crate::recurring::payments_refusal(meta, config, n) is None;
            let ok10 = ok9 && (meta.lock_time is None || meta.lock_time->0 <= s.now);
            let ok11 = ok10 && (meta.timelock is Absent || end <= u64::MAX);
            let ok12 = ok11 && (meta.timelock is Absent || s.now >= end);
            let ok13 = ok12 && n * config.payment_amount <= meta.remaining_balance;
            &&& refusal == Some(EscrowError::NotInitialized) <==> s.admin is None
            &&& refusal == Some(EscrowError::ContractPaused) <==> ok1 && s.paused == Some(true)
            &&& refusal == Some(EscrowError::EscrowNotFound) <==> ok2 && !in_reach(s, id)
            &&& refusal == Some(EscrowError::EscrowNotActive) <==> ok3
                && meta.status != EscrowStatus::Active
            &&& refusal == Some(EscrowError::RecurringConfigNotFound) <==> ok4
                && !s.recurring.contains_key(id)
            &&& refusal == Some(EscrowError::RecurringScheduleCancelled) <==> ok5
                && config.cancelled
            &&& refusal == Some(EscrowError::RecurringSchedulePaused) <==> ok6 && config.paused
            &&& refusal == Some(EscrowError::NoRecurringPaymentDue) <==> ok7
                && !(config.payments_remaining > 0 && s.now >= config.next_payment_at)
            &&& refusal == Some(EscrowError::TooManyMilestones) <==> ok8
                && crate::recurring::payments_refusal(meta, config, n)
                    == Some(EscrowError::TooManyMilestones)
            &&& refusal == Some(EscrowError::AmountMismatch)
                <==> (ok8 && crate::recurring::payments_refusal(meta, config, n)
                    == Some(EscrowError::AmountMismatch)) || (ok12
                        && n * config.payment_amount > meta.remaining_balance)
            &&& refusal == Some(EscrowError::InvalidRecurringSchedule) <==> ok8
                && crate::recurring::payments_refusal(meta, config, n)
                    == Some(EscrowError::InvalidRecurringSchedule)
            &&& refusal == Some(EscrowError::LockTimeNotExpired) <==> ok9
                && !(meta.lock_time is None || meta.lock_time->0 <= s.now)
            &&& refusal == Some(EscrowError::InvalidTimelockDuration) <==> ok10
                && !(meta.timelock is Absent || end <= u64::MAX)
            &&& refusal == Some(EscrowError::TimelockNotExpired) <==> ok11
                && !(meta.timelock is Absent || s.now >= end)
            &&& refusal is None <==> ok13
        }),
{
    accounts::law_reach(s, id);
    if in_reach(s, id) {
        accounts::law_access(s, id, s.contract, s.contract);
    }
    let config = s.recurring[id];
    let n = crate::recurring::due_payments(config, s.now);
    lemma_payments_errors(s.escrows[id], config, n);
    lemma_same_counts(s.escrows[id], s.accessed_escrow(id), config, n);
}

/// A reputation can be updated unless the contract is paused.
pub proof fn law_update_reputation_refusals(
    s: Ledger,
    who: Address,
)
    ensures
        ({
            let refusal = s.paused_refusal();
            let ok1 = s.paused != Some(true);
            &&& refusal == Some(EscrowError::ContractPaused) <==> s.paused == Some(true)
            &&& refusal is None <==> ok1
        }),
{
}
/// The amounts of a batch are refused for one of two reasons.
proof fn lemma_amounts_errors(amounts: Seq<i128>)
    ensures
        crate::batch::amounts_refusal(amounts) is Some ==> crate::batch::amounts_refusal(amounts)
            == Some(EscrowError::InvalidMilestoneAmount) || crate::batch::amounts_refusal(amounts)
            == Some(EscrowError::MilestoneAmountExceedsEscrow),
    decreases amounts.len(),
{
    if amounts.len() > 0 {
        lemma_amounts_errors(amounts.drop_last());
    }
}

/// The milestones of a selection are refused for one of three reasons.
proof fn lemma_listed_errors(
    milestones: Map<(u64, u32), MilestoneView>,
    id: u64,
    mids: Seq<u32>,
    status: MilestoneStatus,
)
    ensures
        ({
            let refusal = crate::batch::listed_refusal(milestones, id, mids, status);
            refusal is Some ==> refusal == Some(EscrowError::MilestoneNotFound) || refusal == Some(
                EscrowError::InvalidMilestoneState,
            ) || refusal == Some(EscrowError::AmountMismatch)
        }),
    decreases mids.len(),
{
    if mids.len() > 0 {
        lemma_listed_errors(milestones, id, mids.drop_last(), status);
    }
}

/// Payments are refused for one of three reasons.
proof fn lemma_payments_errors(meta: EscrowMetaView, config: RecurringPaymentConfig, n: int)
    ensures
        ({
            let refusal = crate::recurring::payments_refusal(meta, config, n);
            refusal is Some ==> refusal == Some(EscrowError::TooManyMilestones) || refusal == Some(
                EscrowError::AmountMismatch,
            ) || refusal == Some(EscrowError::InvalidRecurringSchedule)
        }),
    decreases n,
{
    if n > 0 {
        lemma_payments_errors(meta, config, n - 1);
    }
}

/// Whether payments can be made depends on the counters and amounts of the header alone.
proof fn lemma_same_counts(
    a: EscrowMetaView,
    b: EscrowMetaView,
    config: RecurringPaymentConfig,
    n: int,
)
    requires
        a.milestone_count == b.milestone_count,
        a.approved_count == b.approved_count,
        a.released_count == b.released_count,
        a.allocated_amount == b.allocated_amount,
        a.remaining_balance == b.remaining_balance,
    ensures
        crate::recurring::payments_refusal(a, config, n) == crate::recurring::payments_refusal(
            b,
            config,
            n,
        ),
    decreases n,
{
    if n > 0 {
        lemma_same_counts(a, b, config, n - 1);
    }
}

/// Nobody has approved any of some milestones twice where no approval is by them.
proof fn lemma_fresh(s: Ledger, id: u64, who: Address, mids: Seq<u32>)
    ensures
        crate::batch::any_approved(s.milestones, id, who, mids) <==> !(forall|i: int, j: int|
            #![trigger s.milestones[(id, mids[i])].approvals[j]]
            0 <= i < mids.len() && 0 <= j < s.milestones[(id, mids[i])].approvals.len()
                ==> s.milestones[(id, mids[i])].approvals[j].signer != who),
{
    if crate::batch::any_approved(s.milestones, id, who, mids) {
        let i = choose|i: int|
            0 <= i < mids.len() && crate::milestones::has_approved(
                s.milestones[(id, #[trigger] mids[i])],
                who,
            );
        let m = s.milestones[(id, mids[i])];
        let j = choose|j: int|
            0 <= j < m.approvals.len() && (#[trigger] m.approvals[j]).signer == who;
        assert(s.milestones[(id, mids[i])].approvals[j].signer == who);
    } else {
        assert forall|i: int, j: int|
            #![trigger s.milestones[(id, mids[i])].approvals[j]]
            0 <= i < mids.len() && 0 <= j < s.milestones[(id, mids[i])].approvals.len()
            implies s.milestones[(id, mids[i])].approvals[j].signer != who by {
            let m = s.milestones[(id, mids[i])];
            if m.approvals[j].signer == who {
                assert(crate::milestones::has_approved(s.milestones[(id, mids[i])], who));
            }
        }
    }
}

} // verus!
