//! What stops a request: a paused contract, a dispute, a lock time, a timelock, or work that is
//! pending.
use vstd::prelude::*;

use crate::errors::EscrowError;
use crate::ledger::Ledger;
use crate::types::{
    Address, EscrowStatus, MilestoneStatus, MilestoneView, OracleResolutionPayload,
    RecurringInterval, Text, MS_APPROVED, MS_BLOCKS_CANCEL, MS_RELEASED, MS_SUBMITTED,
};

verus! {

// ---------------------------------------------------------------------------
// Pausing
// ---------------------------------------------------------------------------

/// While the contract is paused, no escrow can be created, and no milestone added, submitted,
/// approved, rejected or released.
pub proof fn law_paused_work(
    s: Ledger,
    caller: Address,
    id: u64,
    mid: u32,
    amount: i128,
    token: Address,
    deadline: Option<u64>,
    lock_time: Option<u64>,
    mids: Seq<u32>,
    titles: Seq<Text>,
    hashes: Seq<[u8; 32]>,
    amounts: Seq<i128>,
)
    requires
        s.is_paused(),
        s.admin is Some,
    ensures
        s.create_escrow_refusal(token, amount, deadline, lock_time) == Some(
            EscrowError::ContractPaused,
        ),
        s.add_milestone_refusal(caller, id, amount) == Some(EscrowError::ContractPaused),
        s.batch_add_refusal(caller, id, titles, hashes, amounts) == Some(
            EscrowError::ContractPaused,
        ),
        s.submit_milestone_refusal(caller, id, mid) == Some(EscrowError::ContractPaused),
        s.approve_milestone_refusal(caller, id, mid) == Some(EscrowError::ContractPaused),
        s.batch_approve_refusal(caller, id, mids) == Some(EscrowError::ContractPaused),
        s.reject_milestone_refusal(caller, id, mid) == Some(EscrowError::ContractPaused),
        s.release_funds_refusal(caller, id, mid) == Some(EscrowError::ContractPaused),
        s.batch_release_refusal(caller, id, mids) == Some(EscrowError::ContractPaused),
{
}

/// While the contract is paused, nothing can be scheduled, paid on a schedule, locked or topped
/// up.
pub proof fn law_paused_schedules(
    s: Ledger,
    caller: Address,
    id: u64,
    amount: i128,
    interval: RecurringInterval,
    time: u64,
    end_date: Option<u64>,
    number_of_payments: Option<u32>,
)
    requires
        s.is_paused(),
        s.admin is Some,
    ensures
        s.create_recurring_refusal(amount, interval, time, end_date, number_of_payments) == Some(
            EscrowError::ContractPaused,
        ),
        s.process_recurring_refusal(id) == Some(EscrowError::ContractPaused),
        s.schedule_refusal(caller, id) == Some(EscrowError::ContractPaused),
        s.cancel_recurring_refusal(caller, id) == Some(EscrowError::ContractPaused),
        s.start_timelock_refusal(caller, id, time) == Some(EscrowError::ContractPaused),
        s.extend_lock_refusal(caller, id, time) == Some(EscrowError::ContractPaused),
        s.top_up_refusal(caller, id, time) == Some(EscrowError::ContractPaused),
{
}

/// While the contract is paused, nothing can be disputed, resolved, cancelled or slashed, and no
/// reputation changes.
pub proof fn law_paused_disputes(
    s: Ledger,
    caller: Address,
    id: u64,
    milestone_id: Option<u32>,
    client_amount: i128,
    freelancer_amount: i128,
    payload: OracleResolutionPayload,
    grace_period_seconds: u64,
)
    requires
        s.is_paused(),
        s.admin is Some,
    ensures
        s.raise_dispute_refusal(caller, id, milestone_id) == Some(EscrowError::ContractPaused),
        s.resolve_dispute_refusal(caller, id, client_amount, freelancer_amount) == Some(
            EscrowError::ContractPaused,
        ),
        s.oracle_resolve_refusal(id, payload, grace_period_seconds) == Some(
            EscrowError::ContractPaused,
        ),
        s.cancel_escrow_refusal(caller, id) == Some(EscrowError::ContractPaused),
        s.request_cancellation_refusal(caller, id) == Some(EscrowError::ContractPaused),
        s.execute_cancellation_refusal(id) == Some(EscrowError::ContractPaused),
        s.dispute_cancellation_refusal(caller, id) == Some(EscrowError::ContractPaused),
        s.finalize_slash_refusal(id) == Some(EscrowError::ContractPaused),
        s.dispute_slash_refusal(caller, id) == Some(EscrowError::ContractPaused),
        s.resolve_slash_refusal(caller, id) == Some(EscrowError::ContractPaused),
        s.paused_refusal() == Some(EscrowError::ContractPaused),
{
}

/// A pause does not keep anyone from reading, nor from collecting rent.
pub proof fn law_pause_leaves_views(s: Ledger, paused: Option<bool>, id: u64)
    ensures
        ({
            let t = Ledger { paused, ..s };
            &&& t.access_refusal(id) == s.access_refusal(id)
            &&& t.get_escrow_refusal(id) == s.get_escrow_refusal(id)
            &&& t.collect_refusal(id) == s.collect_refusal(id)
            &&& t.accessed_escrow(id) == s.accessed_escrow(id)
        }),
{
    let t = Ledger { paused, ..s };
    assert(t.access_refusal(id) == s.access_refusal(id));
}

/// Pausing a paused contract, and resuming one that is not paused, changes nothing and announces
/// nothing.
pub proof fn law_pause_is_idempotent(s: Ledger, caller: Address, paused: bool)
    ensures
        ({
            let once = s.pause_done(caller, paused);
            let twice = once.pause_done(caller, paused);
            &&& once.is_paused() == paused
            &&& twice == once.demanding(caller)
        }),
{
}

/// A pause and its end leave everything as it was: they add two demands and two announcements,
/// and the contract is not paused.
pub proof fn law_pause_cycle(s: Ledger, caller: Address)
    requires
        !s.is_paused(),
    ensures
        ({
            let t = s.pause_done(caller, true).pause_done(caller, false);
            &&& !t.is_paused()
            &&& t == (Ledger {
                paused: Some(false),
                auths: s.auths.push(caller).push(caller),
                calls: t.calls,
                instance_touched: true,
                ..s
            })
        }),
{
}

// ---------------------------------------------------------------------------
// Disputes
// ---------------------------------------------------------------------------

/// A disputed escrow is frozen: no milestone can be added, approved, rejected or released, no
/// payment falls due, nothing is locked, and nobody can cancel it. It cannot be disputed again,
/// either.
pub proof fn law_dispute_freezes(
    s: Ledger,
    caller: Address,
    id: u64,
    mid: u32,
    amount: i128,
    time: u64,
    mids: Seq<u32>,
    titles: Seq<Text>,
    hashes: Seq<[u8; 32]>,
    amounts: Seq<i128>,
    milestone_id: Option<u32>,
)
    requires
        s.escrows[id].status == EscrowStatus::Disputed,
    ensures
        s.add_milestone_refusal(caller, id, amount) is Some,
        s.batch_add_refusal(caller, id, titles, hashes, amounts) is Some,
        s.approve_milestone_refusal(caller, id, mid) is Some,
        s.batch_approve_refusal(caller, id, mids) is Some,
        s.reject_milestone_refusal(caller, id, mid) is Some,
        s.release_funds_refusal(caller, id, mid) is Some,
        s.batch_release_refusal(caller, id, mids) is Some,
        s.process_recurring_refusal(id) is Some,
        s.cancel_recurring_refusal(caller, id) is Some,
        s.start_timelock_refusal(caller, id, time) is Some,
        s.extend_lock_refusal(caller, id, time) is Some,
        s.cancel_escrow_refusal(caller, id) is Some,
        s.request_cancellation_refusal(caller, id) is Some,
        s.raise_dispute_refusal(caller, id, milestone_id) is Some,
{
    assert(s.accessed_escrow(id).status == EscrowStatus::Disputed);
}

/// Only a disputed escrow can be resolved.
pub proof fn law_only_disputes_are_resolved(
    s: Ledger,
    caller: Address,
    id: u64,
    client_amount: i128,
    freelancer_amount: i128,
    payload: OracleResolutionPayload,
    grace_period_seconds: u64,
)
    requires
        s.escrows[id].status != EscrowStatus::Disputed,
    ensures
        s.resolve_dispute_refusal(caller, id, client_amount, freelancer_amount) is Some,
        s.oracle_resolve_refusal(id, payload, grace_period_seconds) is Some,
{
    assert(s.accessed_escrow(id).status != EscrowStatus::Disputed);
}

// ---------------------------------------------------------------------------
// Locks
// ---------------------------------------------------------------------------

/// Before its lock time, no funds of an escrow are released, by whomever.
pub proof fn law_lock_time_holds(
    s: Ledger,
    caller: Address,
    id: u64,
    mid: u32,
    mids: Seq<u32>,
)
    requires
        s.escrows[id].lock_time is Some,
        s.now < s.escrows[id].lock_time->0,
    ensures
        s.approve_milestone_refusal(caller, id, mid) is Some,
        s.batch_approve_refusal(caller, id, mids) is Some,
        s.release_funds_refusal(caller, id, mid) is Some,
        s.batch_release_refusal(caller, id, mids) is Some,
        s.process_recurring_refusal(id) is Some,
{
    assert(s.accessed_escrow(id).lock_time == s.escrows[id].lock_time);
}

/// While a timelock runs, an approval releases nothing: where it is enough the milestone is
/// approved, and the remaining balance stays what it was.
pub proof fn law_timelock_holds(s: Ledger, caller: Address, id: u64, mid: u32)
    requires
        s.well_kept(),
        s.approve_milestone_refusal(caller, id, mid) is None,
        !crate::storage::timelock_open(s.escrows[id].timelock, s.now),
    ensures
        ({
            let t = s.approve_milestone_done(caller, id, mid);
            &&& crate::milestones::suffices(s.escrows[id], s.milestones[(id, mid)], caller)
                ==> t.milestones[(id, mid)].status == MS_APPROVED
            &&& t.escrows[id].remaining_balance == s.escrows[id].remaining_balance
            &&& t.escrows[id].released_count == s.escrows[id].released_count
            &&& t.escrows[id].status == EscrowStatus::Active
        }),
{
    crate::laws::keeping::lemma_access_keeps(s, id);
    assert(s.keeps(id));
    assert(s.milestones.contains_key((id, mid)));
    assert(s.milestones[(id, mid)].id == mid);
    let n = s.escrows[id].milestone_count as nat;
    lemma_counts_add_up(s.milestones, id, n);
    lemma_counted_some(s.milestones, id, n, mid, MS_SUBMITTED);
}

/// While a timelock runs, the approval of a batch releases nothing either.
pub proof fn law_timelock_holds_for_batches(s: Ledger, caller: Address, id: u64, mids: Seq<u32>)
    requires
        s.well_kept(),
        s.batch_approve_refusal(caller, id, mids) is None,
        !crate::storage::timelock_open(s.escrows[id].timelock, s.now),
    ensures
        ({
            let t = s.batch_approve_done(caller, id, mids);
            &&& t.escrows[id].remaining_balance == s.escrows[id].remaining_balance
            &&& t.escrows[id].released_count == s.escrows[id].released_count
            &&& forall|i: int|
                0 <= i < mids.len() ==> (#[trigger] t.milestones[(id, mids[i])]).status
                    != MS_RELEASED
        }),
{
    crate::laws::keeping::lemma_access_keeps(s, id);
    assert(s.keeps(id));
    crate::batch::lemma_selection_accepted(s.milestones, id, mids, MS_SUBMITTED);
    let meta = s.accessed_escrow(id);
    let c = s.demanding(caller).accessing(id).announcing_lock(
        id,
        meta.lock_time,
    ).announcing_timelock(id, meta.timelock);
    crate::laws::keeping::lemma_approving(
        c,
        id,
        meta,
        caller,
        meta.milestone_count,
        mids,
        false,
        mids.len(),
    );
    let t = s.batch_approve_done(caller, id, mids);
    assert forall|i: int| 0 <= i < mids.len() implies (#[trigger] t.milestones[(
        id,
        mids[i],
    )]).status != MS_RELEASED by {
        assert(s.milestones.contains_key((id, mids[i])));
    }
}

/// While a timelock runs, no recurring payment is made.
pub proof fn law_timelock_holds_payments(s: Ledger, id: u64)
    requires
        !crate::storage::timelock_open(s.escrows[id].timelock, s.now),
    ensures
        s.process_recurring_refusal(id) is Some,
{
    assert(s.accessed_escrow(id).timelock == s.escrows[id].timelock);
    crate::storage::lemma_timelock_open(s, s.escrows[id].timelock);
}

/// A timelock that was started holds until its duration is over, and not longer.
pub proof fn law_timelock_expires(s: Ledger, caller: Address, id: u64, duration: u64, later: u64)
    requires
        s.well_kept(),
        s.start_timelock_refusal(caller, id, duration) is None,
    ensures
        crate::storage::timelock_open(
            s.start_timelock_done(caller, id, duration).escrows[id].timelock,
            later,
        ) <==> later >= s.now + duration,
{
    crate::laws::keeping::lemma_access_keeps(s, id);
    assert(s.keeps(id));
}

// ---------------------------------------------------------------------------
// Cancelling
// ---------------------------------------------------------------------------

/// A milestone that is in a state counts toward it.
pub proof fn lemma_counted_some(
    milestones: Map<(u64, u32), MilestoneView>,
    id: u64,
    n: nat,
    mid: u32,
    status: MilestoneStatus,
)
    requires
        mid < n <= u32::MAX,
        milestones[(id, mid)].status == status,
    ensures
        crate::laws::keeping::counted(milestones, id, n, status) > 0,
    decreases n,
{
    if mid < n - 1 {
        lemma_counted_some(milestones, id, (n - 1) as nat, mid, status);
    }
}

/// Where something counts toward a state, a milestone is in it.
pub proof fn lemma_counted_witness(
    milestones: Map<(u64, u32), MilestoneView>,
    id: u64,
    n: nat,
    status: MilestoneStatus,
) -> (mid: u32)
    requires
        n <= u32::MAX,
        crate::laws::keeping::counted(milestones, id, n, status) > 0,
    ensures
        mid < n,
        milestones[(id, mid)].status == status,
    decreases n,
{
    let last = (n - 1) as u32;
    if milestones[(id, last)].status == status {
        last
    } else {
        lemma_counted_witness(milestones, id, (n - 1) as nat, status)
    }
}

/// A milestone counts toward one state at most.
pub proof fn lemma_counts_add_up(
    milestones: Map<(u64, u32), MilestoneView>,
    id: u64,
    n: nat,
)
    ensures
        crate::laws::keeping::counted(milestones, id, n, MS_SUBMITTED)
            + crate::laws::keeping::counted(milestones, id, n, MS_APPROVED)
            + crate::laws::keeping::counted(milestones, id, n, MS_RELEASED) <= n,
    decreases n,
{
    if n > 0 {
        lemma_counts_add_up(milestones, id, (n - 1) as nat);
    }
}

/// The client can cancel an active escrow if and only if no milestone of it is in a state that
/// blocks a cancellation: none is submitted, and none is approved and not yet released.
pub proof fn law_pending_work_blocks_cancellation(s: Ledger, id: u64)
    requires
        s.well_kept(),
        !s.is_paused(),
        s.access_refusal(id) is None,
        s.escrows[id].status == EscrowStatus::Active,
    ensures
        s.cancel_escrow_refusal(s.escrows[id].client, id) is None <==> (forall|mid: u32|
            mid < s.escrows[id].milestone_count ==> (#[trigger] s.milestones[(id, mid)]).status
                & MS_BLOCKS_CANCEL == 0),
        s.cancel_escrow_refusal(s.escrows[id].client, id) is Some ==> s.cancel_escrow_refusal(
            s.escrows[id].client,
            id,
        ) == Some(EscrowError::CannotCancelWithPendingFunds),
{
    crate::laws::keeping::lemma_access_keeps(s, id);
    assert(s.keeps(id));
    let meta = s.escrows[id];
    let n = meta.milestone_count as nat;
    let ms = s.milestones;
    assert forall|mid: u32| mid < n implies ((#[trigger] ms[(id, mid)]).status & MS_BLOCKS_CANCEL
        == 0 <==> ms[(id, mid)].status != MS_SUBMITTED && ms[(id, mid)].status
        != MS_APPROVED) by {
        crate::types::law_status_masks_decide_membership(ms[(id, mid)].status);
    }
    if meta.submitted_count > 0 {
        let mid = lemma_counted_witness(ms, id, n, MS_SUBMITTED);
        assert(ms[(id, mid)].status & MS_BLOCKS_CANCEL != 0);
    }
    if meta.approved_count > meta.released_count {
        let mid = lemma_counted_witness(ms, id, n, MS_APPROVED);
        assert(ms[(id, mid)].status & MS_BLOCKS_CANCEL != 0);
    }
    if meta.submitted_count == 0 && meta.approved_count == meta.released_count {
        assert forall|mid: u32| mid < n implies (#[trigger] ms[(id, mid)]).status
            & MS_BLOCKS_CANCEL == 0 by {
            if ms[(id, mid)].status == MS_SUBMITTED {
                lemma_counted_some(ms, id, n, mid, MS_SUBMITTED);
            }
            if ms[(id, mid)].status == MS_APPROVED {
                lemma_counted_some(ms, id, n, mid, MS_APPROVED);
            }
        }
    }
}

/// Where every milestone counts toward a state, all are in it, and the other way round.
pub proof fn lemma_counted_all(
    milestones: Map<(u64, u32), MilestoneView>,
    id: u64,
    n: nat,
    status: MilestoneStatus,
)
    requires
        n <= u32::MAX,
    ensures
        crate::laws::keeping::counted(milestones, id, n, status) <= n,
        crate::laws::keeping::counted(milestones, id, n, status) == n <==> (forall|mid: u32|
            mid < n ==> (#[trigger] milestones[(id, mid)]).status == status),
    decreases n,
{
    if n > 0 {
        let last = (n - 1) as u32;
        lemma_counted_all(milestones, id, (n - 1) as nat, status);
        if crate::laws::keeping::counted(milestones, id, n, status) == n {
            assert forall|mid: u32| mid < n implies (#[trigger] milestones[(id, mid)]).status
                == status by {
                if mid == last {
                }
            }
        }
        if forall|mid: u32| mid < n ==> (#[trigger] milestones[(id, mid)]).status == status {
            assert(milestones[(id, last)].status == status);
        }
    }
}

/// An approval completes the escrow if and only if every milestone of it is then released and
/// nothing remains.
pub proof fn law_completion(s: Ledger, caller: Address, id: u64, mid: u32)
    requires
        s.well_kept(),
        s.approve_milestone_refusal(caller, id, mid) is None,
    ensures
        ({
            let t = s.approve_milestone_done(caller, id, mid);
            t.escrows[id].status == EscrowStatus::Completed <==> (forall|x: u32|
                x < t.escrows[id].milestone_count ==> (#[trigger] t.milestones[(id, x)]).status
                    == MS_RELEASED) && t.escrows[id].remaining_balance == 0
        }),
{
    let t = s.approve_milestone_done(caller, id, mid);
    crate::laws::keeping::lemma_access_keeps(s, id);
    crate::laws::keeping::law_approve_milestone_keeps(s, caller, id, mid);
    assert(s.keeps(id));
    assert(s.milestones.contains_key((id, mid)));
    assert(t.escrows.contains_key(id));
    assert(t.keeps(id));
    let n = t.escrows[id].milestone_count as nat;
    lemma_counted_all(t.milestones, id, n, MS_RELEASED);
    lemma_counts_add_up(t.milestones, id, n);
    if !crate::milestones::suffices(s.accessed_escrow(id), s.milestones[(id, mid)], caller) {
        assert(t.milestones[(id, mid)].status == MS_SUBMITTED);
    }
}

/// A release completes the escrow if and only if every milestone of it is then released and
/// nothing remains.
pub proof fn law_release_completes(s: Ledger, caller: Address, id: u64, mid: u32)
    requires
        s.well_kept(),
        s.release_funds_refusal(caller, id, mid) is None,
        s.escrows[id].status != EscrowStatus::Completed,
    ensures
        ({
            let t = s.release_funds_done(caller, id, mid);
            t.escrows[id].status == EscrowStatus::Completed <==> (forall|x: u32|
                x < t.escrows[id].milestone_count ==> (#[trigger] t.milestones[(id, x)]).status
                    == MS_RELEASED) && t.escrows[id].remaining_balance == 0
        }),
{
    let t = s.release_funds_done(caller, id, mid);
    crate::laws::keeping::lemma_access_keeps(s, id);
    crate::laws::keeping::law_release_funds_keeps(s, caller, id, mid);
    assert(s.keeps(id));
    assert(s.milestones.contains_key((id, mid)));
    assert(t.escrows.contains_key(id));
    assert(t.keeps(id));
    lemma_counted_all(t.milestones, id, t.escrows[id].milestone_count as nat, MS_RELEASED);
}

/// A batch completes the escrow if and only if every milestone of it is then released and
/// nothing remains: so on approval, and so on release.
pub proof fn law_batch_completes(s: Ledger, caller: Address, id: u64, mids: Seq<u32>)
    requires
        s.well_kept(),
        s.escrows[id].status != EscrowStatus::Completed,
    ensures
        s.batch_approve_refusal(caller, id, mids) is None ==> {
            let t = s.batch_approve_done(caller, id, mids);
            t.escrows[id].status == EscrowStatus::Completed <==> (forall|x: u32|
                x < t.escrows[id].milestone_count ==> (#[trigger] t.milestones[(id, x)]).status
                    == MS_RELEASED) && t.escrows[id].remaining_balance == 0
        },
        s.batch_release_refusal(caller, id, mids) is None ==> {
            let t = s.batch_release_done(caller, id, mids);
            t.escrows[id].status == EscrowStatus::Completed <==> (forall|x: u32|
                x < t.escrows[id].milestone_count ==> (#[trigger] t.milestones[(id, x)]).status
                    == MS_RELEASED) && t.escrows[id].remaining_balance == 0
        },
{
    if s.batch_approve_refusal(caller, id, mids) is None {
        let t = s.batch_approve_done(caller, id, mids);
        crate::laws::keeping::law_batch_approve_keeps(s, caller, id, mids);
        lemma_selected_is_there(s, id, mids, MS_SUBMITTED);
        crate::laws::keeping::lemma_access_keeps(s, id);
        assert(t.escrows.contains_key(id));
        assert(t.keeps(id));
        lemma_counted_all(t.milestones, id, t.escrows[id].milestone_count as nat, MS_RELEASED);
    }
    if s.batch_release_refusal(caller, id, mids) is None {
        let t = s.batch_release_done(caller, id, mids);
        crate::laws::keeping::law_batch_release_keeps(s, caller, id, mids);
        lemma_selected_is_there(s, id, mids, MS_APPROVED);
        crate::laws::keeping::lemma_access_keeps(s, id);
        assert(t.escrows.contains_key(id));
        assert(t.keeps(id));
        lemma_counted_all(t.milestones, id, t.escrows[id].milestone_count as nat, MS_RELEASED);
    }
}

/// An escrow from which milestones can be selected has some.
proof fn lemma_selected_is_there(s: Ledger, id: u64, mids: Seq<u32>, status: MilestoneStatus)
    requires
        s.well_kept(),
        s.access_refusal(id) is None,
        mids.len() > 0,
        crate::batch::selection_refusal(s.milestones, id, mids, status) is None,
    ensures
        s.keeps(id),
        s.escrows[id].milestone_count > 0,
{
    crate::batch::lemma_selection_accepted(s.milestones, id, mids, status);
    assert(s.keeps(id));
    assert(s.milestones.contains_key((id, mids[0])));
}

} // verus!
