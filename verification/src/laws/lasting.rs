//! Which entries each request keeps alive, which lists it changes, and how much it asks of the
//! host: as many calls as are named here, and no more.
use vstd::prelude::*;

use crate::laws::accounts;
use crate::ledger::{EntryKey, Ledger};
use crate::types::{
    Address, DataKey, EscrowMetaView, EscrowStatus, MultisigConfigView, OracleResolutionPayload,
    PackedDataKey, RecurringInterval, RecurringPaymentConfig, Text, MS_APPROVED, MS_PENDING,
    MS_SUBMITTED,
};

verus! {

/// The key of the header of escrow `id`.
pub open spec fn escrow_key(id: u64) -> EntryKey {
    EntryKey::Packed(PackedDataKey::EscrowMeta(id))
}

/// The key of milestone `mid` of escrow `id`.
pub open spec fn milestone_key(id: u64, mid: u32) -> EntryKey {
    EntryKey::Packed(PackedDataKey::Milestone(id, mid))
}

/// The key of the schedule of escrow `id`.
pub open spec fn schedule_key(id: u64) -> EntryKey {
    EntryKey::Packed(PackedDataKey::RecurringConfig(id))
}

/// The key of the request to cancel escrow `id`.
pub open spec fn request_key(id: u64) -> EntryKey {
    EntryKey::Data(DataKey::CancellationRequest(id))
}

/// The key of the slash record of escrow `id`.
pub open spec fn slash_key(id: u64) -> EntryKey {
    EntryKey::Data(DataKey::SlashRecord(id))
}

/// The key of the reputation of `who`.
pub open spec fn reputation_key(who: Address) -> EntryKey {
    EntryKey::Data(DataKey::Reputation(who))
}

/// One where `c` holds, and none else.
pub open spec fn one_if(c: bool) -> int {
    if c {
        1
    } else {
        0
    }
}

/// The lists by status with escrow `id` taken off one and put at the end of another.
pub open spec fn moved_list(s: Ledger, from: EscrowStatus, to: EscrowStatus, id: u64) -> Map<
    EscrowStatus,
    Seq<u64>,
> {
    crate::ledger::index_added(crate::ledger::index_dropped(s.by_status, from, id), to, id)
}

/// The number of calls once the rent of escrow `id` is settled: where any is owed, it is paid and
/// announced.
pub open spec fn settled_calls(s: Ledger, id: u64) -> int {
    s.calls.len() + 2 * one_if(accounts::days_owed(s, id) > 0)
}

/// Settling the rent asks for that many calls, and keeps the header alive.
proof fn lemma_settled_calls(s: Ledger, id: u64)
    requires
        s.well_kept(),
        s.access_refusal(id) is None,
    ensures
        s.accessing(id).calls.len() == settled_calls(s, id),
        s.accessing(id).touched == s.touched.insert(escrow_key(id)),
        s.accessed_escrow(id).escrow_id == id,
        ({
            let meta = s.escrows[id];
            let after = s.accessed_escrow(id);
            &&& after.remaining_balance == meta.remaining_balance
            &&& after.client == meta.client
            &&& after.freelancer == meta.freelancer
            &&& after.arbiter == meta.arbiter
            &&& after.lock_time == meta.lock_time
            &&& after.timelock == meta.timelock
            &&& after.status == meta.status
            &&& after.milestone_count == meta.milestone_count
        }),
{
    assert(s.keeps(id));
    let meta = s.escrows[id];
    let days = accounts::days_owed(s, id);
    let rate = accounts::entries_of(s, id);
    accounts::law_access(s, id, s.contract, s.contract);
    crate::rent::lemma_rent(s, meta);
    crate::laws::upkeep::law_rent_is_paid_in_full(s, meta);
    assert(s.rent_periods(meta) == days);
    assert(days > 0 ==> days * rate > 0) by (nonlinear_arith)
        requires
            rate >= 1,
    ;
    assert(s.accessing(id).touched =~= s.touched.insert(escrow_key(id)));
}

/// A new escrow is kept alive. Its client pays twice, and it is announced.
pub proof fn law_creation_lasts(
    s: Ledger,
    client: Address,
    freelancer: Address,
    token: Address,
    total_amount: i128,
    brief_hash: [u8; 32],
    arbiter: Option<Address>,
    deadline: Option<u64>,
    lock_time: Option<u64>,
    signers: Seq<Address>,
    multisig: MultisigConfigView,
)
    requires
        s.create_escrow_refusal(token, total_amount, deadline, lock_time) is None,
    ensures
        ({
            let t = s.create_escrow_done(
                client,
                freelancer,
                token,
                total_amount,
                brief_hash,
                arbiter,
                deadline,
                lock_time,
                signers,
                multisig,
            );
            &&& t.touched == s.touched.insert(escrow_key(s.next_escrow_id()))
            &&& t.instance_touched
            &&& t.calls.len() == s.calls.len() + 3
        }),
{
    let t = s.create_escrow_done(
        client,
        freelancer,
        token,
        total_amount,
        brief_hash,
        arbiter,
        deadline,
        lock_time,
        signers,
        multisig,
    );
    assert(t.touched =~= s.touched.insert(escrow_key(s.next_escrow_id())));
}

/// A new recurring escrow is kept alive with its schedule. Its client pays three times, and both
/// are announced.
pub proof fn law_schedule_creation_lasts(
    s: Ledger,
    client: Address,
    freelancer: Address,
    token: Address,
    payment_amount: i128,
    interval: RecurringInterval,
    start_time: u64,
    end_date: Option<u64>,
    number_of_payments: Option<u32>,
    brief_hash: [u8; 32],
)
    requires
        s.create_recurring_refusal(
            payment_amount,
            interval,
            start_time,
            end_date,
            number_of_payments,
        ) is None,
    ensures
        ({
            let t = s.create_recurring_done(
                client,
                freelancer,
                token,
                payment_amount,
                interval,
                start_time,
                end_date,
                number_of_payments,
                brief_hash,
            );
            &&& t.touched == s.touched.insert(escrow_key(s.next_escrow_id())).insert(
                schedule_key(s.next_escrow_id()),
            )
            &&& t.instance_touched
            &&& t.calls.len() == s.calls.len() + 5
        }),
{
    let t = s.create_recurring_done(
        client,
        freelancer,
        token,
        payment_amount,
        interval,
        start_time,
        end_date,
        number_of_payments,
        brief_hash,
    );
    assert(t.touched =~= s.touched.insert(escrow_key(s.next_escrow_id())).insert(
        schedule_key(s.next_escrow_id()),
    ));
}

/// A new milestone is kept alive, paid for once and announced.
pub proof fn law_added_milestone_lasts(
    s: Ledger,
    caller: Address,
    id: u64,
    title: Seq<u8>,
    hash: [u8; 32],
    amount: i128,
)
    requires
        s.well_kept(),
        s.add_milestone_refusal(caller, id, amount) is None,
    ensures
        ({
            let t = s.add_milestone_done(caller, id, title, hash, amount);
            &&& t.touched == s.touched.insert(escrow_key(id)).insert(
                milestone_key(id, s.escrows[id].milestone_count),
            )
            &&& t.instance_touched == s.instance_touched
            &&& t.calls.len() == settled_calls(s, id) + 2
            &&& t.by_status == s.by_status
        }),
{
    lemma_settled_calls(s, id);
    assert(s.keeps(id));
    let t = s.add_milestone_done(caller, id, title, hash, amount);
    assert(t.touched =~= s.touched.insert(escrow_key(id)).insert(
        milestone_key(id, s.escrows[id].milestone_count),
    ));
}

/// A submitted milestone is kept alive, and that it was submitted is announced. Nothing else is
/// asked of the host.
pub proof fn law_submitted_milestone_lasts(s: Ledger, caller: Address, id: u64, mid: u32)
    requires
        s.well_kept(),
        s.submit_milestone_refusal(caller, id, mid) is None,
    ensures
        ({
            let t = s.submit_milestone_done(caller, id, mid);
            &&& t.touched == s.touched.insert(escrow_key(id)).insert(milestone_key(id, mid))
            &&& t.instance_touched == s.instance_touched
            &&& t.calls.len() == settled_calls(s, id) + 1
            &&& t.by_status == s.by_status
        }),
{
    lemma_settled_calls(s, id);
    assert(s.keeps(id));
    assert(s.milestones.contains_key((id, mid)));
    let t = s.submit_milestone_done(caller, id, mid);
    assert(t.touched =~= s.touched.insert(escrow_key(id)).insert(milestone_key(id, mid)));
}

/// A rejected milestone is kept alive, and that it was rejected is announced. Nothing else is asked
/// of the host.
pub proof fn law_rejected_milestone_lasts(s: Ledger, caller: Address, id: u64, mid: u32)
    requires
        s.well_kept(),
        s.reject_milestone_refusal(caller, id, mid) is None,
    ensures
        ({
            let t = s.reject_milestone_done(caller, id, mid);
            &&& t.touched == s.touched.insert(escrow_key(id)).insert(milestone_key(id, mid))
            &&& t.instance_touched == s.instance_touched
            &&& t.calls.len() == settled_calls(s, id) + 1
            &&& t.by_status == s.by_status
        }),
{
    lemma_settled_calls(s, id);
    assert(s.keeps(id));
    assert(s.milestones.contains_key((id, mid)));
    let t = s.reject_milestone_done(caller, id, mid);
    assert(t.touched =~= s.touched.insert(escrow_key(id)).insert(milestone_key(id, mid)));
}

/// A milestone that is approved is kept alive. Of the host is asked no more than to announce a lock
/// time that is over and, with the approval that decides, a timelock that is over, the payment with
/// its announcement, the completion and the approval.
pub proof fn law_approved_milestone_lasts(s: Ledger, caller: Address, id: u64, mid: u32)
    requires
        s.well_kept(),
        s.approve_milestone_refusal(caller, id, mid) is None,
    ensures
        ({
            let t = s.approve_milestone_done(caller, id, mid);
            let meta = s.escrows[id];
            let open = crate::laws::work::timelock_is_over(meta.timelock, s.now);
            &&& t.touched == s.touched.insert(escrow_key(id)).insert(milestone_key(id, mid))
            &&& t.instance_touched == s.instance_touched
            &&& t.calls.len() == settled_calls(s, id) + one_if(meta.lock_time is Some)
                + (if crate::laws::work::decides(meta, s.milestones[(id, mid)], caller) {
                one_if(meta.timelock is Present && open) + 2 * one_if(open) + one_if(
                    t.escrows[id].status == EscrowStatus::Completed,
                ) + 1
            } else {
                0
            })
            &&& t.by_status == (if t.escrows[id].status == EscrowStatus::Completed {
                moved_list(s, EscrowStatus::Active, EscrowStatus::Completed, id)
            } else {
                s.by_status
            })
        }),
{
    lemma_settled_calls(s, id);
    assert(s.keeps(id));
    assert(s.milestones.contains_key((id, mid)));
    let m = s.milestones[(id, mid)];
    crate::laws::approvals::lemma_same_signers(s.escrows[id], s.accessed_escrow(id), m, caller);
    assert(crate::laws::work::decides(s.escrows[id], m, caller) == crate::milestones::suffices(
        s.escrows[id],
        m,
        caller,
    ));
    let t = s.approve_milestone_done(caller, id, mid);
    assert(t.touched =~= s.touched.insert(escrow_key(id)).insert(milestone_key(id, mid)));
}

/// A milestone that is released is kept alive. Of the host is asked no more than to announce the
/// locks that are over, to pay and announce the release, and to announce the completion.
pub proof fn law_released_milestone_lasts(s: Ledger, caller: Address, id: u64, mid: u32)
    requires
        s.well_kept(),
        s.release_funds_refusal(caller, id, mid) is None,
        s.escrows[id].status != EscrowStatus::Completed,
    ensures
        ({
            let t = s.release_funds_done(caller, id, mid);
            let meta = s.escrows[id];
            let open = crate::laws::work::timelock_is_over(meta.timelock, s.now);
            &&& t.touched == s.touched.insert(escrow_key(id)).insert(milestone_key(id, mid))
            &&& t.instance_touched
            &&& t.calls.len() == settled_calls(s, id) + one_if(meta.lock_time is Some)
                + one_if(meta.timelock is Present && open) + one_if(
                t.escrows[id].status == EscrowStatus::Completed,
            ) + 2
            &&& t.by_status == (if t.escrows[id].status == EscrowStatus::Completed {
                moved_list(s, meta.status, EscrowStatus::Completed, id)
            } else {
                s.by_status
            })
        }),
{
    lemma_settled_calls(s, id);
    assert(s.keeps(id));
    assert(s.milestones.contains_key((id, mid)));
    let t = s.release_funds_done(caller, id, mid);
    assert(t.touched =~= s.touched.insert(escrow_key(id)).insert(milestone_key(id, mid)));
}

/// A dispute over a milestone keeps both alive. Of the host is asked no more than to announce the
/// dispute, and the dispute over the milestone where it is marked.
pub proof fn law_raised_dispute_lasts(s: Ledger, caller: Address, id: u64, mid: u32)
    requires
        s.well_kept(),
        s.raise_dispute_refusal(caller, id, Some(mid)) is None,
    ensures
        ({
            let t = s.raise_dispute_done(caller, id, Some(mid));
            let m = s.milestones[(id, mid)];
            &&& t.touched == s.touched.insert(escrow_key(id)).insert(milestone_key(id, mid))
            &&& t.instance_touched == s.instance_touched
            &&& t.calls.len() == settled_calls(s, id) + 1 + one_if(
                m.status == MS_PENDING || m.status == MS_SUBMITTED,
            )
            &&& t.by_status == moved_list(s, EscrowStatus::Active, EscrowStatus::Disputed, id)
        }),
{
    lemma_settled_calls(s, id);
    assert(s.keeps(id));
    assert(s.milestones.contains_key((id, mid)));
    let t = s.raise_dispute_done(caller, id, Some(mid));
    assert(t.touched =~= s.touched.insert(escrow_key(id)).insert(milestone_key(id, mid)));
}

/// A resolved dispute keeps the escrow and both reputations alive. Of the host is asked no more
/// than to pay the shares that are not nothing, and to announce the outcome and both reputations.
pub proof fn law_resolved_dispute_lasts(
    s: Ledger,
    caller: Address,
    id: u64,
    client_amount: i128,
    freelancer_amount: i128,
)
    requires
        s.well_kept(),
        s.resolve_dispute_refusal(caller, id, client_amount, freelancer_amount) is None,
    ensures
        ({
            let t = s.resolve_dispute_done(caller, id, client_amount, freelancer_amount);
            let meta = s.escrows[id];
            &&& t.touched == s.touched.insert(escrow_key(id)).insert(
                reputation_key(meta.client),
            ).insert(reputation_key(meta.freelancer))
            &&& t.instance_touched <==> s.instance_touched || meta.arbiter != Some(caller)
            &&& t.calls.len() == settled_calls(s, id) + one_if(client_amount > 0)
                + one_if(freelancer_amount > 0) + 3
            &&& t.by_status == moved_list(s, EscrowStatus::Disputed, EscrowStatus::Completed, id)
        }),
{
    lemma_settled_calls(s, id);
    assert(s.keeps(id));
    let meta = s.escrows[id];
    let t = s.resolve_dispute_done(caller, id, client_amount, freelancer_amount);
    assert(t.touched =~= s.touched.insert(escrow_key(id)).insert(
        reputation_key(meta.client),
    ).insert(reputation_key(meta.freelancer)));
}

/// A dispute that the oracle resolves keeps the escrow and both reputations alive. Of the host is
/// asked no more than to check the signature, to pay the shares that are not nothing, and to
/// announce the outcome and both reputations.
pub proof fn law_oracle_resolution_lasts(
    s: Ledger,
    id: u64,
    payload: OracleResolutionPayload,
    grace: u64,
)
    requires
        s.well_kept(),
        s.oracle_resolve_refusal(id, payload, grace) is None,
    ensures
        ({
            let t = s.oracle_resolve_done(id, payload);
            let meta = s.escrows[id];
            let share = meta.remaining_balance * payload.client_bps / 10_000;
            &&& t.touched == s.touched.insert(escrow_key(id)).insert(
                reputation_key(meta.client),
            ).insert(reputation_key(meta.freelancer))
            &&& t.instance_touched == s.instance_touched
            &&& t.calls.len() == settled_calls(s, id) + one_if(share > 0)
                + one_if(share < meta.remaining_balance) + 4
            &&& t.by_status == moved_list(s, EscrowStatus::Disputed, EscrowStatus::Completed, id)
        }),
{
    lemma_settled_calls(s, id);
    assert(s.keeps(id));
    let meta = s.escrows[id];
    crate::disputes::lemma_client_share(meta.remaining_balance, payload.client_bps);
    assert(0 <= meta.remaining_balance * payload.client_bps) by (nonlinear_arith)
        requires
            0 <= meta.remaining_balance,
    ;
    let t = s.oracle_resolve_done(id, payload);
    assert(t.touched =~= s.touched.insert(escrow_key(id)).insert(
        reputation_key(meta.client),
    ).insert(reputation_key(meta.freelancer)));
}

/// An escrow that is cancelled outright is kept alive. Of the host is asked to pay and to announce.
pub proof fn law_outright_cancellation_lasts(s: Ledger, caller: Address, id: u64)
    requires
        s.well_kept(),
        s.cancel_escrow_refusal(caller, id) is None,
    ensures
        ({
            let t = s.cancel_escrow_done(caller, id);
            &&& t.touched == s.touched.insert(escrow_key(id))
            &&& t.instance_touched == s.instance_touched
            &&& t.calls.len() == settled_calls(s, id) + 2
            &&& t.by_status == moved_list(s, EscrowStatus::Active, EscrowStatus::Cancelled, id)
        }),
{
    lemma_settled_calls(s, id);
    assert(s.keeps(id));
    let t = s.cancel_escrow_done(caller, id);
    assert(t.touched =~= s.touched.insert(escrow_key(id)));
}

/// A request to cancel is kept alive, paid for once and announced.
pub proof fn law_requested_cancellation_lasts(s: Ledger, caller: Address, id: u64, reason: Seq<u8>)
    requires
        s.well_kept(),
        s.request_cancellation_refusal(caller, id) is None,
    ensures
        ({
            let t = s.request_cancellation_done(caller, id, reason);
            &&& t.touched == s.touched.insert(escrow_key(id)).insert(request_key(id))
            &&& t.instance_touched
            &&& t.calls.len() == settled_calls(s, id) + 2
            &&& t.by_status
                == moved_list(s, EscrowStatus::Active, EscrowStatus::CancellationPending, id)
        }),
{
    lemma_settled_calls(s, id);
    assert(s.keeps(id));
    let t = s.request_cancellation_done(caller, id, reason);
    assert(t.touched =~= s.touched.insert(escrow_key(id)).insert(request_key(id)));
}

/// An executed cancellation keeps the escrow, the slash and the reputation of the requester alive.
/// Of the host is asked no more than to pay what is returned, and to announce the slash and the
/// cancellation.
pub proof fn law_executed_cancellation_lasts(s: Ledger, id: u64)
    requires
        s.well_kept(),
        s.execute_cancellation_refusal(id) is None,
    ensures
        ({
            let t = s.execute_cancellation_done(id);
            &&& t.touched == s.touched.insert(escrow_key(id)).insert(request_key(id)).insert(
                slash_key(id),
            ).insert(reputation_key(s.cancellations[id].requester))
            &&& t.instance_touched
            &&& t.calls.len() == settled_calls(s, id) + one_if(s.escrows[id].remaining_balance > 0)
                + 2
            &&& t.by_status == moved_list(s, s.escrows[id].status, EscrowStatus::Cancelled, id)
        }),
{
    lemma_settled_calls(s, id);
    assert(s.keeps(id));
    let t = s.execute_cancellation_done(id);
    assert(t.touched =~= s.touched.insert(escrow_key(id)).insert(request_key(id)).insert(
        slash_key(id),
    ).insert(reputation_key(s.cancellations[id].requester)));
}

/// A disputed request to cancel is kept alive, and the dispute is announced.
pub proof fn law_disputed_cancellation_lasts(s: Ledger, caller: Address, id: u64)
    requires
        s.well_kept(),
        s.dispute_cancellation_refusal(caller, id) is None,
    ensures
        ({
            let t = s.dispute_cancellation_done(caller, id);
            &&& t.touched == s.touched.insert(escrow_key(id)).insert(request_key(id))
            &&& t.instance_touched
            &&& t.calls.len() == settled_calls(s, id) + 1
            &&& t.by_status == moved_list(s, s.escrows[id].status, EscrowStatus::Disputed, id)
        }),
{
    lemma_settled_calls(s, id);
    assert(s.keeps(id));
    assert(s.cancellations[id].escrow_id == id);
    let t = s.dispute_cancellation_done(caller, id);
    assert(t.touched =~= s.touched.insert(escrow_key(id)).insert(request_key(id)));
}

/// Of the host is asked no more than to pay a slash that is final, and to announce it.
pub proof fn law_finalized_slash_lasts(s: Ledger, id: u64)
    requires
        s.well_kept(),
        s.finalize_slash_refusal(id) is None,
    ensures
        ({
            let t = s.finalize_slash_done(id);
            &&& t.touched == s.touched.insert(escrow_key(id)).insert(slash_key(id))
            &&& t.instance_touched
            &&& t.calls.len() == s.calls.len() + 2
            &&& t.by_status == s.by_status
        }),
{
    let t = s.finalize_slash_done(id);
    assert(t.touched =~= s.touched.insert(escrow_key(id)).insert(slash_key(id)));
}

/// A disputed slash is kept alive, and the dispute is announced.
pub proof fn law_disputed_slash_lasts(s: Ledger, caller: Address, id: u64)
    requires
        s.well_kept(),
        s.dispute_slash_refusal(caller, id) is None,
    ensures
        ({
            let t = s.dispute_slash_done(caller, id);
            &&& t.touched == s.touched.insert(escrow_key(id)).insert(slash_key(id))
            &&& t.instance_touched == s.instance_touched
            &&& t.calls.len() == settled_calls(s, id) + 1
            &&& t.by_status == s.by_status
        }),
{
    lemma_settled_calls(s, id);
    assert(s.keeps(id));
    assert(s.slashes[id].escrow_id == id);
    let t = s.dispute_slash_done(caller, id);
    assert(t.touched =~= s.touched.insert(escrow_key(id)).insert(slash_key(id)));
}

/// Of the host is asked no more than to pay a slash that remains, and to announce it.
pub proof fn law_upheld_slash_lasts(s: Ledger, caller: Address, id: u64)
    requires
        s.well_kept(),
        s.resolve_slash_refusal(caller, id) is None,
    ensures
        ({
            let t = s.resolve_slash_done(caller, id, true);
            &&& t.touched == s.touched.insert(escrow_key(id)).insert(slash_key(id))
            &&& t.instance_touched <==> s.instance_touched || s.escrows[id].arbiter != Some(caller)
            &&& t.calls.len() == settled_calls(s, id) + 2
            &&& t.by_status == s.by_status
        }),
{
    lemma_settled_calls(s, id);
    assert(s.keeps(id));
    let t = s.resolve_slash_done(caller, id, true);
    assert(t.touched =~= s.touched.insert(escrow_key(id)).insert(slash_key(id)));
}

/// A slash that is reversed keeps the reputation of the slashed user alive. Of the host is asked no
/// more than to pay it back, and to announce it.
pub proof fn law_reversed_slash_lasts(s: Ledger, caller: Address, id: u64)
    requires
        s.well_kept(),
        s.resolve_slash_refusal(caller, id) is None,
    ensures
        ({
            let t = s.resolve_slash_done(caller, id, false);
            &&& t.touched == s.touched.insert(escrow_key(id)).insert(slash_key(id)).insert(
                reputation_key(s.slashes[id].slashed_user),
            )
            &&& t.instance_touched <==> s.instance_touched || s.escrows[id].arbiter != Some(caller)
            &&& t.calls.len() == settled_calls(s, id) + 2
            &&& t.by_status == s.by_status
        }),
{
    lemma_settled_calls(s, id);
    assert(s.keeps(id));
    let t = s.resolve_slash_done(caller, id, false);
    assert(t.touched =~= s.touched.insert(escrow_key(id)).insert(slash_key(id)).insert(
        reputation_key(s.slashes[id].slashed_user),
    ));
}

/// A started timelock keeps the escrow alive and is announced.
pub proof fn law_timelock_lasts(s: Ledger, caller: Address, id: u64, duration: u64)
    requires
        s.well_kept(),
        s.start_timelock_refusal(caller, id, duration) is None,
    ensures
        ({
            let t = s.start_timelock_done(caller, id, duration);
            &&& t.touched == s.touched.insert(escrow_key(id))
            &&& t.instance_touched
            &&& t.calls.len() == settled_calls(s, id) + 1
            &&& t.by_status == s.by_status
        }),
{
    lemma_settled_calls(s, id);
    assert(s.keeps(id));
    let t = s.start_timelock_done(caller, id, duration);
    assert(t.touched =~= s.touched.insert(escrow_key(id)));
}

/// A lock time that is moved keeps the escrow alive and is announced.
pub proof fn law_moved_lock_lasts(s: Ledger, caller: Address, id: u64, time: u64)
    requires
        s.well_kept(),
        s.extend_lock_refusal(caller, id, time) is None,
    ensures
        ({
            let t = s.extend_lock_done(caller, id, time);
            &&& t.touched == s.touched.insert(escrow_key(id))
            &&& t.instance_touched == s.instance_touched
            &&& t.calls.len() == settled_calls(s, id) + 1
            &&& t.by_status == s.by_status
        }),
{
    lemma_settled_calls(s, id);
    assert(s.keeps(id));
    let t = s.extend_lock_done(caller, id, time);
    assert(t.touched =~= s.touched.insert(escrow_key(id)));
}

/// A paused schedule is kept alive, and the pause is announced.
pub proof fn law_paused_schedule_lasts(s: Ledger, caller: Address, id: u64)
    requires
        s.well_kept(),
        s.schedule_refusal(caller, id) is None,
    ensures
        ({
            let t = s.pause_recurring_done(caller, id);
            &&& t.touched == s.touched.insert(escrow_key(id)).insert(schedule_key(id))
            &&& t.instance_touched == s.instance_touched
            &&& t.calls.len() == settled_calls(s, id) + 1
            &&& t.by_status == s.by_status
        }),
{
    lemma_settled_calls(s, id);
    assert(s.keeps(id));
    let t = s.pause_recurring_done(caller, id);
    assert(t.touched =~= s.touched.insert(escrow_key(id)).insert(schedule_key(id)));
}

/// A resumed schedule is kept alive. That it is resumed is announced where it was paused.
pub proof fn law_resumed_schedule_lasts(s: Ledger, caller: Address, id: u64)
    requires
        s.well_kept(),
        s.schedule_refusal(caller, id) is None,
    ensures
        ({
            let t = s.resume_recurring_done(caller, id);
            &&& t.touched == s.touched.insert(escrow_key(id)).insert(schedule_key(id))
            &&& t.instance_touched == s.instance_touched
            &&& t.calls.len() == settled_calls(s, id) + one_if(s.recurring[id].paused)
            &&& t.by_status == s.by_status
        }),
{
    lemma_settled_calls(s, id);
    assert(s.keeps(id));
    let t = s.resume_recurring_done(caller, id);
    assert(t.touched =~= s.touched.insert(escrow_key(id)).insert(schedule_key(id)));
}

/// A cancelled schedule is kept alive. Of the host is asked no more than to pay what remains, and
/// to announce the end.
pub proof fn law_cancelled_schedule_lasts(s: Ledger, caller: Address, id: u64)
    requires
        s.well_kept(),
        s.cancel_recurring_refusal(caller, id) is None,
    ensures
        ({
            let t = s.cancel_recurring_done(caller, id);
            &&& t.touched == s.touched.insert(escrow_key(id)).insert(schedule_key(id))
            &&& t.instance_touched == s.instance_touched
            &&& t.calls.len() == settled_calls(s, id) + one_if(s.escrows[id].remaining_balance > 0)
                + 1
            &&& t.by_status == moved_list(s, EscrowStatus::Active, EscrowStatus::Cancelled, id)
        }),
{
    lemma_settled_calls(s, id);
    assert(s.keeps(id));
    let t = s.cancel_recurring_done(caller, id);
    assert(t.touched =~= s.touched.insert(escrow_key(id)).insert(schedule_key(id)));
}

/// A reserve that is topped up keeps the escrow alive. Of the host is asked no more than to take
/// the payment, where there is one.
pub proof fn law_topped_up_reserve_lasts(s: Ledger, caller: Address, id: u64, periods: u64)
    requires
        s.well_kept(),
        s.top_up_refusal(caller, id, periods) is None,
    ensures
        ({
            let t = s.top_up_done(caller, id, periods);
            &&& t.touched == s.touched.insert(escrow_key(id))
            &&& t.instance_touched
            &&& t.calls.len() == settled_calls(s, id) + one_if(periods > 0)
            &&& t.by_status == s.by_status
        }),
{
    lemma_settled_calls(s, id);
    assert(s.keeps(id));
    let rate = s.rent_due_per_period(s.accessed_escrow(id));
    assert(rate >= 1);
    assert(periods > 0 ==> rate * periods > 0) by (nonlinear_arith)
        requires
            rate >= 1,
    ;
    let t = s.top_up_done(caller, id, periods);
    assert(t.touched =~= s.touched.insert(escrow_key(id)));
}

/// A reputation that is updated is kept alive and announced.
pub proof fn law_updated_reputation_lasts(
    s: Ledger,
    who: Address,
    completed: bool,
    disputed: bool,
    volume: i128,
)
    requires
        s.well_kept(),
    ensures
        ({
            let t = s.updating_reputation(who, completed, disputed, volume);
            &&& t.touched == s.touched.insert(reputation_key(who))
            &&& t.instance_touched == s.instance_touched
            &&& t.calls.len() == s.calls.len() + 1
            &&& t.by_status == s.by_status
        }),
{
    let t = s.updating_reputation(who, completed, disputed, volume);
    assert(t.touched =~= s.touched.insert(reputation_key(who)));
}

/// A dispute over no milestone keeps the escrow alive and is announced.
pub proof fn law_raised_dispute_alone_lasts(s: Ledger, caller: Address, id: u64)
    requires
        s.well_kept(),
        s.raise_dispute_refusal(caller, id, None) is None,
    ensures
        ({
            let t = s.raise_dispute_done(caller, id, None);
            &&& t.touched == s.touched.insert(escrow_key(id))
            &&& t.instance_touched == s.instance_touched
            &&& t.calls.len() == settled_calls(s, id) + 1
            &&& t.by_status == moved_list(s, EscrowStatus::Active, EscrowStatus::Disputed, id)
        }),
{
    lemma_settled_calls(s, id);
    assert(s.keeps(id));
    let t = s.raise_dispute_done(caller, id, None);
    assert(t.touched =~= s.touched.insert(escrow_key(id)));
}

/// Rent that is collected keeps the escrow alive, and is asked for as by any other request.
pub proof fn law_collected_rent_lasts(s: Ledger, id: u64)
    requires
        s.well_kept(),
        s.escrows.contains_key(id),
        accounts::rent_owed(s, id) <= s.escrows[id].rent_balance,
    ensures
        ({
            let t = s.collected(id);
            &&& t.touched == s.touched.insert(escrow_key(id))
            &&& t.instance_touched
            &&& t.calls.len() == settled_calls(s, id)
        }),
{
    accounts::law_reach(s, id);
    lemma_settled_calls(s, id);
    assert(s.keeps(id));
    crate::laws::upkeep::law_rent_is_settled_once(s, s.escrows[id]);
    assert(s.collected(id).touched =~= s.touched.insert(escrow_key(id)));
}

// ---------------------------------------------------------------------------
// Several at once
// ---------------------------------------------------------------------------

/// Whether `key` is that of a milestone of escrow `id` that `mids` names.
pub open spec fn names(mids: Seq<u32>, id: u64, key: EntryKey) -> bool {
    match key {
        EntryKey::Packed(PackedDataKey::Milestone(e, mid)) => e == id && mids.contains(mid),
        _ => false,
    }
}

/// Whether `key` is that of one of the `n` milestones of escrow `id` from `first` on.
pub open spec fn follows(first: u32, n: int, id: u64, key: EntryKey) -> bool {
    match key {
        EntryKey::Packed(PackedDataKey::Milestone(e, mid)) => e == id && first <= mid < first + n,
        _ => false,
    }
}

proof fn lemma_adding_lasts(
    c: Ledger,
    id: u64,
    first: u32,
    titles: Seq<Text>,
    hashes: Seq<[u8; 32]>,
    amounts: Seq<i128>,
    k: nat,
    key: EntryKey,
)
    requires
        first + k <= u32::MAX,
    ensures
        ({
            let t = c.adding_milestones(id, first, titles, hashes, amounts, k);
            &&& t.calls.len() == c.calls.len() + k
            &&& t.touched.contains(key) <==> c.touched.contains(key) || follows(
                first,
                k as int,
                id,
                key,
            )
            &&& t.instance_touched == c.instance_touched
        }),
    decreases k,
{
    if k > 0 {
        lemma_adding_lasts(c, id, first, titles, hashes, amounts, (k - 1) as nat, key);
    }
}

/// A batch of new milestones keeps each of them alive. Of the host is asked no more than to take
/// one payment and to announce each of them.
pub proof fn law_added_batch_lasts(
    s: Ledger,
    caller: Address,
    id: u64,
    titles: Seq<Text>,
    hashes: Seq<[u8; 32]>,
    amounts: Seq<i128>,
    key: EntryKey,
)
    requires
        s.well_kept(),
        s.batch_add_refusal(caller, id, titles, hashes, amounts) is None,
    ensures
        ({
            let t = s.batch_add_done(caller, id, titles, hashes, amounts);
            let first = s.escrows[id].milestone_count;
            &&& t.touched.contains(key) <==> s.touched.contains(key) || key == escrow_key(id)
                || follows(first, titles.len() as int, id, key)
            &&& t.instance_touched == s.instance_touched
            &&& t.calls.len() == settled_calls(s, id) + 1 + titles.len()
        }),
{
    lemma_settled_calls(s, id);
    assert(s.keeps(id));
    let meta = s.accessed_escrow(id);
    let n = titles.len();
    let c = s.demanding(caller).accessing(id).charging_reserve(
        meta.token,
        caller,
        crate::rent::reserve_for(n as int) as i128,
    );
    lemma_adding_lasts(c, id, meta.milestone_count, titles, hashes, amounts, n, key);
}

proof fn lemma_approving_lasts(
    c: Ledger,
    id: u64,
    meta: EscrowMetaView,
    who: Address,
    n: u32,
    mids: Seq<u32>,
    open: bool,
    k: nat,
    key: EntryKey,
)
    requires
        k <= mids.len(),
        mids.no_duplicates(),
        crate::laws::keeping::numbered(c.milestones, id, n),
        forall|i: int|
            0 <= i < mids.len() ==> c.milestones.contains_key((id, #[trigger] mids[i]))
                && c.milestones[(id, mids[i])].status == MS_SUBMITTED,
    ensures
        ({
            let t = c.approving_milestones(id, meta, who, mids, open, k);
            let part = crate::batch::chosen(c.milestones, id, meta, who, mids.take(k as int));
            &&& t.calls.len() == c.calls.len() + part.len()
            &&& t.touched.contains(key) <==> c.touched.contains(key) || names(
                mids.take(k as int),
                id,
                key,
            )
            &&& t.instance_touched == c.instance_touched
        }),
    decreases k,
{
    let now = mids.take(k as int);
    if k > 0 {
        let j = (k - 1) as nat;
        let mid = mids[k - 1];
        lemma_approving_lasts(c, id, meta, who, n, mids, open, j, key);
        crate::laws::keeping::lemma_approving(c, id, meta, who, n, mids, open, j);
        let before = c.approving_milestones(id, meta, who, mids, open, j);
        assert(before.milestones[(id, mids[k - 1])] == c.milestones[(id, mids[k - 1])]);
        assert(c.milestones.contains_key((id, mids[k - 1])));
        assert(mid < n);
        assert(c.milestones[(id, mid)].id == mid);
        assert(now.drop_last() =~= mids.take(j as int));
        assert(now.last() == mid);
        lemma_names_last(now, id, key);
    } else {
        assert(now =~= Seq::<u32>::empty());
    }
}

proof fn lemma_names_last(mids: Seq<u32>, id: u64, key: EntryKey)
    requires
        mids.len() > 0,
    ensures
        names(mids, id, key) <==> names(mids.drop_last(), id, key) || key == milestone_key(
            id,
            mids.last(),
        ),
{
    assert(mids[mids.len() - 1] == mids.last());
    if let EntryKey::Packed(PackedDataKey::Milestone(e, mid)) = key {
        if mids.contains(mid) {
            let i = choose|i: int| 0 <= i < mids.len() && mids[i] == mid;
            if i < mids.len() - 1 {
                assert(mids.drop_last()[i] == mid);
            }
        }
        if mids.drop_last().contains(mid) {
            let i = choose|i: int| 0 <= i < mids.len() - 1 && mids.drop_last()[i] == mid;
            assert(mids[i] == mid);
        }
    }
}

/// A batch of approvals keeps each of its milestones alive. Of the host is asked no more than to
/// announce the locks that are over and what is approved, to pay and announce what is released,
/// and to announce the completion.
pub proof fn law_approved_batch_lasts(
    s: Ledger,
    caller: Address,
    id: u64,
    mids: Seq<u32>,
    key: EntryKey,
)
    requires
        s.well_kept(),
        s.batch_approve_refusal(caller, id, mids) is None,
    ensures
        ({
            let t = s.batch_approve_done(caller, id, mids);
            let meta = s.escrows[id];
            let done = crate::batch::chosen(s.milestones, id, s.accessed_escrow(id), caller, mids);
            let open = crate::laws::work::timelock_is_over(meta.timelock, s.now);
            &&& t.touched.contains(key) <==> s.touched.contains(key) || key == escrow_key(id)
                || names(mids, id, key)
            &&& t.instance_touched == s.instance_touched
            &&& t.calls.len() == settled_calls(s, id) + one_if(meta.lock_time is Some) + one_if(
                meta.timelock is Present && open,
            ) + done.len() + 2 * one_if(open && done.len() > 0) + one_if(
                t.escrows[id].status == EscrowStatus::Completed,
            )
        }),
{
    lemma_settled_calls(s, id);
    crate::laws::keeping::lemma_access_keeps(s, id);
    assert(s.keeps(id));
    let meta = s.accessed_escrow(id);
    let n = meta.milestone_count;
    let open = crate::storage::timelock_open(meta.timelock, s.now);
    let c = s.demanding(caller).accessing(id).announcing_lock(
        id,
        meta.lock_time,
    ).announcing_timelock(id, meta.timelock);
    let done = crate::batch::chosen(s.milestones, id, meta, caller, mids);
    crate::batch::lemma_selection_accepted(s.milestones, id, mids, MS_SUBMITTED);
    crate::batch::lemma_selection_accepted(s.milestones, id, done, MS_SUBMITTED);
    crate::laws::keeping::lemma_selected_positive(s.milestones, id, n, done);
    if done.len() > 0 {
        crate::laws::keeping::lemma_selected_positive(s.milestones, id, n, done.drop_last());
        assert(s.milestones.contains_key((id, done[done.len() - 1])));
    }
    assert(mids.take(mids.len() as int) =~= mids);
    lemma_approving_lasts(c, id, meta, caller, n, mids, open, mids.len(), key);
}

proof fn lemma_releasing_lasts(
    c: Ledger,
    id: u64,
    to: Address,
    n: u32,
    mids: Seq<u32>,
    k: nat,
    key: EntryKey,
)
    requires
        k <= mids.len(),
        mids.no_duplicates(),
        crate::laws::keeping::numbered(c.milestones, id, n),
        forall|i: int|
            0 <= i < mids.len() ==> c.milestones.contains_key((id, #[trigger] mids[i]))
                && c.milestones[(id, mids[i])].status == MS_APPROVED,
    ensures
        ({
            let t = c.releasing_milestones(id, to, mids, k);
            &&& t.calls.len() == c.calls.len() + k
            &&& t.touched.contains(key) <==> c.touched.contains(key) || names(
                mids.take(k as int),
                id,
                key,
            )
            &&& t.instance_touched == c.instance_touched
        }),
    decreases k,
{
    let now = mids.take(k as int);
    if k > 0 {
        let j = (k - 1) as nat;
        let mid = mids[k - 1];
        lemma_releasing_lasts(c, id, to, n, mids, j, key);
        crate::laws::keeping::lemma_releasing(c, id, to, n, mids, j);
        let before = c.releasing_milestones(id, to, mids, j);
        assert(before.milestones[(id, mids[k - 1])] == c.milestones[(id, mids[k - 1])]);
        assert(c.milestones.contains_key((id, mids[k - 1])));
        assert(mid < n);
        assert(c.milestones[(id, mid)].id == mid);
        assert(now.drop_last() =~= mids.take(j as int));
        assert(now.last() == mid);
        lemma_names_last(now, id, key);
    } else {
        assert(now =~= Seq::<u32>::empty());
    }
}

/// A batch of releases keeps each of its milestones alive. Of the host is asked no more than to
/// announce a lock time that is over, to announce each release, to pay once, and to announce the
/// completion.
pub proof fn law_released_batch_lasts(
    s: Ledger,
    caller: Address,
    id: u64,
    mids: Seq<u32>,
    key: EntryKey,
)
    requires
        s.well_kept(),
        s.batch_release_refusal(caller, id, mids) is None,
        s.escrows[id].status != EscrowStatus::Completed,
    ensures
        ({
            let t = s.batch_release_done(caller, id, mids);
            let meta = s.escrows[id];
            &&& t.touched.contains(key) <==> s.touched.contains(key) || key == escrow_key(id)
                || names(mids, id, key)
            &&& t.instance_touched
            &&& t.calls.len() == settled_calls(s, id) + one_if(meta.lock_time is Some)
                + mids.len() + 1 + one_if(t.escrows[id].status == EscrowStatus::Completed)
        }),
{
    lemma_settled_calls(s, id);
    crate::laws::keeping::lemma_access_keeps(s, id);
    assert(s.keeps(id));
    let meta = s.accessed_escrow(id);
    let n = meta.milestone_count;
    let c = s.touching_instance().demanding(caller).accessing(id).announcing_lock(
        id,
        meta.lock_time,
    );
    crate::batch::lemma_selection_accepted(s.milestones, id, mids, MS_APPROVED);
    assert(mids.take(mids.len() as int) =~= mids);
    lemma_releasing_lasts(c, id, meta.freelancer, n, mids, mids.len(), key);
}

proof fn lemma_paying_lasts(
    c: Ledger,
    id: u64,
    meta: EscrowMetaView,
    config: RecurringPaymentConfig,
    k: nat,
    key: EntryKey,
)
    requires
        meta.milestone_count + k <= u32::MAX,
    ensures
        ({
            let t = c.making_payments(id, meta, config, k);
            &&& t.calls.len() == c.calls.len() + k
            &&& t.touched.contains(key) <==> c.touched.contains(key) || follows(
                meta.milestone_count,
                k as int,
                id,
                key,
            )
            &&& t.instance_touched == c.instance_touched
        }),
    decreases k,
{
    if k > 0 {
        lemma_paying_lasts(c, id, meta, config, (k - 1) as nat, key);
    }
}

/// Processing keeps the schedule and the milestones of its payments alive. Of the host is asked no
/// more than to announce the locks that are over, to make each payment, to return what remains and
/// announce the completion where the schedule is over, and to announce the payments twice.
pub proof fn law_processed_payments_last(s: Ledger, id: u64, key: EntryKey)
    requires
        s.well_kept(),
        s.process_recurring_refusal(id) is None,
    ensures
        ({
            let t = s.process_recurring_done(id);
            let meta = s.escrows[id];
            let config = s.recurring[id];
            let n = crate::recurring::due_payments(config, s.now);
            let over = t.escrows[id].status == EscrowStatus::Completed;
            let rest = meta.remaining_balance - n * config.payment_amount;
            &&& t.touched.contains(key) <==> s.touched.contains(key) || key == escrow_key(id)
                || key == schedule_key(id) || follows(meta.milestone_count, n, id, key)
            &&& t.instance_touched
            &&& t.calls.len() == settled_calls(s, id) + one_if(meta.lock_time is Some) + one_if(
                meta.timelock is Present,
            ) + n + one_if(over && rest > 0) + one_if(over) + 2
        }),
{
    lemma_settled_calls(s, id);
    assert(s.keeps(id));
    let meta = s.accessed_escrow(id);
    let config = s.recurring[id];
    let n = crate::recurring::due_payments(config, s.now);
    crate::recurring::lemma_due(config, s.now, 0);
    crate::recurring::lemma_payments_accepted(meta, config, n, n);
    lemma_paying_lasts(s.opening_schedule(id), id, meta, config, n as nat, key);
}

} // verus!
