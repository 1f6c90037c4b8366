//! Payments: nothing is paid twice, schedules pay what they promise, and shares add up.
use vstd::prelude::*;

use crate::ledger::Ledger;
use crate::types::{
    Address, EscrowMetaView, EscrowStatus, OracleResolutionPayload, RecurringInterval,
    RecurringPaymentConfig, MS_APPROVED, MS_RELEASED, MS_SUBMITTED,
};

verus! {

// ---------------------------------------------------------------------------
// Nothing is paid twice
// ---------------------------------------------------------------------------

/// Once a milestone is released, it can be neither submitted, approved, rejected nor released
/// again, alone or in a batch.
pub proof fn law_released_is_final(
    s: Ledger,
    caller: Address,
    id: u64,
    mid: u32,
    mids: Seq<u32>,
)
    requires
        s.milestones.contains_key((id, mid)),
        s.milestones[(id, mid)].status == MS_RELEASED,
        mids.contains(mid),
    ensures
        s.submit_milestone_refusal(caller, id, mid) is Some,
        s.approve_milestone_refusal(caller, id, mid) is Some,
        s.reject_milestone_refusal(caller, id, mid) is Some,
        s.release_funds_refusal(caller, id, mid) is Some,
        s.batch_approve_refusal(caller, id, mids) is Some,
        s.batch_release_refusal(caller, id, mids) is Some,
{
    let i = choose|i: int| 0 <= i < mids.len() && mids[i] == mid;
    if crate::batch::selection_refusal(s.milestones, id, mids, MS_SUBMITTED) is None {
        crate::batch::lemma_selection_accepted(s.milestones, id, mids, MS_SUBMITTED);
        assert(s.milestones[(id, mids[i])].status == MS_SUBMITTED);
    }
    if crate::batch::selection_refusal(s.milestones, id, mids, MS_APPROVED) is None {
        crate::batch::lemma_selection_accepted(s.milestones, id, mids, MS_APPROVED);
        assert(s.milestones[(id, mids[i])].status == MS_APPROVED);
    }
}

/// The approval that was missing, with an open timelock, and a release, leave the milestone
/// released.
pub proof fn law_paid_is_released(s: Ledger, caller: Address, id: u64, mid: u32)
    requires
        s.well_kept(),
    ensures
        s.approve_milestone_refusal(caller, id, mid) is None && crate::storage::timelock_open(
            s.escrows[id].timelock,
            s.now,
        ) && crate::milestones::suffices(s.escrows[id], s.milestones[(id, mid)], caller)
            ==> s.approve_milestone_done(caller, id, mid).milestones[(id, mid)].status == MS_RELEASED,
        s.release_funds_refusal(caller, id, mid) is None ==> s.release_funds_done(
            caller,
            id,
            mid,
        ).milestones[(id, mid)].status == MS_RELEASED,
{
    if s.milestones.contains_key((id, mid)) {
        assert(s.escrows.contains_key(id));
        assert(s.keeps(id));
        assert(s.milestones[(id, mid)].id == mid);
    }
    if s.access_refusal(id) is None {
        crate::laws::keeping::lemma_access_keeps(s, id);
    }
}

/// An escrow is complete only when nothing remains in it: so after an approval and a release,
/// alone or in a batch, and after payments on a schedule.
pub proof fn law_complete_means_nothing_remains(
    s: Ledger,
    caller: Address,
    id: u64,
    mid: u32,
    mids: Seq<u32>,
)
    requires
        s.well_kept(),
    ensures
        s.approve_milestone_refusal(caller, id, mid) is None ==> {
            let after = s.approve_milestone_done(caller, id, mid).escrows[id];
            after.status == EscrowStatus::Completed ==> after.remaining_balance == 0
        },
        s.release_funds_refusal(caller, id, mid) is None ==> {
            let after = s.release_funds_done(caller, id, mid).escrows[id];
            after.status == EscrowStatus::Completed ==> after.remaining_balance == 0
        },
        s.batch_approve_refusal(caller, id, mids) is None ==> {
            let after = s.batch_approve_done(caller, id, mids).escrows[id];
            after.status == EscrowStatus::Completed ==> after.remaining_balance == 0
        },
        s.batch_release_refusal(caller, id, mids) is None ==> {
            let after = s.batch_release_done(caller, id, mids).escrows[id];
            after.status == EscrowStatus::Completed ==> after.remaining_balance == 0
        },
        s.process_recurring_refusal(id) is None ==> {
            let after = s.process_recurring_done(id).escrows[id];
            after.status == EscrowStatus::Completed ==> after.remaining_balance == 0
        },
{
    if s.access_refusal(id) is None {
        crate::laws::keeping::lemma_access_keeps(s, id);
        assert(s.keeps(id));
    }
    if s.approve_milestone_refusal(caller, id, mid) is None {
        let t = s.approve_milestone_done(caller, id, mid);
        crate::laws::keeping::law_approve_milestone_keeps(s, caller, id, mid);
        assert(t.escrows.contains_key(id));
        assert(t.keeps(id));
    }
    if s.release_funds_refusal(caller, id, mid) is None {
        let t = s.release_funds_done(caller, id, mid);
        crate::laws::keeping::law_release_funds_keeps(s, caller, id, mid);
        assert(t.escrows.contains_key(id));
        assert(t.keeps(id));
    }
    if s.batch_approve_refusal(caller, id, mids) is None {
        let t = s.batch_approve_done(caller, id, mids);
        crate::laws::keeping::law_batch_approve_keeps(s, caller, id, mids);
        assert(t.escrows.contains_key(id));
        assert(t.keeps(id));
    }
    if s.batch_release_refusal(caller, id, mids) is None {
        let t = s.batch_release_done(caller, id, mids);
        crate::laws::keeping::law_batch_release_keeps(s, caller, id, mids);
        assert(t.escrows.contains_key(id));
        assert(t.keeps(id));
    }
    if s.process_recurring_refusal(id) is None {
        let t = s.process_recurring_done(id);
        crate::laws::requests::law_process_recurring_keeps(s, id);
        assert(t.escrows.contains_key(id));
        assert(t.keeps(id));
    }
}

// ---------------------------------------------------------------------------
// Schedules
// ---------------------------------------------------------------------------

/// The number of payments that an end date leaves room for is the right one: the last of them is
/// not after the end, and one more would be.
pub proof fn law_payments_until(start: u64, interval: RecurringInterval, end: u64)
    requires
        crate::recurring::payments_until(start, interval, end) is Some,
    ensures
        ({
            let n = crate::recurring::payments_until(start, interval, end)->0;
            let secs = crate::recurring::interval_seconds(interval);
            &&& n >= 1
            &&& start + (n - 1) * secs <= end
            &&& start + n * secs > end
        }),
{
    let secs = crate::recurring::interval_seconds(interval);
    let whole = crate::recurring::intervals_between(start as int, end as int, interval);
    crate::recurring::lemma_intervals(end - start, secs, 0);
    crate::recurring::lemma_intervals(end - start, secs, whole);
    crate::recurring::lemma_intervals(end - start, secs, whole + 1);
    assert(0 * secs == 0);
}

/// A schedule has at least one payment, no more than asked for, and no more than its end date
/// leaves room for.
pub proof fn law_total_payments(
    start: u64,
    interval: RecurringInterval,
    end: Option<u64>,
    count: Option<u32>,
)
    requires
        crate::recurring::total_payments(start, interval, end, count) is Some,
    ensures
        ({
            let n = crate::recurring::total_payments(start, interval, end, count)->0;
            &&& n >= 1
            &&& count is Some ==> n <= count->0
            &&& end is Some ==> start + (n - 1) * crate::recurring::interval_seconds(interval)
                <= end->0
        }),
{
    let n = crate::recurring::total_payments(start, interval, end, count)->0;
    if let Some(e) = end {
        let secs = crate::recurring::interval_seconds(interval);
        law_payments_until(start, interval, e);
        let by_end = crate::recurring::payments_until(start, interval, e)->0;
        assert((n - 1) * secs <= (by_end - 1) * secs) by (nonlinear_arith)
            requires
                n <= by_end,
                secs > 0,
        ;
    }
}

/// Processing makes exactly the payments that are due: the time of each has come, and where the
/// schedule goes on, the time of the next has not.
pub proof fn law_due_payments(config: RecurringPaymentConfig, now: u64, k: int)
    requires
        config.payments_remaining > 0,
        config.next_payment_at <= now,
        k >= 0,
    ensures
        1 <= crate::recurring::due_payments(config, now) <= config.payments_remaining,
        k < crate::recurring::due_payments(config, now) ==> crate::recurring::payment_time(
            config,
            k,
        ) <= now,
        ({
            let n = crate::recurring::due_payments(config, now);
            !crate::recurring::schedule_over(config, n) ==> crate::recurring::payment_time(
                config,
                n,
            ) > now
        }),
{
    crate::recurring::lemma_due(config, now, k);
    let n = crate::recurring::due_payments(config, now);
    crate::recurring::lemma_due(config, now, n);
}

/// Payments are not made twice: right after they were processed, none is due.
pub proof fn law_process_once(s: Ledger, id: u64)
    requires
        s.well_kept(),
        s.process_recurring_refusal(id) is None,
    ensures
        s.process_recurring_done(id).process_recurring_refusal(id) is Some,
{
    let config = s.recurring[id];
    let n = crate::recurring::due_payments(config, s.now);
    crate::laws::requests::law_process_recurring_keeps(s, id);
    crate::laws::keeping::lemma_access_keeps(s, id);
    assert(s.keeps(id));
    let t = s.process_recurring_done(id);
    law_due_payments(config, s.now, 0);
    let meta = s.accessed_escrow(id);
    crate::recurring::lemma_payments_accepted(meta, config, n, n);
    assert(t.recurring[id] == crate::recurring::paid_config(config, s.now, n));
    assert(t.accessed_escrow(id).status == t.escrows[id].status);
}

/// Processing payments adds one released milestone for each: its funds have moved, and no
/// release pays it again.
pub proof fn law_recurring_payments_are_released(
    s: Ledger,
    id: u64,
    mid: u32,
    caller: Address,
    mids: Seq<u32>,
)
    requires
        s.well_kept(),
        s.process_recurring_refusal(id) is None,
        ({
            let first = s.escrows[id].milestone_count;
            first <= mid < first + crate::recurring::due_payments(s.recurring[id], s.now)
        }),
        mids.contains(mid),
    ensures
        ({
            let t = s.process_recurring_done(id);
            let n = crate::recurring::due_payments(s.recurring[id], s.now);
            &&& t.milestones[(id, mid)].status == MS_RELEASED
            &&& t.milestones[(id, mid)].amount == s.recurring[id].payment_amount
            &&& t.escrows[id].released_count == s.escrows[id].released_count + n
            &&& t.release_funds_refusal(caller, id, mid) is Some
            &&& t.batch_release_refusal(caller, id, mids) is Some
        }),
{
    let config = s.recurring[id];
    let n = crate::recurring::due_payments(config, s.now);
    crate::laws::keeping::lemma_access_keeps(s, id);
    assert(s.keeps(id));
    law_due_payments(config, s.now, 0);
    let meta = s.accessed_escrow(id);
    crate::recurring::lemma_payments_accepted(meta, config, n, n);
    let c = s.opening_schedule(id);
    lemma_payment_is_released(c, id, meta, config, n as nat, mid);
    law_released_is_final(s.process_recurring_done(id), caller, id, mid, mids);
}

/// Each payment that was made is a released milestone.
proof fn lemma_payment_is_released(
    c: Ledger,
    id: u64,
    meta: EscrowMetaView,
    config: RecurringPaymentConfig,
    k: nat,
    mid: u32,
)
    requires
        meta.milestone_count + k <= u32::MAX,
        meta.milestone_count <= mid < meta.milestone_count + k,
    ensures
        ({
            let t = c.making_payments(id, meta, config, k);
            &&& t.milestones.contains_key((id, mid))
            &&& t.milestones[(id, mid)].status == MS_RELEASED
            &&& t.milestones[(id, mid)].amount == config.payment_amount
        }),
    decreases k,
{
    if mid < meta.milestone_count + k - 1 {
        lemma_payment_is_released(c, id, meta, config, (k - 1) as nat, mid);
    }
}

/// The remaining balance of a recurring escrow is what its remaining payments come to: so when it
/// is created, and as long as the schedule goes on. When all payments were made, nothing
/// remains.
pub open spec fn funded(meta: EscrowMetaView, config: RecurringPaymentConfig) -> bool {
    meta.remaining_balance == config.payments_remaining * config.payment_amount
}

/// A new recurring escrow is funded.
pub proof fn law_new_schedule_is_funded(
    s: Ledger,
    client: Address,
    freelancer: Address,
    token: Address,
    payment_amount: i128,
    interval: RecurringInterval,
    start_time: u64,
    end_date: Option<u64>,
    number_of_payments: Option<u32>,
    brief_hash: [u8; 32],
)
    requires
        s.create_recurring_refusal(
            payment_amount,
            interval,
            start_time,
            end_date,
            number_of_payments,
        ) is None,
    ensures
        ({
            let t = s.create_recurring_done(
                client,
                freelancer,
                token,
                payment_amount,
                interval,
                start_time,
                end_date,
                number_of_payments,
                brief_hash,
            );
            let id = s.next_escrow_id();
            &&& funded(t.escrows[id], t.recurring[id])
            &&& t.recurring[id].processed_payments + t.recurring[id].payments_remaining
                == t.recurring[id].total_payments
        }),
{
    let n = crate::recurring::total_payments(
        start_time,
        interval,
        end_date,
        number_of_payments,
    )->0;
    assert(payment_amount * n == n * payment_amount) by (nonlinear_arith);
    assert(payment_amount * n >= 0) by (nonlinear_arith)
        requires
            payment_amount > 0,
            n >= 0,
    ;
}

/// Processing payments keeps a recurring escrow funded as long as its schedule goes on, and
/// accounts for every payment. When all payments were made, nothing remains.
pub proof fn law_process_keeps_funded(s: Ledger, id: u64)
    requires
        s.well_kept(),
        s.process_recurring_refusal(id) is None,
        funded(s.escrows[id], s.recurring[id]),
    ensures
        ({
            let t = s.process_recurring_done(id);
            let config = s.recurring[id];
            let n = crate::recurring::due_payments(config, s.now);
            &&& !crate::recurring::schedule_over(config, n) ==> funded(
                t.escrows[id],
                t.recurring[id],
            ) && t.recurring[id].processed_payments + t.recurring[id].payments_remaining
                == config.processed_payments + config.payments_remaining
            &&& n == config.payments_remaining ==> t.escrows[id].remaining_balance == 0
                && t.escrows[id].status == EscrowStatus::Completed
        }),
{
    let config = s.recurring[id];
    let n = crate::recurring::due_payments(config, s.now);
    let amount = config.payment_amount as int;
    let left = config.payments_remaining - n;
    crate::laws::keeping::lemma_access_keeps(s, id);
    assert(s.keeps(id));
    law_due_payments(config, s.now, 0);
    crate::recurring::lemma_payments_accepted(s.accessed_escrow(id), config, n, n);
    assert(config.payments_remaining * amount - n * amount == left * amount) by (nonlinear_arith)
        requires
            left == config.payments_remaining - n,
    ;
    assert(0 * amount == 0);
    let meta = s.accessed_escrow(id);
    let c = s.opening_schedule(id);
    lemma_payments_leave_headers(c, id, meta, config, n as nat);
}

/// Making payments changes no header.
proof fn lemma_payments_leave_headers(
    c: Ledger,
    id: u64,
    meta: EscrowMetaView,
    config: RecurringPaymentConfig,
    k: nat,
)
    ensures
        c.making_payments(id, meta, config, k).escrows == c.escrows,
        c.making_payments(id, meta, config, k).recurring == c.recurring,
    decreases k,
{
    if k > 0 {
        lemma_payments_leave_headers(c, id, meta, config, (k - 1) as nat);
    }
}

/// A paused schedule pays nothing; a resumed one is not paused and its next payment is not due
/// before now; a cancelled one never pays again and leaves nothing behind.
pub proof fn law_schedule_control(s: Ledger, caller: Address, id: u64)
    requires
        s.well_kept(),
    ensures
        s.schedule_refusal(caller, id) is None ==> {
            let paused = s.pause_recurring_done(caller, id);
            let resumed = s.resume_recurring_done(caller, id);
            &&& paused.recurring[id].paused
            &&& paused.process_recurring_refusal(id) is Some
            &&& !resumed.recurring[id].paused
            &&& s.recurring[id].paused ==> resumed.recurring[id].next_payment_at >= s.now
                && resumed.recurring[id].next_payment_at >= s.recurring[id].next_payment_at
            &&& resumed.recurring[id].payments_remaining == s.recurring[id].payments_remaining
        },
        s.cancel_recurring_refusal(caller, id) is None ==> {
            let t = s.cancel_recurring_done(caller, id);
            &&& t.escrows[id].remaining_balance == 0
            &&& t.escrows[id].status == EscrowStatus::Cancelled
            &&& t.process_recurring_refusal(id) is Some
            &&& t.schedule_refusal(caller, id) is Some
        },
{
    if s.access_refusal(id) is None {
        crate::laws::keeping::lemma_access_keeps(s, id);
        assert(s.keeps(id));
    }
}

// ---------------------------------------------------------------------------
// Shares
// ---------------------------------------------------------------------------

/// The two shares of an oracle's resolution add up to the remaining balance, and neither is
/// negative or more than that. A share of nothing is nothing, and a share of the whole is all.
pub proof fn law_oracle_shares(total: i128, client_bps: u32)
    requires
        total >= 0,
        client_bps <= crate::disputes::WHOLE_BPS,
    ensures
        ({
            let client = crate::disputes::client_share(total, client_bps);
            let freelancer = total - client;
            &&& client + freelancer == total
            &&& 0 <= client <= total
            &&& 0 <= freelancer <= total
            &&& client_bps == 0 ==> client == 0
            &&& client_bps == crate::disputes::WHOLE_BPS ==> client == total
            &&& client * 10_000 <= total * client_bps < (client + 1) * 10_000
        }),
{
    crate::disputes::lemma_client_share(total, client_bps);
    let t = total as int;
    assert(t * 0 == 0 && t * 10_000 == 10_000 * t);
    assert(t * client_bps >= 0) by (nonlinear_arith)
        requires
            t >= 0,
            client_bps >= 0,
    ;
}

/// A payload resolves no escrow but the one that it names.
pub proof fn law_payload_is_for_its_escrow(
    s: Ledger,
    id: u64,
    payload: OracleResolutionPayload,
    grace_period_seconds: u64,
)
    requires
        payload.escrow_id != id,
    ensures
        s.oracle_resolve_refusal(id, payload, grace_period_seconds) is Some,
{
}

/// A disputed cancellation can be resolved by the oracle: the moment of the dispute is on
/// record, and once the grace period is over nothing but the payload is looked at.
pub proof fn law_disputed_cancellation_has_a_start(s: Ledger, caller: Address, id: u64)
    requires
        s.well_kept(),
        s.dispute_cancellation_refusal(caller, id) is None,
    ensures
        s.dispute_cancellation_done(caller, id).escrows[id].status == EscrowStatus::Disputed,
        s.dispute_cancellation_done(caller, id).escrows[id].dispute_start_ledger == Some(s.now),
{
    crate::laws::keeping::lemma_access_keeps(s, id);
    assert(s.keeps(id));
}

/// A cancellation returns all of the remaining balance but the slash, which is a tenth of it,
/// rounded down.
pub proof fn law_slash_is_a_tenth(balance: i128)
    requires
        balance >= 0,
    ensures
        ({
            let slash = crate::cancellation::slash_amount(balance);
            &&& 0 <= slash <= balance
            &&& slash * 10 <= balance < (slash + 1) * 10
        }),
{
}

/// An executed cancellation takes the slash from the one who asked for it and holds it for the
/// other party.
pub proof fn law_slash_goes_to_the_other(s: Ledger, id: u64)
    requires
        s.execute_cancellation_refusal(id) is None,
    ensures
        ({
            let t = s.execute_cancellation_done(id);
            let meta = s.escrows[id];
            let requester = s.cancellations[id].requester;
            &&& t.slashes.contains_key(id)
            &&& t.slashes[id].slashed_user == requester
            &&& requester == meta.client ==> t.slashes[id].recipient == meta.freelancer
            &&& requester != meta.client ==> t.slashes[id].recipient == meta.client
            &&& t.slashes[id].amount == crate::cancellation::slash_amount(
                meta.remaining_balance,
            ) as i128
            &&& t.execute_cancellation_refusal(id) is Some
        }),
{
    assert(s.accessed_escrow(id).remaining_balance == s.escrows[id].remaining_balance);
}

// ---------------------------------------------------------------------------
// The oracle's message
// ---------------------------------------------------------------------------

/// The number that some bytes stand for, the least significant first.
pub open spec fn value_of(bytes: Seq<u8>) -> int
    decreases bytes.len(),
{
    if bytes.len() == 0 {
        0
    } else {
        bytes[0] + 256 * value_of(bytes.drop_first())
    }
}

/// The number of a number's bytes is that number.
proof fn lemma_value_of(x: int, n: nat)
    requires
        x >= 0,
    ensures
        crate::disputes::le_bytes(x, n).len() == n,
        n == 4 && x <= u32::MAX ==> value_of(crate::disputes::le_bytes(x, n)) == x,
        n == 8 && x <= u64::MAX ==> value_of(crate::disputes::le_bytes(x, n)) == x,
{
    lemma_value_rec(x, n);
    assert(bound(4) == 0x1_0000_0000 && bound(8) == 0x1_0000_0000_0000_0000) by {
        reveal_with_fuel(bound, 9);
    }
}

/// What fits into `n` bytes is less than this.
spec fn bound(n: nat) -> int
    decreases n,
{
    if n == 0 {
        1
    } else {
        256 * bound((n - 1) as nat)
    }
}

proof fn lemma_value_rec(x: int, n: nat)
    requires
        x >= 0,
    ensures
        crate::disputes::le_bytes(x, n).len() == n,
        x < bound(n) ==> value_of(crate::disputes::le_bytes(x, n)) == x,
    decreases n,
{
    if n > 0 {
        let rest = (n - 1) as nat;
        lemma_value_rec(x / 256, rest);
        let bytes = crate::disputes::le_bytes(x, n);
        assert(bytes.drop_first() =~= crate::disputes::le_bytes(x / 256, rest));
        assert(bytes[0] == (x % 256) as u8);
    }
}

/// The signed message binds the escrow, both shares and the expiry: payloads with the same
/// message agree on them all.
pub proof fn law_message_binds(a: OracleResolutionPayload, b: OracleResolutionPayload)
    requires
        crate::disputes::resolution_message(a) == crate::disputes::resolution_message(b),
    ensures
        crate::disputes::resolution_message(a).len() == 24,
        a.escrow_id == b.escrow_id,
        a.client_bps == b.client_bps,
        a.freelancer_bps == b.freelancer_bps,
        a.expires_at == b.expires_at,
{
    lemma_message_parts(a);
    lemma_message_parts(b);
}

proof fn lemma_message_parts(p: OracleResolutionPayload)
    ensures
        crate::disputes::resolution_message(p).len() == 24,
        value_of(crate::disputes::resolution_message(p).subrange(0, 8)) == p.escrow_id,
        value_of(crate::disputes::resolution_message(p).subrange(8, 12)) == p.client_bps,
        value_of(crate::disputes::resolution_message(p).subrange(12, 16)) == p.freelancer_bps,
        value_of(crate::disputes::resolution_message(p).subrange(16, 24)) == p.expires_at,
{
    let m = crate::disputes::resolution_message(p);
    lemma_value_of(p.escrow_id as int, 8);
    lemma_value_of(p.client_bps as int, 4);
    lemma_value_of(p.freelancer_bps as int, 4);
    lemma_value_of(p.expires_at as int, 8);
    assert(m.subrange(0, 8) =~= crate::disputes::le_bytes(p.escrow_id as int, 8));
    assert(m.subrange(8, 12) =~= crate::disputes::le_bytes(p.client_bps as int, 4));
    assert(m.subrange(12, 16) =~= crate::disputes::le_bytes(p.freelancer_bps as int, 4));
    assert(m.subrange(16, 24) =~= crate::disputes::le_bytes(p.expires_at as int, 8));
}

/// The signed message holds the escrow's number in eight bytes, the client's share and the
/// freelancer's in four each, and the expiry in eight, each with the least significant byte first.
pub proof fn law_message_layout(p: OracleResolutionPayload)
    ensures
        crate::disputes::resolution_message(p).len() == 24,
        value_of(crate::disputes::resolution_message(p).subrange(0, 8)) == p.escrow_id,
        value_of(crate::disputes::resolution_message(p).subrange(8, 12)) == p.client_bps,
        value_of(crate::disputes::resolution_message(p).subrange(12, 16)) == p.freelancer_bps,
        value_of(crate::disputes::resolution_message(p).subrange(16, 24)) == p.expires_at,
{
    lemma_message_parts(p);
}

} // verus!
