//! What a schedule of payments does: how many payments it has, which of them fall due, and what
//! is paid and on record when it is processed, paused, resumed or cancelled.
use vstd::prelude::*;

use crate::laws::accounts;
use crate::ledger::{Event, HostCall, Ledger};
use crate::types::{
    Address, EscrowMetaView, EscrowStatus, MilestoneView, RecurringInterval,
    RecurringPaymentConfig, MS_RELEASED,
};

verus! {

/// The length of an interval: a day, seven days or thirty days.
pub open spec fn seconds_of(interval: RecurringInterval) -> int {
    match interval {
        RecurringInterval::Daily => 86_400,
        RecurringInterval::Weekly => 604_800,
        RecurringInterval::Monthly => 2_592_000,
    }
}

/// The number of payments from `start` on that are not later than `end`.
pub open spec fn room(start: u64, interval: RecurringInterval, end: u64) -> int {
    (end - start) / seconds_of(interval) + 1
}

/// Whether the payments up to `end` can be counted and dated at all.
pub open spec fn countable(start: u64, interval: RecurringInterval, end: u64) -> bool {
    let n = room(start, interval, end);
    let last = start + (n - 1) * seconds_of(interval);
    &&& start <= end
    &&& n <= u32::MAX
    &&& last < end ==> last + seconds_of(interval) <= u64::MAX
}

/// The number of payments of a schedule is the number asked for, or what its end date leaves
/// room for, or the smaller of the two where both are given. There is none where neither is
/// given, where it would be nothing, or where the payments up to the end cannot be counted.
pub proof fn law_number_of_payments(
    start: u64,
    interval: RecurringInterval,
    end: Option<u64>,
    count: Option<u32>,
)
    ensures
        ({
            let total = crate::recurring::total_payments(start, interval, end, count);
            let n = room(start, interval, end->0);
            &&& end is None && count is None ==> total is None
            &&& count == Some(0u32) ==> total is None
            &&& end is None && count is Some && count->0 > 0 ==> total == count
            &&& end is Some && !countable(start, interval, end->0) ==> total is None
            &&& end is Some && countable(start, interval, end->0) && count is None ==> total is Some
                && total->0 == n
            &&& end is Some && countable(start, interval, end->0) && count is Some && 0 < count->0
                <= n ==> total == count
            &&& end is Some && countable(start, interval, end->0) && count is Some && count->0 > n
                ==> total is Some && total->0 == n
        }),
{
    if let Some(e) = end {
        let secs = seconds_of(interval);
        assert(secs == crate::recurring::interval_seconds(interval));
        assert(e >= start ==> (e - start) / secs >= 0) by (nonlinear_arith)
            requires
                secs > 0,
        ;
    }
}

/// Processing makes the payments whose time has come, as many as the schedule still holds, and
/// none later than its end; but the one that is due is always made.
pub proof fn law_payments_that_fall_due(config: RecurringPaymentConfig, now: u64, k: int)
    requires
        config.payments_remaining > 0,
        config.next_payment_at <= now,
        k >= 0,
    ensures
        crate::recurring::due_payments(config, now) >= 1,
        k < crate::recurring::due_payments(config, now) <==> {
            let time = config.next_payment_at + k * seconds_of(config.interval);
            &&& k < config.payments_remaining
            &&& time <= now
            &&& k == 0 || config.end_date is None || time <= config.end_date->0
        },
{
    crate::recurring::lemma_due(config, now, k);
    assert(seconds_of(config.interval) == crate::recurring::interval_seconds(config.interval));
}

/// What making the first `k` payments does, to the milestones, to one account and to the record
/// of host calls.
proof fn lemma_payments_made(
    c: Ledger,
    id: u64,
    meta: EscrowMetaView,
    config: RecurringPaymentConfig,
    k: nat,
    token: Address,
    account: Address,
)
    requires
        meta.milestone_count + k <= u32::MAX,
    ensures
        ({
            let t = c.making_payments(id, meta, config, k);
            let first = meta.milestone_count;
            &&& t == (Ledger {
                milestones: t.milestones,
                calls: t.calls,
                touched: t.touched,
                ..c
            })
            &&& accounts::received(c, t, token, account) == (if token == meta.token {
                accounts::paid(c.contract, meta.freelancer, k * config.payment_amount, account)
            } else {
                0
            })
            &&& t.calls.len() >= c.calls.len()
            &&& forall|key: (u64, u32)|
                #![trigger t.milestones.contains_key(key)]
                #![trigger t.milestones[key]]
                key.0 != id || key.1 < first || key.1 >= first + k ==> {
                    &&& t.milestones.contains_key(key) <==> c.milestones.contains_key(key)
                    &&& t.milestones[key] == c.milestones[key]
                }
            &&& forall|i: int|
                #![trigger t.milestones[(id, (first + i) as u32)]]
                #![trigger t.milestones.contains_key((id, (first + i) as u32))]
                0 <= i < k ==> {
                    &&& t.milestones.contains_key((id, (first + i) as u32))
                    &&& t.milestones[(id, (first + i) as u32)] == (MilestoneView {
                        id: (first + i) as u32,
                        title: crate::recurring::recurring_title(),
                        description_hash: meta.brief_hash,
                        amount: config.payment_amount,
                        status: MS_RELEASED,
                        submitted_at: Some(
                            (config.next_payment_at + i * seconds_of(config.interval)) as u64,
                        ),
                        resolved_at: Some(c.now),
                        approvals: Seq::empty(),
                    })
                }
        }),
    decreases k,
{
    broadcast use crate::laws::books::lemma_flow_push;

    let first = meta.milestone_count;
    let amount = config.payment_amount as int;
    if k > 0 {
        let j = (k - 1) as nat;
        lemma_payments_made(c, id, meta, config, j, token, account);
        assert(k * amount == j * amount + amount) by (nonlinear_arith)
            requires
                k == j + 1,
        ;
        let before = c.making_payments(id, meta, config, j);
        let t = c.making_payments(id, meta, config, k);
        let mid = (first + j) as u32;
        assert(t.milestones == before.milestones.insert((id, mid), t.milestones[(id, mid)]));
        assert forall|key: (u64, u32)|
            #![trigger t.milestones.contains_key(key)]
            #![trigger t.milestones[key]]
            key.0 != id || key.1 < first || key.1 >= first + k implies (
        t.milestones.contains_key(key) <==> c.milestones.contains_key(key)) && t.milestones[key]
            == c.milestones[key] by {
            assert(before.milestones.contains_key(key) <==> c.milestones.contains_key(key));
            assert(before.milestones[key] == c.milestones[key]);
            assert(key != (id, mid));
        }
        assert forall|i: int|
            #![trigger t.milestones[(id, (first + i) as u32)]]
            #![trigger t.milestones.contains_key((id, (first + i) as u32))]
            0 <= i < k implies t.milestones.contains_key((id, (first + i) as u32))
            && t.milestones[(id, (first + i) as u32)] == (MilestoneView {
            id: (first + i) as u32,
            title: t.milestones[(id, (first + i) as u32)].title,
            description_hash: meta.brief_hash,
            amount: config.payment_amount,
            status: MS_RELEASED,
            submitted_at: Some((config.next_payment_at + i * seconds_of(config.interval)) as u64),
            resolved_at: Some(c.now),
            approvals: Seq::empty(),
        }) by {
            if i < j {
                assert(before.milestones[(id, (first + i) as u32)] == t.milestones[(
                    id,
                    (first + i) as u32,
                )]);
            }
        }
    } else {
        assert(k * amount == 0) by (nonlinear_arith)
            requires
                k == 0,
        ;
    }
}

/// Processing pays the freelancer the agreed amount for each payment that is due, out of the
/// contract. When the schedule is over with that, the client gets what then remains, and the
/// escrow is complete and empty; else it goes on with the payment after those.
pub proof fn law_payments_are_processed(
    s: Ledger,
    id: u64,
    i: int,
    key: (u64, u32),
    token: Address,
    account: Address,
)
    requires
        s.well_kept(),
        s.process_recurring_refusal(id) is None,
        0 <= i < crate::recurring::due_payments(s.recurring[id], s.now),
    ensures
        ({
            let t = s.process_recurring_done(id);
            let before = s.accessed_escrow(id);
            let config = s.recurring[id];
            let first = before.milestone_count;
            let n = crate::recurring::due_payments(config, s.now);
            let total = n * config.payment_amount;
            let next = config.next_payment_at + n * seconds_of(config.interval);
            let over = n == config.payments_remaining || (config.end_date is Some && next
                > config.end_date->0);
            let rest = before.remaining_balance - total;
            &&& accounts::received(s, t, token, account) == (if token == before.token {
                accounts::paid(s.contract, before.freelancer, total, account) + accounts::paid(
                    s.contract,
                    before.client,
                    if over {
                        rest
                    } else {
                        0
                    },
                    account,
                ) + accounts::rent_paid(s, id, account)
            } else {
                0
            })
            &&& total <= before.remaining_balance
            &&& t.milestones.contains_key((id, (first + i) as u32))
            &&& t.milestones[(id, (first + i) as u32)] == (MilestoneView {
                id: (first + i) as u32,
                title: crate::recurring::recurring_title(),
                description_hash: before.brief_hash,
                amount: config.payment_amount,
                status: MS_RELEASED,
                submitted_at: Some(
                    (config.next_payment_at + i * seconds_of(config.interval)) as u64,
                ),
                resolved_at: Some(s.now),
                approvals: Seq::empty(),
            })
            &&& key.0 != id || key.1 < first || key.1 >= first + n ==> {
                &&& t.milestones.contains_key(key) <==> s.milestones.contains_key(key)
                &&& t.milestones[key] == s.milestones[key]
            }
            &&& t.escrows == s.escrows.insert(
                id,
                EscrowMetaView {
                    status: if over {
                        EscrowStatus::Completed
                    } else {
                        EscrowStatus::Active
                    },
                    milestone_count: (first + n) as u32,
                    approved_count: (before.approved_count + n) as u32,
                    released_count: (before.released_count + n) as u32,
                    allocated_amount: (before.allocated_amount + total) as i128,
                    remaining_balance: if over {
                        0
                    } else {
                        rest as i128
                    },
                    ..before
                },
            )
            &&& t.recurring == s.recurring.insert(
                id,
                RecurringPaymentConfig {
                    processed_payments: (config.processed_payments + n) as u32,
                    payments_remaining: if over {
                        0
                    } else {
                        (config.payments_remaining - n) as u32
                    },
                    next_payment_at: if over {
                        0
                    } else {
                        next as u64
                    },
                    last_payment_at: Some(s.now),
                    ..config
                },
            )
            &&& t.auths == s.auths
            &&& accounts::announced(
                s,
                t,
                Event::RecurringPaymentsProcessed {
                    escrow_id: id,
                    count: n as u32,
                    total: total as i128,
                    next: if over {
                        None
                    } else {
                        Some(next as u64)
                    },
                },
            )
            &&& accounts::announced(
                s,
                t,
                Event::FundsReleased {
                    escrow_id: id,
                    to: before.freelancer,
                    amount: total as i128,
                },
            )
            &&& over ==> accounts::announced(s, t, Event::EscrowCompleted { escrow_id: id })
            &&& t == (Ledger {
                escrows: t.escrows,
                milestones: t.milestones,
                recurring: t.recurring,
                by_status: t.by_status,
                calls: t.calls,
                touched: t.touched,
                instance_touched: t.instance_touched,
                ..s
            })
        }),
{
    broadcast use crate::laws::books::lemma_flow_push;

    accounts::law_access(s, id, token, account);
    crate::laws::keeping::lemma_access_keeps(s, id);
    assert(s.keeps(id));
    let meta = s.accessed_escrow(id);
    let config = s.recurring[id];
    let n = crate::recurring::due_payments(config, s.now);
    assert(seconds_of(config.interval) == crate::recurring::interval_seconds(config.interval));
    crate::recurring::lemma_due(config, s.now, 0);
    crate::recurring::lemma_payments_accepted(meta, config, n, n);
    let c = s.opening_schedule(id);
    lemma_payments_made(c, id, meta, config, n as nat, token, account);
    let t = s.process_recurring_done(id);
    assert(t.escrows =~= s.escrows.insert(id, t.escrows[id]));
    let made = c.making_payments(id, meta, config, n as nat);
    assert(made.milestones == t.milestones);
    assert(made.milestones.contains_key(key) == t.milestones.contains_key(key));
    let last = t.calls.len() - 1;
    assert(t.calls[last] == t.calls.last());
    assert(t.calls[last - 1] == HostCall::<Seq<u8>>::Publish(
        Event::RecurringPaymentsProcessed {
            escrow_id: id,
            count: n as u32,
            total: (n * config.payment_amount) as i128,
            next: if crate::recurring::schedule_over(config, n) {
                None
            } else {
                Some(crate::recurring::paid_config(config, s.now, n).next_payment_at)
            },
        },
    ));
    if crate::recurring::schedule_over(config, n) {
        assert(t.calls[last - 2] == HostCall::<Seq<u8>>::Publish(
            Event::EscrowCompleted { escrow_id: id },
        ));
    }
}

/// The client's word on a schedule: a pause holds it, as of now, and changes nothing else of it;
/// a resumption lets it go on, not before now; nothing is paid but rent.
pub proof fn law_schedule_is_held(
    s: Ledger,
    caller: Address,
    id: u64,
    token: Address,
    account: Address,
)
    requires
        s.well_kept(),
        s.schedule_refusal(caller, id) is None,
    ensures
        ({
            let config = s.recurring[id];
            let paused = s.pause_recurring_done(caller, id);
            let resumed = s.resume_recurring_done(caller, id);
            let next = if s.now > config.next_payment_at {
                s.now
            } else {
                config.next_payment_at
            };
            let rent: int = if token == s.escrows[id].token {
                accounts::rent_paid(s, id, account)
            } else {
                0
            };
            &&& caller == s.escrows[id].client
            &&& accounts::received(s, paused, token, account) == rent
            &&& accounts::received(s, resumed, token, account) == rent
            &&& paused.recurring == s.recurring.insert(
                id,
                RecurringPaymentConfig { paused: true, paused_at: Some(s.now), ..config },
            )
            &&& config.paused ==> resumed.recurring == s.recurring.insert(
                id,
                RecurringPaymentConfig {
                    paused: false,
                    paused_at: None,
                    next_payment_at: next,
                    ..config
                },
            )
            &&& !config.paused ==> resumed.recurring == s.recurring
            &&& paused.escrows == s.escrows.insert(id, s.accessed_escrow(id))
            &&& resumed.escrows == s.escrows.insert(id, s.accessed_escrow(id))
            &&& paused.auths == s.auths.push(caller)
            &&& resumed.auths == s.auths.push(caller)
            &&& accounts::announced(
                s,
                paused,
                Event::RecurringSchedulePaused { escrow_id: id, by: caller },
            )
            &&& config.paused ==> accounts::announced(
                s,
                resumed,
                Event::RecurringScheduleResumed {
                    escrow_id: id,
                    by: caller,
                    next_payment_at: next,
                },
            )
            &&& forall|t: Ledger|
                t == paused || t == resumed ==> #[trigger] only_schedule(s, t)
        }),
{
    broadcast use crate::laws::books::lemma_flow_push;

    accounts::law_access(s, id, token, account);
    assert(s.keeps(id));
    let paused = s.pause_recurring_done(caller, id);
    let resumed = s.resume_recurring_done(caller, id);
    assert(paused.calls[paused.calls.len() - 1] == paused.calls.last());
    assert(resumed.calls[resumed.calls.len() - 1] == resumed.calls.last());
    assert(only_schedule(s, paused));
    assert(only_schedule(s, resumed));
}

/// Whether `t` differs from `s` in headers, schedules and what the host is asked for alone.
pub open spec fn only_schedule(s: Ledger, t: Ledger) -> bool {
    t == (Ledger {
        escrows: t.escrows,
        recurring: t.recurring,
        auths: t.auths,
        calls: t.calls,
        touched: t.touched,
        ..s
    })
}

/// A cancelled schedule gives the client all that remains, and never pays again.
pub proof fn law_schedule_is_cancelled(
    s: Ledger,
    caller: Address,
    id: u64,
    token: Address,
    account: Address,
)
    requires
        s.well_kept(),
        s.cancel_recurring_refusal(caller, id) is None,
    ensures
        ({
            let t = s.cancel_recurring_done(caller, id);
            let before = s.accessed_escrow(id);
            &&& accounts::received(s, t, token, account) == (if token == before.token {
                accounts::paid(
                    s.contract,
                    before.client,
                    before.remaining_balance as int,
                    account,
                ) + accounts::rent_paid(s, id, account)
            } else {
                0
            })
            &&& caller == before.client
            &&& t.escrows == s.escrows.insert(
                id,
                EscrowMetaView {
                    status: EscrowStatus::Cancelled,
                    remaining_balance: 0,
                    ..before
                },
            )
            &&& t.recurring == s.recurring.insert(
                id,
                RecurringPaymentConfig {
                    cancelled: true,
                    paused: false,
                    payments_remaining: 0,
                    next_payment_at: 0,
                    ..s.recurring[id]
                },
            )
            &&& t.auths == s.auths.push(caller)
            &&& accounts::announced(
                s,
                t,
                Event::RecurringScheduleCancelled {
                    escrow_id: id,
                    by: caller,
                    refunded: before.remaining_balance,
                },
            )
            &&& t == (Ledger {
                escrows: t.escrows,
                recurring: t.recurring,
                by_status: t.by_status,
                auths: t.auths,
                calls: t.calls,
                touched: t.touched,
                ..s
            })
        }),
{
    broadcast use crate::laws::books::lemma_flow_push;

    accounts::law_access(s, id, token, account);
    assert(s.keeps(id));
    let t = s.cancel_recurring_done(caller, id);
    assert(t.escrows =~= s.escrows.insert(id, t.escrows[id]));
    assert(t.calls[t.calls.len() - 1] == t.calls.last());
}

} // verus!
