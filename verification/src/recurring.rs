//! Recurring escrows: payments that fall due on a schedule.
use vstd::prelude::*;

use crate::contract::EscrowContract;
use crate::errors::EscrowError;
use crate::ledger::{EntryKey, Env, Event, Ledger};
use crate::storage::ContractStorage;
use crate::types::{
    Address, EscrowMeta, EscrowMetaView, EscrowStatus, Milestone, MilestoneView, PackedDataKey,
    RecurringInterval, RecurringPaymentConfig, Text, MS_RELEASED,
};

verus! {

// ---------------------------------------------------------------------------
// The model
// ---------------------------------------------------------------------------

/// The length of an interval. A month has thirty days.
pub open spec fn interval_seconds(interval: RecurringInterval) -> int {
    match interval {
        RecurringInterval::Daily => 86_400,
        RecurringInterval::Weekly => 604_800,
        RecurringInterval::Monthly => 2_592_000,
    }
}

/// The number of intervals that lie between two moments in full.
pub open spec fn intervals_between(from: int, to: int, interval: RecurringInterval) -> int {
    (to - from) / interval_seconds(interval)
}

/// The number of payments that a schedule from `start` to `end` holds, both ends included.
/// There is no such number where a payment time or the number itself gets out of range.
pub open spec fn payments_until(start: u64, interval: RecurringInterval, end: u64) -> Option<u32> {
    let whole = intervals_between(start as int, end as int, interval);
    let last = start + whole * interval_seconds(interval);
    if end < start || whole + 1 > u32::MAX || (last < end && last + interval_seconds(interval)
        > u64::MAX) {
        None
    } else {
        Some((whole + 1) as u32)
    }
}

/// The number of payments of a schedule: what its end date leaves room for, and no more than
/// the number asked for. A schedule has an end date or a number of payments, or both, and at
/// least one payment.
pub open spec fn total_payments(
    start: u64,
    interval: RecurringInterval,
    end: Option<u64>,
    count: Option<u32>,
) -> Option<u32> {
    let by_end = payments_until(start, interval, end->0);
    let total = match (end, count) {
        (None, None) => None,
        (None, Some(_)) => count,
        (Some(_), None) => by_end,
        (Some(_), Some(n)) => if by_end is Some && n < by_end->0 {
            count
        } else {
            by_end
        },
    };
    if total == Some(0u32) {
        None
    } else {
        total
    }
}

/// The moment of the payment that is `k` intervals after the next one.
pub open spec fn payment_time(config: RecurringPaymentConfig, k: int) -> int {
    config.next_payment_at + k * interval_seconds(config.interval)
}

/// Whether a payment at `time` would come after the schedule's end.
pub open spec fn past_end(config: RecurringPaymentConfig, time: int) -> bool {
    config.end_date is Some && time > config.end_date->0
}

/// The number of payments that fall due at `now`, where the next payment is due: those whose
/// time has come, that the schedule still holds, and that do not lie past its end.
pub open spec fn due_payments(config: RecurringPaymentConfig, now: u64) -> int {
    let next = config.next_payment_at as int;
    let by_now = intervals_between(next, now as int, config.interval) + 1;
    let by_end = match config.end_date {
        None => by_now,
        Some(end) => if end < next {
            1
        } else {
            intervals_between(next, end as int, config.interval) + 1
        },
    };
    let due = if by_now < by_end {
        by_now
    } else {
        by_end
    };
    if due < config.payments_remaining {
        due
    } else {
        config.payments_remaining as int
    }
}

/// Whether the schedule is over once `k` more payments were made.
pub open spec fn schedule_over(config: RecurringPaymentConfig, k: int) -> bool {
    config.payments_remaining == k || past_end(config, payment_time(config, k))
}

/// The schedule after `k` more payments.
pub open spec fn paid_config(
    config: RecurringPaymentConfig,
    now: u64,
    k: int,
) -> RecurringPaymentConfig {
    RecurringPaymentConfig {
        processed_payments: (config.processed_payments + k) as u32,
        payments_remaining: if schedule_over(config, k) {
            0
        } else {
            (config.payments_remaining - k) as u32
        },
        next_payment_at: if schedule_over(config, k) {
            0
        } else {
            payment_time(config, k) as u64
        },
        last_payment_at: Some(now),
        ..config
    }
}

/// The header after `k` payments of `amount`: each is a released milestone of its own.
pub open spec fn paid_escrow(meta: EscrowMetaView, amount: i128, k: int) -> EscrowMetaView {
    EscrowMetaView {
        milestone_count: (meta.milestone_count + k) as u32,
        approved_count: (meta.approved_count + k) as u32,
        released_count: (meta.released_count + k) as u32,
        allocated_amount: (meta.allocated_amount + k * amount) as i128,
        remaining_balance: (meta.remaining_balance - k * amount) as i128,
        ..meta
    }
}

/// The header once the schedule is over: the escrow is complete, and nothing remains.
pub open spec fn closed_if(meta: EscrowMetaView, over: bool) -> EscrowMetaView {
    if over {
        EscrowMetaView { status: EscrowStatus::Completed, remaining_balance: 0, ..meta }
    } else {
        meta
    }
}

/// Whether a mathematical integer is an amount.
pub open spec fn is_amount(x: int) -> bool {
    i128::MIN <= x <= i128::MAX
}

/// Why payment number `k`, counted from one, cannot be made: a counter, an amount or the next
/// payment time would get out of range.
pub open spec fn payment_refusal(
    meta: EscrowMetaView,
    config: RecurringPaymentConfig,
    k: int,
) -> Option<EscrowError> {
    let amount = config.payment_amount;
    if meta.milestone_count + k > u32::MAX || meta.approved_count + k > u32::MAX
        || meta.released_count + k > u32::MAX {
        Some(EscrowError::TooManyMilestones)
    } else if !is_amount(meta.allocated_amount + k * amount) || !is_amount(
        meta.remaining_balance - k * amount,
    ) {
        Some(EscrowError::AmountMismatch)
    } else if config.processed_payments + k > u32::MAX {
        Some(EscrowError::TooManyMilestones)
    } else if !is_amount(k * amount) {
        Some(EscrowError::AmountMismatch)
    } else if k < config.payments_remaining && payment_time(config, k) > u64::MAX {
        Some(EscrowError::InvalidRecurringSchedule)
    } else {
        None
    }
}

/// Why the first `n` payments cannot all be made: the refusal of the first that cannot.
pub open spec fn payments_refusal(
    meta: EscrowMetaView,
    config: RecurringPaymentConfig,
    n: int,
) -> Option<EscrowError>
    decreases n,
{
    if n <= 0 {
        None
    } else if payments_refusal(meta, config, n - 1) is Some {
        payments_refusal(meta, config, n - 1)
    } else {
        payment_refusal(meta, config, n)
    }
}

/// The title of the milestone of a recurring payment: the letters of "Recurring payment".
pub open spec fn recurring_title() -> Seq<u8> {
    seq![
        0x52u8, 0x65, 0x63, 0x75, 0x72, 0x72, 0x69, 0x6e, 0x67, 0x20, 0x70, 0x61, 0x79, 0x6d,
        0x65, 0x6e, 0x74,
    ]
}

/// The milestone that payment `k` leaves behind.
pub open spec fn payment_milestone(
    meta: EscrowMetaView,
    config: RecurringPaymentConfig,
    now: u64,
    k: int,
) -> MilestoneView {
    MilestoneView {
        id: (meta.milestone_count + k) as u32,
        title: recurring_title(),
        description_hash: meta.brief_hash,
        amount: config.payment_amount,
        status: MS_RELEASED,
        submitted_at: Some(payment_time(config, k) as u64),
        resolved_at: Some(now),
        approvals: Seq::empty(),
    }
}

impl Ledger {
    /// Why recurring payments cannot be processed: among other things, because the escrow is
    /// locked, or what remains does not cover them.
    pub open spec fn process_recurring_refusal(self, id: u64) -> Option<EscrowError> {
        let meta = self.accessed_escrow(id);
        let config = self.recurring[id];
        let n = due_payments(config, self.now);
        if self.admin is None {
            Some(EscrowError::NotInitialized)
        } else if self.is_paused() {
            Some(EscrowError::ContractPaused)
        } else if self.access_refusal(id) is Some {
            self.access_refusal(id)
        } else if meta.status != EscrowStatus::Active {
            Some(EscrowError::EscrowNotActive)
        } else if !self.recurring.contains_key(id) {
            Some(EscrowError::RecurringConfigNotFound)
        } else if config.cancelled {
            Some(EscrowError::RecurringScheduleCancelled)
        } else if config.paused {
            Some(EscrowError::RecurringSchedulePaused)
        } else if config.payments_remaining == 0 || self.now < config.next_payment_at {
            Some(EscrowError::NoRecurringPaymentDue)
        } else if payments_refusal(meta, config, n) is Some {
            payments_refusal(meta, config, n)
        } else if self.lock_refusal(meta.lock_time) is Some {
            self.lock_refusal(meta.lock_time)
        } else if self.timelock_refusal(meta.timelock) is Some {
            self.timelock_refusal(meta.timelock)
        } else if meta.remaining_balance < n * config.payment_amount {
            Some(EscrowError::AmountMismatch)
        } else {
            None
        }
    }

    /// The schedule of escrow `id` is read, and the locks that are over are announced.
    pub open spec fn opening_schedule(self, id: u64) -> Ledger {
        let meta = self.accessed_escrow(id);
        self.touching_instance().accessing(id).announcing_lock(
            id,
            meta.lock_time,
        ).announcing_timelock(id, meta.timelock).touching_recurring(id)
    }

    /// The first `k` payments are made.
    pub open spec fn making_payments(
        self,
        id: u64,
        meta: EscrowMetaView,
        config: RecurringPaymentConfig,
        k: nat,
    ) -> Ledger
        decreases k,
    {
        if k == 0 {
            self
        } else {
            self.making_payments(id, meta, config, (k - 1) as nat).with_milestone(
                id,
                payment_milestone(meta, config, self.now, k - 1),
            ).transferring(meta.token, self.contract, meta.freelancer, config.payment_amount)
        }
    }

    /// The recurring payments that are due are made. Where the schedule is over with them, what
    /// remains goes back to the client, and the escrow is complete.
    pub open spec fn process_recurring_done(self, id: u64) -> Ledger {
        let meta = self.accessed_escrow(id);
        let config = self.recurring[id];
        let n = due_payments(config, self.now);
        let total = (n * config.payment_amount) as i128;
        let over = schedule_over(config, n);
        let paid = paid_config(config, self.now, n);
        let made = self.opening_schedule(id).making_payments(id, meta, config, n as nat);
        let after = paid_escrow(meta, config.payment_amount, n);
        let rest = after.remaining_balance;
        let returned = if over && rest > 0 {
            made.transferring(meta.token, self.contract, meta.client, rest)
        } else {
            made
        };
        let announced = if over {
            returned.relisting(EscrowStatus::Active, EscrowStatus::Completed, id).publishing(
                Event::EscrowCompleted { escrow_id: id },
            )
        } else {
            returned
        };
        announced.with_escrow(closed_if(after, over)).with_recurring(id, paid).publishing(
            Event::RecurringPaymentsProcessed {
                escrow_id: id,
                count: n as u32,
                total,
                next: if over {
                    None
                } else {
                    Some(paid.next_payment_at)
                },
            },
        ).publishing(Event::FundsReleased { escrow_id: id, to: meta.freelancer, amount: total })
    }

    /// Why the client's wish to change a schedule is refused.
    pub open spec fn schedule_refusal(self, caller: Address, id: u64) -> Option<EscrowError> {
        if self.is_paused() {
            Some(EscrowError::ContractPaused)
        } else if self.access_refusal(id) is Some {
            self.access_refusal(id)
        } else if caller != self.accessed_escrow(id).client {
            Some(EscrowError::ClientOnly)
        } else if !self.recurring.contains_key(id) {
            Some(EscrowError::RecurringConfigNotFound)
        } else if self.recurring[id].cancelled {
            Some(EscrowError::RecurringScheduleCancelled)
        } else {
            None
        }
    }

    /// The schedule of escrow `id` is paused.
    pub open spec fn pause_recurring_done(self, caller: Address, id: u64) -> Ledger {
        self.demanding(caller).accessing(id).touching_recurring(id).with_recurring(
            id,
            RecurringPaymentConfig {
                paused: true,
                paused_at: Some(self.now),
                ..self.recurring[id]
            },
        ).publishing(Event::RecurringSchedulePaused { escrow_id: id, by: caller })
    }

    /// The schedule of escrow `id` is resumed, where it was paused. Its next payment is not due
    /// before now.
    pub open spec fn resume_recurring_done(self, caller: Address, id: u64) -> Ledger {
        let config = self.recurring[id];
        let read = self.demanding(caller).accessing(id).touching_recurring(id);
        let next = if config.next_payment_at < self.now {
            self.now
        } else {
            config.next_payment_at
        };
        if !config.paused {
            read
        } else {
            read.with_recurring(
                id,
                RecurringPaymentConfig {
                    paused: false,
                    next_payment_at: next,
                    paused_at: None,
                    ..config
                },
            ).publishing(
                Event::RecurringScheduleResumed {
                    escrow_id: id,
                    by: caller,
                    next_payment_at: next,
                },
            )
        }
    }

    /// Why a recurring escrow cannot be cancelled.
    pub open spec fn cancel_recurring_refusal(self, caller: Address, id: u64) -> Option<
        EscrowError,
    > {
        let meta = self.accessed_escrow(id);
        if self.is_paused() {
            Some(EscrowError::ContractPaused)
        } else if self.access_refusal(id) is Some {
            self.access_refusal(id)
        } else if caller != meta.client {
            Some(EscrowError::ClientOnly)
        } else if meta.status != EscrowStatus::Active {
            Some(EscrowError::EscrowNotActive)
        } else if !self.recurring.contains_key(id) {
            Some(EscrowError::RecurringConfigNotFound)
        } else if self.recurring[id].cancelled {
            Some(EscrowError::RecurringScheduleCancelled)
        } else {
            None
        }
    }

    /// A recurring escrow is cancelled, and the client gets the remaining balance back.
    pub open spec fn cancel_recurring_done(self, caller: Address, id: u64) -> Ledger {
        let meta = self.accessed_escrow(id);
        let refunded = meta.remaining_balance;
        let read = self.demanding(caller).accessing(id).touching_recurring(id);
        let paid = if refunded > 0 {
            read.transferring(meta.token, self.contract, meta.client, refunded)
        } else {
            read
        };
        paid.with_escrow(
            EscrowMetaView { remaining_balance: 0, status: EscrowStatus::Cancelled, ..meta },
        ).relisting(EscrowStatus::Active, EscrowStatus::Cancelled, id).with_recurring(
            id,
            RecurringPaymentConfig {
                cancelled: true,
                paused: false,
                payments_remaining: 0,
                next_payment_at: 0,
                ..self.recurring[id]
            },
        ).publishing(
            Event::RecurringScheduleCancelled { escrow_id: id, by: caller, refunded },
        )
    }
}

// ---------------------------------------------------------------------------
// Arithmetic
// ---------------------------------------------------------------------------

/// `k` intervals fit into a span of time if and only if there are that many whole ones.
pub proof fn lemma_intervals(span: int, secs: int, k: int)
    requires
        secs > 0,
    ensures
        k * secs <= span <==> k <= span / secs,
{
    assert(k * secs <= span <==> k <= span / secs) by (nonlinear_arith)
        requires
            secs > 0,
    ;
}

/// One step further is one more interval.
proof fn lemma_step(k: int, x: int)
    ensures
        (k + 1) * x == k * x + x,
        1 * x == x,
        0 * x == 0,
{
    assert((k + 1) * x == k * x + x) by (nonlinear_arith);
}

/// Payment `k` is one of the due ones if and only if its time has come, the schedule still
/// holds it, and it does not lie past the end or is the next one.
pub proof fn lemma_due(config: RecurringPaymentConfig, now: u64, k: int)
    requires
        config.payments_remaining > 0,
        config.next_payment_at <= now,
        k >= 0,
    ensures
        due_payments(config, now) >= 1,
        k < due_payments(config, now) <==> (k < config.payments_remaining && payment_time(config, k)
            <= now && (k == 0 || !past_end(config, payment_time(config, k)))),
{
    let secs = interval_seconds(config.interval);
    let next = config.next_payment_at as int;
    lemma_intervals(now - next, secs, k);
    lemma_intervals(now - next, secs, 0);
    lemma_step(k, secs);
    if let Some(end) = config.end_date {
        lemma_intervals(end - next, secs, k);
        lemma_intervals(end - next, secs, 0);
        if k >= 1 && end < next {
            assert(k * secs > 0) by (nonlinear_arith)
                requires
                    k >= 1,
                    secs > 0,
            ;
        }
    }
}

/// A refusal of some first payments is a refusal of them all.
proof fn lemma_payments_refused(
    meta: EscrowMetaView,
    config: RecurringPaymentConfig,
    k: int,
    n: int,
)
    requires
        0 <= k <= n,
        payments_refusal(meta, config, k) is Some,
    ensures
        payments_refusal(meta, config, n) == payments_refusal(meta, config, k),
    decreases n - k,
{
    if k < n {
        lemma_payments_refused(meta, config, k, n - 1);
    }
}

/// Where some payments are not refused, none of them is.
pub proof fn lemma_payments_accepted(
    meta: EscrowMetaView,
    config: RecurringPaymentConfig,
    k: int,
    n: int,
)
    requires
        1 <= k <= n,
        payments_refusal(meta, config, n) is None,
    ensures
        payment_refusal(meta, config, k) is None,
    decreases n - k,
{
    if k < n {
        lemma_payments_accepted(meta, config, k, n - 1);
    }
}

// ---------------------------------------------------------------------------
// The functions
// ---------------------------------------------------------------------------

/// The title of the milestone of a recurring payment.
fn title_of_payment() -> (r: Text)
    ensures
        r@ == recurring_title(),
{
    let title: Text = vec![
        0x52, 0x65, 0x63, 0x75, 0x72, 0x72, 0x69, 0x6e, 0x67, 0x20, 0x70, 0x61, 0x79, 0x6d, 0x65,
        0x6e, 0x74,
    ];
    assert(title@ =~= recurring_title());
    title
}

/// The schedule once some payments were planned and none of them ended it.
spec fn planned(config: RecurringPaymentConfig, now: u64, k: int) -> RecurringPaymentConfig {
    if k == 0 {
        config
    } else {
        RecurringPaymentConfig {
            processed_payments: (config.processed_payments + k) as u32,
            payments_remaining: (config.payments_remaining - k) as u32,
            next_payment_at: payment_time(config, k) as u64,
            last_payment_at: Some(now),
            ..config
        }
    }
}

/// Plans the payments that are due, in the header and in the schedule, and says how many they
/// are and what they come to.
fn plan_payments(now: u64, meta: &mut EscrowMeta, recurring: &mut RecurringPaymentConfig) -> (r:
    Result<(u32, i128), EscrowError>)
    requires
        old(recurring).payments_remaining > 0,
        old(recurring).next_payment_at <= now,
    ensures
        ({
            let n = due_payments(*old(recurring), now);
            match payments_refusal(old(meta)@, *old(recurring), n) {
                Some(e) => r == Err::<(u32, i128), _>(e),
                None => {
                    &&& r is Ok
                    &&& r->Ok_0.0 == n
                    &&& r->Ok_0.1 == n * old(recurring).payment_amount
                    &&& final(meta)@ == paid_escrow(
                        old(meta)@,
                        old(recurring).payment_amount,
                        n,
                    )
                    &&& *final(recurring) == paid_config(*old(recurring), now, n)
                },
            }
        }),
{
    let ghost config = *recurring;
    let ghost start = meta@;
    let ghost secs = interval_seconds(config.interval);
    let ghost n = due_payments(config, now);
    let amount: i128 = recurring.payment_amount;
    let mut count: u32 = 0;
    let mut total: i128 = 0;
    proof {
        lemma_due(config, now, 0);
        lemma_step(0, secs);
        lemma_step(0, amount as int);
    }
    while recurring.payments_remaining > 0 && now >= recurring.next_payment_at
        invariant_except_break
            start == old(meta)@,
            config == *old(recurring),
            secs == interval_seconds(config.interval),
            config.payments_remaining > 0,
            config.next_payment_at <= now,
            n == due_payments(config, now),
            0 <= count < n || (count == n && count < config.payments_remaining && payment_time(
                config,
                count as int,
            ) > now),
            count >= 1 ==> !schedule_over(config, count as int),
            payment_time(config, count as int) <= u64::MAX,
            payments_refusal(start, config, count as int) is None,
            amount == config.payment_amount,
            total == count * amount,
            meta@ == paid_escrow(start, amount, count as int),
            *recurring == planned(config, now, count as int),
        ensures
            count == n,
            payments_refusal(start, config, n) is None,
            total == n * amount,
            meta@ == paid_escrow(start, amount, n),
            *recurring == paid_config(config, now, n),
        decreases n - count,
    {
        let ghost k = count as int;
        proof {
            lemma_due(config, now, k);
            lemma_due(config, now, k + 1);
            lemma_step(k, secs);
            lemma_step(k, amount as int);
            assert(payments_refusal(start, config, k + 1) == payment_refusal(
                start,
                config,
                k + 1,
            ));
            if payment_refusal(start, config, k + 1) is Some {
                lemma_payments_refused(start, config, k + 1, n);
            }
        }
        meta.milestone_count = match meta.milestone_count.checked_add(1) {
            Some(next) => next,
            None => {
                return Err(EscrowError::TooManyMilestones);
            },
        };
        meta.approved_count = match meta.approved_count.checked_add(1) {
            Some(next) => next,
            None => {
                return Err(EscrowError::TooManyMilestones);
            },
        };
        meta.released_count = match meta.released_count.checked_add(1) {
            Some(next) => next,
            None => {
                return Err(EscrowError::TooManyMilestones);
            },
        };
        meta.allocated_amount = match meta.allocated_amount.checked_add(amount) {
            Some(next) => next,
            None => {
                return Err(EscrowError::AmountMismatch);
            },
        };
        meta.remaining_balance = match meta.remaining_balance.checked_sub(amount) {
            Some(next) => next,
            None => {
                return Err(EscrowError::AmountMismatch);
            },
        };
        recurring.processed_payments = match recurring.processed_payments.checked_add(1) {
            Some(next) => next,
            None => {
                return Err(EscrowError::TooManyMilestones);
            },
        };
        recurring.payments_remaining = recurring.payments_remaining - 1;
        recurring.last_payment_at = Some(now);
        total = match total.checked_add(amount) {
            Some(next) => next,
            None => {
                return Err(EscrowError::AmountMismatch);
            },
        };
        count = count + 1;
        if recurring.payments_remaining == 0 {
            recurring.next_payment_at = 0;
            break;
        }
        recurring.next_payment_at = EscrowContract::next_schedule_time(
            recurring.next_payment_at,
            &recurring.interval,
        )?;
        if let Some(end_date) = recurring.end_date {
            if recurring.next_payment_at > end_date {
                recurring.payments_remaining = 0;
                recurring.next_payment_at = 0;
                break;
            }
        }
    }
    Ok((count, total))
}

impl EscrowContract {
    /// The moment one interval after `current`.
    pub fn next_schedule_time(current: u64, interval: &RecurringInterval) -> (r: Result<
        u64,
        EscrowError,
    >)
        ensures
            r == (if current + interval_seconds(*interval) <= u64::MAX {
                Ok((current + interval_seconds(*interval)) as u64)
            } else {
                Err(EscrowError::InvalidRecurringSchedule)
            }),
    {
        let seconds: u64 = match interval {
            RecurringInterval::Daily => 86_400,
            RecurringInterval::Weekly => 7 * 86_400,
            RecurringInterval::Monthly => 30 * 86_400,
        };
        match current.checked_add(seconds) {
            Some(next) => Ok(next),
            None => Err(EscrowError::InvalidRecurringSchedule),
        }
    }

    /// The number of payments of a schedule, from its end date and the number asked for.
    pub fn resolve_total_payments(
        start_time: u64,
        interval: RecurringInterval,
        end_date: Option<u64>,
        number_of_payments: Option<u32>,
    ) -> (r: Result<u32, EscrowError>)
        ensures
            r == (match total_payments(start_time, interval, end_date, number_of_payments) {
                Some(total) => Ok(total),
                None => Err(EscrowError::InvalidRecurringSchedule),
            }),
    {
        let by_end_date: Option<u32> = match end_date {
            None => None,
            Some(end) => {
                if end < start_time {
                    return Err(EscrowError::InvalidRecurringSchedule);
                }
                let ghost secs = interval_seconds(interval);
                let ghost whole = intervals_between(start_time as int, end as int, interval);
                let mut payments: u32 = 1;
                let mut scheduled_at: u64 = start_time;
                proof {
                    lemma_step(0, secs);
                    lemma_intervals(end - start_time, secs, 0);
                    lemma_intervals(end - start_time, secs, whole);
                    lemma_intervals(end - start_time, secs, whole + 1);
                    lemma_step(whole, secs);
                }
                while scheduled_at < end
                    invariant_except_break
                        1 <= payments <= whole + 1,
                        scheduled_at == start_time + (payments - 1) * secs,
                        scheduled_at <= end,
                    invariant
                        secs == interval_seconds(interval),
                        start_time <= end,
                        end_date == Some(end),
                        whole == intervals_between(start_time as int, end as int, interval),
                        start_time + whole * secs <= end < start_time + whole * secs + secs,
                    ensures
                        payments == whole + 1,
                        payments_until(start_time, interval, end) == Some(payments),
                    decreases end - scheduled_at,
                {
                    let ghost k = payments - 1;
                    proof {
                        lemma_step(k, secs);
                        lemma_intervals(end - start_time, secs, k);
                        lemma_intervals(end - start_time, secs, k + 1);
                        if k == whole {
                            assert(k * secs == whole * secs);
                        }
                    }
                    let next: u64 = match Self::next_schedule_time(scheduled_at, &interval) {
                        Ok(next) => next,
                        Err(e) => {
                            assert(payments_until(start_time, interval, end) is None);
                            return Err(e);
                        },
                    };
                    if next > end {
                        break;
                    }
                    payments = match payments.checked_add(1) {
                        Some(count) => count,
                        None => {
                            return Err(EscrowError::InvalidRecurringSchedule);
                        },
                    };
                    scheduled_at = next;
                }
                Some(payments)
            },
        };
        let total: u32 = match (by_end_date, number_of_payments) {
            (Some(by_end_date), Some(by_count)) => if by_count < by_end_date {
                by_count
            } else {
                by_end_date
            },
            (Some(by_end_date), None) => by_end_date,
            (None, Some(by_count)) => by_count,
            (None, None) => {
                return Err(EscrowError::InvalidRecurringSchedule);
            },
        };
        if total == 0 {
            return Err(EscrowError::InvalidRecurringSchedule);
        }
        Ok(total)
    }

    /// Makes every recurring payment that is due, and says how many there were. While the escrow is
    /// locked, nothing is paid.
    pub fn process_recurring_payments(env: &mut Env, escrow_id: u64) -> (r: Result<
        u32,
        EscrowError,
    >)
        requires
            old(env)@.rent_in_range(escrow_id),
        ensures
            match old(env)@.process_recurring_refusal(escrow_id) {
                Some(e) => r == Err::<u32, _>(e) && final(env)@ == old(env)@,
                None => r is Ok && r->Ok_0 == due_payments(
                    old(env)@.recurring[escrow_id],
                    old(env)@.now,
                ) && final(env)@ == old(env)@.process_recurring_done(escrow_id),
            },
    {
        ContractStorage::require_initialized(env)?;
        ContractStorage::require_not_paused(env)?;
        let mut meta: EscrowMeta = ContractStorage::load_escrow_meta_with_rent(env, escrow_id)?;
        if meta.status != EscrowStatus::Active {
            return Err(EscrowError::EscrowNotActive);
        }
        let mut recurring: RecurringPaymentConfig = ContractStorage::load_recurring_config(
            env,
            escrow_id,
        )?;
        if recurring.cancelled {
            return Err(EscrowError::RecurringScheduleCancelled);
        }
        if recurring.paused {
            return Err(EscrowError::RecurringSchedulePaused);
        }
        let now: u64 = env.timestamp;
        if recurring.payments_remaining == 0 || now < recurring.next_payment_at {
            return Err(EscrowError::NoRecurringPaymentDue);
        }
        let ghost start = meta@;
        let ghost config = recurring;
        let first_id: u32 = meta.milestone_count;
        let first_time: u64 = recurring.next_payment_at;
        let (processed_count, total_released): (u32, i128) = plan_payments(
            now,
            &mut meta,
            &mut recurring,
        )?;
        ContractStorage::check_lock_time_expired(env, meta.lock_time)?;
        ContractStorage::check_timelock_expired(env, meta.timelock)?;
        if meta.remaining_balance < 0 {
            return Err(EscrowError::AmountMismatch);
        }

        env.touch_instance();
        ContractStorage::settle_rent_for_access(env, escrow_id);
        ContractStorage::announce_lock_time(env, escrow_id, meta.lock_time);
        ContractStorage::announce_timelock(env, escrow_id, meta.timelock);
        env.touch(EntryKey::Packed(PackedDataKey::RecurringConfig(escrow_id)));
        let ghost read = env@;
        let ghost secs = interval_seconds(config.interval);
        let mut i: u32 = 0;
        let mut time: u64 = first_time;
        proof {
            lemma_step(0, secs);
            lemma_due(config, now, 0);
        }
        while i < processed_count
            invariant
                i <= processed_count,
                processed_count == due_payments(config, now),
                payments_refusal(start, config, processed_count as int) is None,
                config.payments_remaining > 0,
                config.next_payment_at <= now,
                secs == interval_seconds(config.interval),
                start.milestone_count == first_id,
                meta.brief_hash == start.brief_hash,
                meta.token == start.token,
                meta.freelancer == start.freelancer,
                meta@ == paid_escrow(start, config.payment_amount, processed_count as int),
                recurring.payment_amount == config.payment_amount,
                recurring.interval == config.interval,
                i < processed_count ==> time == payment_time(config, i as int),
                env@.now == now == read.now,
                env@.contract == read.contract,
                env@ == read.making_payments(escrow_id, start, config, i as nat),
            decreases processed_count - i,
        {
            proof {
                lemma_due(config, now, i as int);
                lemma_due(config, now, i + 1);
                lemma_step(i as int, secs);
                lemma_payments_accepted(start, config, i + 1, processed_count as int);
            }
            ContractStorage::save_milestone(
                env,
                escrow_id,
                Milestone {
                    id: first_id + i,
                    title: title_of_payment(),
                    description_hash: meta.brief_hash,
                    amount: recurring.payment_amount,
                    status: MS_RELEASED,
                    submitted_at: Some(time),
                    resolved_at: Some(now),
                    approvals: Vec::new(),
                },
            );
            let contract: Address = env.contract;
            env.transfer(&meta.token, &contract, &meta.freelancer, recurring.payment_amount);
            i = i + 1;
            if i < processed_count {
                if let Ok(next) = Self::next_schedule_time(time, &recurring.interval) {
                    time = next;
                }
            }
        }
        if recurring.payments_remaining == 0 {
            if meta.remaining_balance > 0 {
                let contract: Address = env.contract;
                env.transfer(&meta.token, &contract, &meta.client, meta.remaining_balance);
            }
            meta.remaining_balance = 0;
            meta.status = EscrowStatus::Completed;
            ContractStorage::relist(
                env,
                EscrowStatus::Active,
                EscrowStatus::Completed,
                escrow_id,
            );
            env.publish(Event::EscrowCompleted { escrow_id });
        }
        let to: Address = meta.freelancer;
        ContractStorage::save_escrow_meta(env, meta);
        ContractStorage::save_recurring_config(env, escrow_id, recurring);
        let next: Option<u64> = if recurring.payments_remaining == 0 {
            None
        } else {
            Some(recurring.next_payment_at)
        };
        env.publish(
            Event::RecurringPaymentsProcessed {
                escrow_id,
                count: processed_count,
                total: total_released,
                next,
            },
        );
        env.publish(Event::FundsReleased { escrow_id, to, amount: total_released });
        Ok(processed_count)
    }

    /// The client pauses the schedule of a recurring escrow.
    pub fn pause_recurring_schedule(env: &mut Env, caller: Address, escrow_id: u64) -> (r: Result<
        (),
        EscrowError,
    >)
        requires
            old(env)@.rent_in_range(escrow_id),
        ensures
            match old(env)@.schedule_refusal(caller, escrow_id) {
                Some(e) => r == Err::<(), _>(e) && final(env)@ == old(env)@.demanding(caller),
                None => r == Ok::<_, EscrowError>(()) && final(env)@
                    == old(env)@.pause_recurring_done(caller, escrow_id),
            },
    {
        env.require_auth(&caller);
        let mut recurring: RecurringPaymentConfig = Self::clients_schedule(
            env,
            &caller,
            escrow_id,
        )?;

        ContractStorage::settle_rent_for_access(env, escrow_id);
        env.touch(EntryKey::Packed(PackedDataKey::RecurringConfig(escrow_id)));
        recurring.paused = true;
        recurring.paused_at = Some(env.timestamp);
        ContractStorage::save_recurring_config(env, escrow_id, recurring);
        env.publish(Event::RecurringSchedulePaused { escrow_id, by: caller });
        Ok(())
    }

    /// The client resumes the schedule of a recurring escrow.
    pub fn resume_recurring_schedule(env: &mut Env, caller: Address, escrow_id: u64) -> (r: Result<
        (),
        EscrowError,
    >)
        requires
            old(env)@.rent_in_range(escrow_id),
        ensures
            match old(env)@.schedule_refusal(caller, escrow_id) {
                Some(e) => r == Err::<(), _>(e) && final(env)@ == old(env)@.demanding(caller),
                None => r == Ok::<_, EscrowError>(()) && final(env)@
                    == old(env)@.resume_recurring_done(caller, escrow_id),
            },
    {
        env.require_auth(&caller);
        let mut recurring: RecurringPaymentConfig = Self::clients_schedule(
            env,
            &caller,
            escrow_id,
        )?;

        ContractStorage::settle_rent_for_access(env, escrow_id);
        env.touch(EntryKey::Packed(PackedDataKey::RecurringConfig(escrow_id)));
        if !recurring.paused {
            return Ok(());
        }
        recurring.paused = false;
        if recurring.next_payment_at < env.timestamp {
            recurring.next_payment_at = env.timestamp;
        }
        recurring.paused_at = None;
        ContractStorage::save_recurring_config(env, escrow_id, recurring);
        env.publish(
            Event::RecurringScheduleResumed {
                escrow_id,
                by: caller,
                next_payment_at: recurring.next_payment_at,
            },
        );
        Ok(())
    }

    /// The schedule of escrow `escrow_id`, where `caller` is its client and may change it.
    fn clients_schedule(env: &Env, caller: &Address, escrow_id: u64) -> (r: Result<
        RecurringPaymentConfig,
        EscrowError,
    >)
        requires
            env@.rent_in_range(escrow_id),
        ensures
            r == (match env@.schedule_refusal(*caller, escrow_id) {
                Some(e) => Err(e),
                None => Ok(env@.recurring[escrow_id]),
            }),
    {
        ContractStorage::require_not_paused(env)?;
        let meta: EscrowMeta = ContractStorage::load_escrow_meta_with_rent(env, escrow_id)?;
        if !caller.same(&meta.client) {
            return Err(EscrowError::ClientOnly);
        }
        let recurring: RecurringPaymentConfig = ContractStorage::load_recurring_config(
            env,
            escrow_id,
        )?;
        if recurring.cancelled {
            return Err(EscrowError::RecurringScheduleCancelled);
        }
        Ok(recurring)
    }

    /// The client cancels a recurring escrow and gets the remaining balance back.
    pub fn cancel_recurring_escrow(env: &mut Env, caller: Address, escrow_id: u64) -> (r: Result<
        (),
        EscrowError,
    >)
        requires
            old(env)@.rent_in_range(escrow_id),
        ensures
            match old(env)@.cancel_recurring_refusal(caller, escrow_id) {
                Some(e) => r == Err::<(), _>(e) && final(env)@ == old(env)@.demanding(caller),
                None => r == Ok::<_, EscrowError>(()) && final(env)@
                    == old(env)@.cancel_recurring_done(caller, escrow_id),
            },
    {
        env.require_auth(&caller);
        ContractStorage::require_not_paused(env)?;
        let mut meta: EscrowMeta = ContractStorage::load_escrow_meta_with_rent(env, escrow_id)?;
        if !caller.same(&meta.client) {
            return Err(EscrowError::ClientOnly);
        }
        if meta.status != EscrowStatus::Active {
            return Err(EscrowError::EscrowNotActive);
        }
        let mut recurring: RecurringPaymentConfig = ContractStorage::load_recurring_config(
            env,
            escrow_id,
        )?;
        if recurring.cancelled {
            return Err(EscrowError::RecurringScheduleCancelled);
        }

        ContractStorage::settle_rent_for_access(env, escrow_id);
        env.touch(EntryKey::Packed(PackedDataKey::RecurringConfig(escrow_id)));
        let refunded: i128 = meta.remaining_balance;
        if refunded > 0 {
            let contract: Address = env.contract;
            env.transfer(&meta.token, &contract, &meta.client, refunded);
        }
        recurring.cancelled = true;
        recurring.paused = false;
        recurring.payments_remaining = 0;
        recurring.next_payment_at = 0;
        meta.remaining_balance = 0;
        meta.status = EscrowStatus::Cancelled;
        ContractStorage::save_escrow_meta(env, meta);
        ContractStorage::relist(env, EscrowStatus::Active, EscrowStatus::Cancelled, escrow_id);
        ContractStorage::save_recurring_config(env, escrow_id, recurring);
        env.publish(Event::RecurringScheduleCancelled { escrow_id, by: caller, refunded });
        Ok(())
    }
}

} // verus!
