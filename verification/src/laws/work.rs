//! What creating an escrow and working on its milestones does: what is on record afterwards, and
//! who is paid.
use vstd::prelude::*;

use crate::laws::accounts;
use crate::ledger::{Event, HostCall, Ledger};
use crate::types::{
    Address, ApprovalRecord, EscrowMetaView, EscrowStatus, MilestoneView, MultisigConfigView,
    OptionalTimelock, RecurringInterval, RecurringPaymentConfig, MS_APPROVED, MS_PENDING,
    MS_REJECTED, MS_RELEASED, MS_SUBMITTED,
};

verus! {

// ---------------------------------------------------------------------------
// Creation
// ---------------------------------------------------------------------------

/// The header of an escrow in which nothing has happened yet.
pub open spec fn untouched(
    id: u64,
    client: Address,
    freelancer: Address,
    token: Address,
    amount: i128,
    reserve: i128,
    now: u64,
    after: EscrowMetaView,
) -> bool {
    &&& after.escrow_id == id
    &&& after.client == client
    &&& after.freelancer == freelancer
    &&& after.token == token
    &&& after.total_amount == amount
    &&& after.remaining_balance == amount
    &&& after.allocated_amount == 0
    &&& after.status == EscrowStatus::Active
    &&& after.milestone_count == 0
    &&& after.submitted_count == 0
    &&& after.approved_count == 0
    &&& after.released_count == 0
    &&& after.created_at == now
    &&& after.lock_time_extension is None
    &&& after.timelock == OptionalTimelock::Absent
    &&& after.rent_balance == reserve
    &&& after.last_rent_collection_at == now
    &&& after.dispute_start_ledger is None
}

/// A new escrow takes its amount and thirty units of rent from the client, gets the next number,
/// and is on record with what was asked for. The signers are those named and the client, each in
/// their place.
pub proof fn law_escrow_is_created(
    s: Ledger,
    client: Address,
    freelancer: Address,
    token: Address,
    total_amount: i128,
    brief_hash: [u8; 32],
    arbiter: Option<Address>,
    deadline: Option<u64>,
    lock_time: Option<u64>,
    signers: Seq<Address>,
    multisig: MultisigConfigView,
    asset: Address,
    account: Address,
)
    requires
        s.create_escrow_refusal(token, total_amount, deadline, lock_time) is None,
        s.next_escrow_id() < u64::MAX,
    ensures
        ({
            let t = s.create_escrow_done(
                client,
                freelancer,
                token,
                total_amount,
                brief_hash,
                arbiter,
                deadline,
                lock_time,
                signers,
                multisig,
            );
            let id = match s.escrow_counter {
                Some(count) => count,
                None => 0,
            };
            let after = t.escrows[id];
            &&& accounts::received(s, t, asset, account) == (if asset == token {
                accounts::paid(client, s.contract, total_amount + 30, account)
            } else {
                0
            })
            &&& untouched(id, client, freelancer, token, total_amount, 30, s.now, after)
            &&& after.arbiter == arbiter
            &&& after.deadline == deadline
            &&& after.lock_time == lock_time
            &&& after.brief_hash == brief_hash
            &&& after.multisig == multisig
            &&& signers.contains(client) ==> after.buyer_signers == signers
            &&& !signers.contains(client) ==> after.buyer_signers == signers.push(client)
            &&& t.escrows == s.escrows.insert(id, after)
            &&& t.escrow_counter == Some((id + 1) as u64)
            &&& t.auths == s.auths.push(client)
            &&& accounts::announced(
                s,
                t,
                Event::EscrowCreated { escrow_id: id, client, freelancer, amount: total_amount },
            )
            &&& t == (Ledger {
                escrows: t.escrows,
                escrow_counter: t.escrow_counter,
                by_participant: t.by_participant,
                by_status: t.by_status,
                auths: t.auths,
                calls: t.calls,
                touched: t.touched,
                instance_touched: t.instance_touched,
                ..s
            })
        }),
{
    broadcast use crate::laws::books::lemma_flow_push;

    let t = s.create_escrow_done(
        client,
        freelancer,
        token,
        total_amount,
        brief_hash,
        arbiter,
        deadline,
        lock_time,
        signers,
        multisig,
    );
    assert(t.calls[t.calls.len() - 1] == t.calls.last());
}

/// A new recurring escrow takes all of its payments, and sixty units of rent, from the client in
/// advance. Its schedule begins at the start that was asked for, and nothing of it is paid yet.
pub proof fn law_schedule_is_created(
    s: Ledger,
    client: Address,
    freelancer: Address,
    token: Address,
    payment_amount: i128,
    interval: RecurringInterval,
    start_time: u64,
    end_date: Option<u64>,
    number_of_payments: Option<u32>,
    brief_hash: [u8; 32],
    asset: Address,
    account: Address,
)
    requires
        s.create_recurring_refusal(
            payment_amount,
            interval,
            start_time,
            end_date,
            number_of_payments,
        ) is None,
        s.next_escrow_id() < u64::MAX,
    ensures
        ({
            let t = s.create_recurring_done(
                client,
                freelancer,
                token,
                payment_amount,
                interval,
                start_time,
                end_date,
                number_of_payments,
                brief_hash,
            );
            let id = match s.escrow_counter {
                Some(count) => count,
                None => 0,
            };
            let after = t.escrows[id];
            let n = t.recurring[id].total_payments;
            let total = n * payment_amount;
            &&& accounts::received(s, t, asset, account) == (if asset == token {
                accounts::paid(client, s.contract, total + 60, account)
            } else {
                0
            })
            &&& Some(n) == crate::recurring::total_payments(
                start_time,
                interval,
                end_date,
                number_of_payments,
            )
            &&& 0 < total <= i128::MAX
            &&& untouched(id, client, freelancer, token, total as i128, 60, s.now, after)
            &&& after.arbiter is None
            &&& after.deadline is None
            &&& after.lock_time is None
            &&& after.brief_hash == brief_hash
            &&& after.multisig.approvers.len() == 0
            &&& after.multisig.weights.len() == 0
            &&& after.multisig.threshold == 0
            &&& after.buyer_signers == seq![client]
            &&& t.escrows == s.escrows.insert(id, after)
            &&& t.recurring == s.recurring.insert(
                id,
                RecurringPaymentConfig {
                    interval,
                    payment_amount,
                    start_time,
                    next_payment_at: start_time,
                    end_date,
                    total_payments: n,
                    payments_remaining: n,
                    processed_payments: 0,
                    paused: false,
                    cancelled: false,
                    paused_at: None,
                    last_payment_at: None,
                },
            )
            &&& t.escrow_counter == Some((id + 1) as u64)
            &&& t.auths == s.auths.push(client)
            &&& accounts::announced(
                s,
                t,
                Event::EscrowCreated { escrow_id: id, client, freelancer, amount: total as i128 },
            )
            &&& accounts::announced(
                s,
                t,
                Event::RecurringScheduleCreated {
                    escrow_id: id,
                    payment_amount,
                    total_payments: n,
                    start_time,
                },
            )
            &&& t == (Ledger {
                escrows: t.escrows,
                recurring: t.recurring,
                escrow_counter: t.escrow_counter,
                by_participant: t.by_participant,
                by_status: t.by_status,
                auths: t.auths,
                calls: t.calls,
                touched: t.touched,
                instance_touched: t.instance_touched,
                ..s
            })
        }),
{
    broadcast use crate::laws::books::lemma_flow_push;

    let t = s.create_recurring_done(
        client,
        freelancer,
        token,
        payment_amount,
        interval,
        start_time,
        end_date,
        number_of_payments,
        brief_hash,
    );
    let n = crate::recurring::total_payments(start_time, interval, end_date, number_of_payments)->0;
    assert(payment_amount * n == n * payment_amount) by (nonlinear_arith);
    assert(payment_amount * n > 0) by (nonlinear_arith)
        requires
            payment_amount > 0,
            n > 0,
    ;
    assert(t.calls[t.calls.len() - 1] == t.calls.last());
    assert(t.calls[t.calls.len() - 2] == HostCall::<Seq<u8>>::Publish(
        Event::EscrowCreated {
            escrow_id: s.next_escrow_id(),
            client,
            freelancer,
            amount: (payment_amount * n) as i128,
        },
    ));
}

// ---------------------------------------------------------------------------
// Milestones one at a time
// ---------------------------------------------------------------------------

/// A new milestone is pending, with the amount that was asked for set aside for it out of the
/// escrow, and gets the next number. The client pays thirty units for its storage.
pub proof fn law_milestone_is_added(
    s: Ledger,
    caller: Address,
    id: u64,
    title: Seq<u8>,
    description_hash: [u8; 32],
    amount: i128,
    token: Address,
    account: Address,
)
    requires
        s.well_kept(),
        s.add_milestone_refusal(caller, id, amount) is None,
    ensures
        ({
            let t = s.add_milestone_done(caller, id, title, description_hash, amount);
            let before = s.accessed_escrow(id);
            let mid = before.milestone_count;
            &&& accounts::received(s, t, token, account) == (if token == before.token {
                accounts::paid(before.client, s.contract, 30, account) + accounts::rent_paid(
                    s,
                    id,
                    account,
                )
            } else {
                0
            })
            &&& t.milestones == s.milestones.insert(
                (id, mid),
                MilestoneView {
                    id: mid,
                    title,
                    description_hash,
                    amount,
                    status: MS_PENDING,
                    submitted_at: None,
                    resolved_at: None,
                    approvals: Seq::empty(),
                },
            )
            &&& t.escrows == s.escrows.insert(
                id,
                EscrowMetaView {
                    milestone_count: (mid + 1) as u32,
                    allocated_amount: (before.allocated_amount + amount) as i128,
                    rent_balance: (before.rent_balance + 30) as i128,
                    ..before
                },
            )
            &&& mid < 20
            &&& amount > 0
            &&& before.allocated_amount + amount <= before.total_amount
            &&& t.auths == s.auths.push(caller)
            &&& accounts::announced(
                s,
                t,
                Event::MilestoneAdded { escrow_id: id, milestone_id: mid, amount },
            )
            &&& t == (Ledger {
                escrows: t.escrows,
                milestones: t.milestones,
                auths: t.auths,
                calls: t.calls,
                touched: t.touched,
                ..s
            })
        }),
{
    broadcast use crate::laws::books::lemma_flow_push;

    accounts::law_access(s, id, token, account);
    assert(s.keeps(id));
    let t = s.add_milestone_done(caller, id, title, description_hash, amount);
    assert(t.escrows =~= s.escrows.insert(id, t.escrows[id]));
    assert(t.calls[t.calls.len() - 1] == t.calls.last());
}

/// A submission marks the milestone as submitted, as of now, and counts it. Nothing is paid but
/// rent.
pub proof fn law_milestone_is_submitted(
    s: Ledger,
    caller: Address,
    id: u64,
    mid: u32,
    token: Address,
    account: Address,
)
    requires
        s.well_kept(),
        s.submit_milestone_refusal(caller, id, mid) is None,
    ensures
        ({
            let t = s.submit_milestone_done(caller, id, mid);
            let before = s.accessed_escrow(id);
            let m = s.milestones[(id, mid)];
            &&& accounts::received(s, t, token, account) == (if token == before.token {
                accounts::rent_paid(s, id, account)
            } else {
                0
            })
            &&& m.status == MS_PENDING || m.status == MS_REJECTED
            &&& t.milestones == s.milestones.insert(
                (id, mid),
                MilestoneView { status: MS_SUBMITTED, submitted_at: Some(s.now), ..m },
            )
            &&& t.escrows == s.escrows.insert(
                id,
                EscrowMetaView {
                    submitted_count: (before.submitted_count + 1) as u32,
                    ..before
                },
            )
            &&& caller == before.freelancer
            &&& t.auths == s.auths.push(caller)
            &&& accounts::announced(
                s,
                t,
                Event::MilestoneSubmitted { escrow_id: id, milestone_id: mid, by: caller },
            )
            &&& t == (Ledger {
                escrows: t.escrows,
                milestones: t.milestones,
                auths: t.auths,
                calls: t.calls,
                touched: t.touched,
                ..s
            })
        }),
{
    broadcast use crate::laws::books::lemma_flow_push;

    accounts::law_access(s, id, token, account);
    assert(s.keeps(id));
    assert(s.milestones.contains_key((id, mid)));
    let t = s.submit_milestone_done(caller, id, mid);
    assert(t.escrows =~= s.escrows.insert(id, t.escrows[id]));
    assert(t.calls[t.calls.len() - 1] == t.calls.last());
}

/// Whether the approval of `who` is the one that milestone `m` still needs. Without a policy, a
/// client who is the only signer needs nobody else, and otherwise somebody must have approved
/// before. Under a policy, the weights of all approvals must reach its threshold.
pub open spec fn decides(meta: EscrowMetaView, m: MilestoneView, who: Address) -> bool {
    if meta.multisig.approvers.len() == 0 {
        ||| m.approvals.len() >= 1
        ||| forall|i: int|
            0 <= i < meta.buyer_signers.len() ==> #[trigger] meta.buyer_signers[i] == meta.client
    } else {
        crate::milestones::weight_of_all(meta.multisig, m.approvals)
            + crate::milestones::weight_of(meta.multisig, who) >= meta.multisig.threshold
    }
}

/// Whether nothing holds funds of an escrow with this timelock back at `now`.
pub open spec fn timelock_is_over(timelock: OptionalTimelock, now: u64) -> bool {
    match timelock {
        OptionalTimelock::Absent => true,
        OptionalTimelock::Present(t) => now >= t.start_ledger + t.duration_ledger,
    }
}

/// The weight of an approver is the one in the same place of the policy: where somebody is named
/// more than once, the first counts. The weight of some approvals is the sum of the signers'
/// weights.
pub proof fn law_weights(
    policy: MultisigConfigView,
    who: Address,
    i: int,
    approvals: Seq<ApprovalRecord>,
    more: ApprovalRecord,
)
    ensures
        !policy.approvers.contains(who) ==> crate::milestones::weight_of(policy, who) == 0,
        0 <= i < policy.approvers.len() && policy.approvers[i] == who && (forall|j: int|
            0 <= j < i ==> #[trigger] policy.approvers[j] != who) ==> crate::milestones::weight_of(
            policy,
            who,
        ) == (if i < policy.weights.len() {
            policy.weights[i] as int
        } else {
            0
        }),
        crate::milestones::weight_of_all(policy, Seq::empty()) == 0,
        crate::milestones::weight_of_all(policy, approvals.push(more))
            == crate::milestones::weight_of_all(policy, approvals) + crate::milestones::weight_of(
            policy,
            more.signer,
        ),
{
    assert(approvals.push(more).drop_last() =~= approvals);
    if !policy.approvers.contains(who) {
        lemma_weight_of_others(policy, who, 0, policy.approvers.len() as int);
    }
    if 0 <= i < policy.approvers.len() && policy.approvers[i] == who && (forall|j: int|
        0 <= j < i ==> #[trigger] policy.approvers[j] != who) {
        lemma_weight_of_others(policy, who, 0, i);
    }
}

/// Approvers who are somebody else do not count toward a weight.
proof fn lemma_weight_of_others(policy: MultisigConfigView, who: Address, from: int, to: int)
    requires
        0 <= from <= to <= policy.approvers.len(),
        forall|j: int| from <= j < to ==> #[trigger] policy.approvers[j] != who,
    ensures
        crate::milestones::weight_from(policy, who, from) == crate::milestones::weight_from(
            policy,
            who,
            to,
        ),
    decreases to - from,
{
    if from < to {
        assert(policy.approvers[from] != who);
        lemma_weight_of_others(policy, who, from + 1, to);
    }
}

/// An approval goes on record with its signer and time. The one that decides marks the milestone
/// as approved and, where no timelock runs, as released: then, and only then, the freelancer gets
/// its amount out of the contract. Nobody else gets anything but the rent.
pub proof fn law_milestone_is_approved(
    s: Ledger,
    caller: Address,
    id: u64,
    mid: u32,
    token: Address,
    account: Address,
)
    requires
        s.well_kept(),
        s.approve_milestone_refusal(caller, id, mid) is None,
    ensures
        ({
            let t = s.approve_milestone_done(caller, id, mid);
            let before = s.accessed_escrow(id);
            let m = s.milestones[(id, mid)];
            let done = decides(s.escrows[id], m, caller);
            let open = timelock_is_over(before.timelock, s.now);
            let after = t.milestones[(id, mid)];
            let header = t.escrows[id];
            &&& accounts::received(s, t, token, account) == (if token == before.token {
                accounts::paid(
                    s.contract,
                    before.freelancer,
                    if done && open {
                        m.amount as int
                    } else {
                        0
                    },
                    account,
                ) + accounts::rent_paid(s, id, account)
            } else {
                0
            })
            &&& m.status == MS_SUBMITTED
            &&& after.approvals == m.approvals.push(
                ApprovalRecord { signer: caller, approved_at: s.now },
            )
            &&& !done ==> after == (MilestoneView { approvals: after.approvals, ..m })
            &&& done ==> after == (MilestoneView {
                approvals: after.approvals,
                status: if open {
                    MS_RELEASED
                } else {
                    MS_APPROVED
                },
                resolved_at: Some(s.now),
                ..m
            })
            &&& t.milestones == s.milestones.insert((id, mid), after)
            &&& !done ==> header == before
            &&& done ==> header == (EscrowMetaView {
                status: header.status,
                submitted_count: (before.submitted_count - 1) as u32,
                approved_count: (before.approved_count + 1) as u32,
                released_count: (before.released_count + (if open {
                    1int
                } else {
                    0
                })) as u32,
                remaining_balance: (before.remaining_balance - (if open {
                    m.amount as int
                } else {
                    0
                })) as i128,
                ..before
            })
            &&& header.status == EscrowStatus::Active || header.status == EscrowStatus::Completed
            &&& t.escrows == s.escrows.insert(id, header)
            &&& t.auths == s.auths.push(caller)
            &&& t == (Ledger {
                escrows: t.escrows,
                milestones: t.milestones,
                by_status: t.by_status,
                auths: t.auths,
                calls: t.calls,
                touched: t.touched,
                ..s
            })
        }),
{
    broadcast use crate::laws::books::lemma_flow_push;

    accounts::law_access(s, id, token, account);
    assert(s.keeps(id));
    assert(s.milestones.contains_key((id, mid)));
    let m = s.milestones[(id, mid)];
    let before = s.accessed_escrow(id);
    let n = before.milestone_count as nat;
    crate::laws::guards::lemma_counted_some(s.milestones, id, n, mid, MS_SUBMITTED);
    crate::laws::approvals::lemma_same_signers(s.escrows[id], before, m, caller);
    assert(decides(s.escrows[id], m, caller) == crate::milestones::suffices(
        s.escrows[id],
        m,
        caller,
    ));
    let t = s.approve_milestone_done(caller, id, mid);
    assert(t.escrows =~= s.escrows.insert(id, t.escrows[id]));
}

/// The approval that decides is announced, and so is what it releases, and that the escrow is
/// complete where it is.
pub proof fn law_approval_is_announced(s: Ledger, caller: Address, id: u64, mid: u32)
    requires
        s.well_kept(),
        s.approve_milestone_refusal(caller, id, mid) is None,
        decides(s.escrows[id], s.milestones[(id, mid)], caller),
    ensures
        ({
            let t = s.approve_milestone_done(caller, id, mid);
            let m = s.milestones[(id, mid)];
            let meta = s.escrows[id];
            &&& accounts::announced(
                s,
                t,
                Event::MilestoneApproved { escrow_id: id, milestone_id: mid, amount: m.amount },
            )
            &&& timelock_is_over(meta.timelock, s.now) ==> accounts::announced(
                s,
                t,
                Event::FundsReleased { escrow_id: id, to: meta.freelancer, amount: m.amount },
            )
            &&& t.escrows[id].status == EscrowStatus::Completed ==> accounts::announced(
                s,
                t,
                Event::EscrowCompleted { escrow_id: id },
            )
        }),
{
    accounts::law_access(s, id, caller, caller);
    assert(s.keeps(id));
    let m = s.milestones[(id, mid)];
    let meta = s.escrows[id];
    crate::laws::approvals::lemma_same_signers(meta, s.accessed_escrow(id), m, caller);
    assert(crate::milestones::suffices(meta, m, caller));
    let t = s.approve_milestone_done(caller, id, mid);
    let last = t.calls.len() - 1;
    assert(t.calls[last] == t.calls.last());
    let complete = t.escrows[id].status == EscrowStatus::Completed;
    if complete {
        assert(t.calls[last - 1] == HostCall::<Seq<u8>>::Publish(
            Event::EscrowCompleted { escrow_id: id },
        ));
    }
    if timelock_is_over(meta.timelock, s.now) {
        let i = if complete {
            last - 2
        } else {
            last - 1
        };
        assert(t.calls[i] == HostCall::<Seq<u8>>::Publish(
            Event::FundsReleased { escrow_id: id, to: meta.freelancer, amount: m.amount },
        ));
    }
}

/// A rejection sends the milestone back, as of now, and voids its approvals. Nothing is paid but
/// rent.
pub proof fn law_milestone_is_rejected(
    s: Ledger,
    caller: Address,
    id: u64,
    mid: u32,
    token: Address,
    account: Address,
)
    requires
        s.well_kept(),
        s.reject_milestone_refusal(caller, id, mid) is None,
    ensures
        ({
            let t = s.reject_milestone_done(caller, id, mid);
            let before = s.accessed_escrow(id);
            let m = s.milestones[(id, mid)];
            &&& accounts::received(s, t, token, account) == (if token == before.token {
                accounts::rent_paid(s, id, account)
            } else {
                0
            })
            &&& m.status == MS_SUBMITTED
            &&& t.milestones == s.milestones.insert(
                (id, mid),
                MilestoneView {
                    status: MS_REJECTED,
                    resolved_at: Some(s.now),
                    approvals: Seq::empty(),
                    ..m
                },
            )
            &&& t.escrows == s.escrows.insert(
                id,
                EscrowMetaView {
                    submitted_count: (before.submitted_count - 1) as u32,
                    ..before
                },
            )
            &&& t.auths == s.auths.push(caller)
            &&& accounts::announced(
                s,
                t,
                Event::MilestoneRejected { escrow_id: id, milestone_id: mid, by: caller },
            )
            &&& t == (Ledger {
                escrows: t.escrows,
                milestones: t.milestones,
                auths: t.auths,
                calls: t.calls,
                touched: t.touched,
                ..s
            })
        }),
{
    broadcast use crate::laws::books::lemma_flow_push;

    accounts::law_access(s, id, token, account);
    assert(s.keeps(id));
    assert(s.milestones.contains_key((id, mid)));
    let n = s.escrows[id].milestone_count as nat;
    crate::laws::guards::lemma_counted_some(s.milestones, id, n, mid, MS_SUBMITTED);
    let t = s.reject_milestone_done(caller, id, mid);
    assert(t.escrows =~= s.escrows.insert(id, t.escrows[id]));
    assert(t.calls[t.calls.len() - 1] == t.calls.last());
}

/// A release pays the freelancer the amount of an approved milestone out of the contract, and
/// marks it as released.
pub proof fn law_milestone_is_released(
    s: Ledger,
    caller: Address,
    id: u64,
    mid: u32,
    token: Address,
    account: Address,
)
    requires
        s.well_kept(),
        s.release_funds_refusal(caller, id, mid) is None,
    ensures
        ({
            let t = s.release_funds_done(caller, id, mid);
            let before = s.accessed_escrow(id);
            let m = s.milestones[(id, mid)];
            let header = t.escrows[id];
            &&& accounts::received(s, t, token, account) == (if token == before.token {
                accounts::paid(s.contract, before.freelancer, m.amount as int, account)
                    + accounts::rent_paid(s, id, account)
            } else {
                0
            })
            &&& m.status == MS_APPROVED
            &&& Some(caller) == s.admin
            &&& t.milestones == s.milestones.insert(
                (id, mid),
                MilestoneView { status: MS_RELEASED, ..m },
            )
            &&& header == (EscrowMetaView {
                status: header.status,
                released_count: (before.released_count + 1) as u32,
                remaining_balance: (before.remaining_balance - m.amount) as i128,
                ..before
            })
            &&& header.status == EscrowStatus::Completed || header.status == before.status
            &&& t.escrows == s.escrows.insert(id, header)
            &&& t.auths == s.auths.push(caller)
            &&& accounts::announced(
                s,
                t,
                Event::FundsReleased { escrow_id: id, to: before.freelancer, amount: m.amount },
            )
            &&& t == (Ledger {
                escrows: t.escrows,
                milestones: t.milestones,
                by_status: t.by_status,
                auths: t.auths,
                calls: t.calls,
                touched: t.touched,
                instance_touched: t.instance_touched,
                ..s
            })
        }),
{
    broadcast use crate::laws::books::lemma_flow_push;

    accounts::law_access(s, id, token, account);
    assert(s.keeps(id));
    assert(s.milestones.contains_key((id, mid)));
    let t = s.release_funds_done(caller, id, mid);
    assert(t.escrows =~= s.escrows.insert(id, t.escrows[id]));
    assert(t.calls[t.calls.len() - 1] == t.calls.last());
}

} // verus!
