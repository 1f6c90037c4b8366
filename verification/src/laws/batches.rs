//! What a batch does: what is on record afterwards, and who is paid.
use vstd::prelude::*;

use crate::laws::accounts;
use crate::ledger::{Event, HostCall, Ledger};
use crate::types::{
    Address, ApprovalRecord, EscrowMetaView, EscrowStatus, MilestoneStatus, MilestoneView, Text,
    MS_APPROVED, MS_PENDING, MS_RELEASED, MS_SUBMITTED,
};

verus! {

/// What those of the first `n` milestones of escrow `id` come to that are in the state `a` or
/// `b`.
pub open spec fn value_in(
    milestones: Map<(u64, u32), MilestoneView>,
    id: u64,
    n: nat,
    a: MilestoneStatus,
    b: MilestoneStatus,
) -> int
    decreases n,
{
    if n == 0 {
        0
    } else {
        let m = milestones[(id, (n - 1) as u32)];
        value_in(milestones, id, (n - 1) as nat, a, b) + (if m.status == a || m.status == b {
            m.amount as int
        } else {
            0
        })
    }
}

/// A change of one milestone changes the value by what it came to before and comes to now.
proof fn lemma_value_change(
    milestones: Map<(u64, u32), MilestoneView>,
    id: u64,
    n: nat,
    mid: u32,
    m: MilestoneView,
    a: MilestoneStatus,
    b: MilestoneStatus,
)
    requires
        n <= u32::MAX,
    ensures
        ({
            let old_m = milestones[(id, mid)];
            let was: int = if old_m.status == a || old_m.status == b {
                old_m.amount as int
            } else {
                0
            };
            let is: int = if m.status == a || m.status == b {
                m.amount as int
            } else {
                0
            };
            value_in(milestones.insert((id, mid), m), id, n, a, b) == value_in(
                milestones,
                id,
                n,
                a,
                b,
            ) + (if mid < n {
                is - was
            } else {
                0
            })
        }),
    decreases n,
{
    if n > 0 {
        lemma_value_change(milestones, id, (n - 1) as nat, mid, m, a, b);
    }
}

/// The sum of some amounts is what is added up: nothing for none, and each amount once.
pub proof fn law_sums(amounts: Seq<i128>, more: i128)
    ensures
        crate::batch::sum_of(Seq::empty()) == 0,
        crate::batch::sum_of(amounts.push(more)) == crate::batch::sum_of(amounts) + more,
{
    assert(amounts.push(more).drop_last() =~= amounts);
}

// ---------------------------------------------------------------------------
// Adding
// ---------------------------------------------------------------------------

/// Storing the milestones of a batch announces each, and moves no funds.
proof fn lemma_adding_calls(
    c: Ledger,
    id: u64,
    first: u32,
    titles: Seq<Text>,
    hashes: Seq<[u8; 32]>,
    amounts: Seq<i128>,
    k: nat,
    token: Address,
    account: Address,
)
    requires
        first + k <= u32::MAX,
    ensures
        ({
            let t = c.adding_milestones(id, first, titles, hashes, amounts, k);
            &&& accounts::received(c, t, token, account) == 0
            &&& t.calls.len() == c.calls.len() + k
            &&& forall|i: int|
                0 <= i < k ==> #[trigger] t.calls[c.calls.len() + i] == HostCall::<
                    Seq<u8>,
                >::Publish(
                    Event::MilestoneAdded {
                        escrow_id: id,
                        milestone_id: (first + i) as u32,
                        amount: amounts[i],
                    },
                )
            &&& forall|i: int| 0 <= i < c.calls.len() ==> #[trigger] t.calls[i] == c.calls[i]
            &&& forall|key: (u64, u32)|
                #![trigger t.milestones.contains_key(key)]
                #![trigger t.milestones[key]]
                key.0 != id || key.1 < first || key.1 >= first + k ==> {
                    &&& t.milestones.contains_key(key) <==> c.milestones.contains_key(key)
                    &&& t.milestones[key] == c.milestones[key]
                }
            &&& forall|i: int|
                #![trigger t.milestones[(id, (first + i) as u32)]]
                #![trigger t.milestones.contains_key((id, (first + i) as u32))]
                0 <= i < k ==> {
                    &&& t.milestones.contains_key((id, (first + i) as u32))
                    &&& t.milestones[(id, (first + i) as u32)] == (MilestoneView {
                        id: (first + i) as u32,
                        title: titles[i]@,
                        description_hash: hashes[i],
                        amount: amounts[i],
                        status: MS_PENDING,
                        submitted_at: None,
                        resolved_at: None,
                        approvals: Seq::empty(),
                    })
                }
        }),
    decreases k,
{
    broadcast use crate::laws::books::lemma_flow_push;

    if k > 0 {
        lemma_adding_calls(
            c,
            id,
            first,
            titles,
            hashes,
            amounts,
            (k - 1) as nat,
            token,
            account,
        );
        let j = (k - 1) as nat;
        let before = c.adding_milestones(id, first, titles, hashes, amounts, j);
        let t = c.adding_milestones(id, first, titles, hashes, amounts, k);
        let mid = (first + j) as u32;
        assert(t.milestones == before.milestones.insert((id, mid), t.milestones[(id, mid)]));
        assert(t.calls == before.calls.push(
            HostCall::Publish(
                Event::MilestoneAdded { escrow_id: id, milestone_id: mid, amount: amounts[k - 1] },
            ),
        ));
        assert forall|i: int| 0 <= i < c.calls.len() implies #[trigger] t.calls[i]
            == c.calls[i] by {
            assert(before.calls[i] == t.calls[i]);
        }
        assert forall|key: (u64, u32)|
            #![trigger t.milestones.contains_key(key)]
            #![trigger t.milestones[key]]
            key.0 != id || key.1 < first || key.1 >= first + k implies (
        t.milestones.contains_key(key) <==> c.milestones.contains_key(key)) && t.milestones[key]
            == c.milestones[key] by {
            assert(before.milestones.contains_key(key) <==> c.milestones.contains_key(key));
            assert(before.milestones[key] == c.milestones[key]);
            assert(key != (id, mid));
        }
        assert forall|i: int| 0 <= i < k implies #[trigger] t.calls[c.calls.len() + i]
            == HostCall::<Seq<u8>>::Publish(
            Event::MilestoneAdded {
                escrow_id: id,
                milestone_id: (first + i) as u32,
                amount: amounts[i],
            },
        ) by {
            if i < j {
                assert(before.calls[c.calls.len() + i] == t.calls[c.calls.len() + i]);
            }
        }
        assert forall|i: int|
            #![trigger t.milestones[(id, (first + i) as u32)]]
            #![trigger t.milestones.contains_key((id, (first + i) as u32))]
            0 <= i < k implies t.milestones.contains_key((id, (first + i) as u32))
            && t.milestones[(id, (first + i) as u32)] == (MilestoneView {
            id: (first + i) as u32,
            title: titles[i]@,
            description_hash: hashes[i],
            amount: amounts[i],
            status: MS_PENDING,
            submitted_at: None,
            resolved_at: None,
            approvals: Seq::empty(),
        }) by {
            if i < j {
                assert(before.milestones[(id, (first + i) as u32)] == t.milestones[(
                    id,
                    (first + i) as u32,
                )]);
            }
        }
    }
}

/// A batch of new milestones stores each with what was asked for it, numbered in order and
/// pending, sets their amounts aside, and takes thirty units for the storage of each from the
/// client. Every other milestone stays as it was.
pub proof fn law_batch_is_added(
    s: Ledger,
    caller: Address,
    id: u64,
    titles: Seq<Text>,
    hashes: Seq<[u8; 32]>,
    amounts: Seq<i128>,
    i: int,
    key: (u64, u32),
    token: Address,
    account: Address,
)
    requires
        s.well_kept(),
        s.batch_add_refusal(caller, id, titles, hashes, amounts) is None,
        0 <= i < titles.len(),
    ensures
        ({
            let t = s.batch_add_done(caller, id, titles, hashes, amounts);
            let before = s.accessed_escrow(id);
            let first = before.milestone_count;
            let n = titles.len();
            &&& accounts::received(s, t, token, account) == (if token == before.token {
                accounts::paid(before.client, s.contract, 30 * n as int, account)
                    + accounts::rent_paid(s, id, account)
            } else {
                0
            })
            &&& n == hashes.len() == amounts.len()
            &&& first + n <= 20
            &&& t.milestones.contains_key((id, (first + i) as u32))
            &&& t.milestones[(id, (first + i) as u32)] == (MilestoneView {
                id: (first + i) as u32,
                title: titles[i]@,
                description_hash: hashes[i],
                amount: amounts[i],
                status: MS_PENDING,
                submitted_at: None,
                resolved_at: None,
                approvals: Seq::empty(),
            })
            &&& amounts[i] > 0
            &&& accounts::announced(
                s,
                t,
                Event::MilestoneAdded {
                    escrow_id: id,
                    milestone_id: (first + i) as u32,
                    amount: amounts[i],
                },
            )
            &&& key.0 != id || key.1 < first || key.1 >= first + n ==> {
                &&& t.milestones.contains_key(key) <==> s.milestones.contains_key(key)
                &&& t.milestones[key] == s.milestones[key]
            }
            &&& t.escrows == s.escrows.insert(
                id,
                EscrowMetaView {
                    milestone_count: (first + n) as u32,
                    allocated_amount: (before.allocated_amount + crate::batch::sum_of(
                        amounts,
                    )) as i128,
                    rent_balance: (before.rent_balance + 30 * n) as i128,
                    ..before
                },
            )
            &&& before.allocated_amount + crate::batch::sum_of(amounts) <= before.total_amount
            &&& t.auths == s.auths.push(caller)
            &&& t == (Ledger {
                escrows: t.escrows,
                milestones: t.milestones,
                auths: t.auths,
                calls: t.calls,
                touched: t.touched,
                ..s
            })
        }),
{
    broadcast use crate::laws::books::lemma_flow_push;

    accounts::law_access(s, id, token, account);
    crate::laws::keeping::lemma_access_keeps(s, id);
    assert(s.keeps(id));
    let before = s.accessed_escrow(id);
    let first = before.milestone_count;
    let n = titles.len();
    let c = s.demanding(caller).accessing(id).charging_reserve(
        before.token,
        caller,
        crate::rent::reserve_for(n as int) as i128,
    );
    let t = s.batch_add_done(caller, id, titles, hashes, amounts);
    crate::batch::lemma_amounts_accepted(amounts);
    crate::laws::keeping::lemma_adding(c, id, first, titles, hashes, amounts, n);
    lemma_adding_calls(c, id, first, titles, hashes, amounts, n, token, account);
    assert(t.escrows =~= s.escrows.insert(id, t.escrows[id]));
    assert(t.calls[c.calls.len() + i] == HostCall::<Seq<u8>>::Publish(
        Event::MilestoneAdded {
            escrow_id: id,
            milestone_id: (first + i) as u32,
            amount: amounts[i],
        },
    ));
}

// ---------------------------------------------------------------------------
// Approving
// ---------------------------------------------------------------------------

/// Approving the milestones of a batch raises the value of what is approved by what was chosen.
proof fn lemma_approving_value(
    c: Ledger,
    id: u64,
    meta: EscrowMetaView,
    who: Address,
    n: u32,
    mids: Seq<u32>,
    open: bool,
    k: nat,
)
    requires
        k <= mids.len(),
        mids.no_duplicates(),
        crate::laws::keeping::numbered(c.milestones, id, n),
        forall|i: int|
            0 <= i < mids.len() ==> c.milestones.contains_key((id, #[trigger] mids[i]))
                && c.milestones[(id, mids[i])].status == MS_SUBMITTED,
    ensures
        ({
            let t = c.approving_milestones(id, meta, who, mids, open, k);
            let part = crate::batch::chosen(c.milestones, id, meta, who, mids.take(k as int));
            value_in(t.milestones, id, n as nat, MS_APPROVED, MS_RELEASED) == value_in(
                c.milestones,
                id,
                n as nat,
                MS_APPROVED,
                MS_RELEASED,
            ) + crate::batch::selected_total(c.milestones, id, part)
        }),
    decreases k,
{
    if k > 0 {
        let j = (k - 1) as nat;
        let mid = mids[k - 1];
        lemma_approving_value(c, id, meta, who, n, mids, open, j);
        crate::laws::keeping::lemma_approving(c, id, meta, who, n, mids, open, j);
        let before = c.approving_milestones(id, meta, who, mids, open, j);
        let t = c.approving_milestones(id, meta, who, mids, open, k);
        assert(before.milestones[(id, mids[k - 1])] == c.milestones[(id, mids[k - 1])]);
        assert(c.milestones.contains_key((id, mids[k - 1])));
        assert(mid < n);
        assert(c.milestones[(id, mid)].id == mid);
        let m = t.milestones[(id, mid)];
        lemma_value_change(
            before.milestones,
            id,
            n as nat,
            mid,
            m,
            MS_APPROVED,
            MS_RELEASED,
        );
        assert(t.milestones == before.milestones.insert((id, mid), m));
        assert(mids.take(k as int).drop_last() =~= mids.take(j as int));
        assert(mids.take(k as int).last() == mid);
        let part = crate::batch::chosen(c.milestones, id, meta, who, mids.take(j as int));
        assert(part.push(mid).drop_last() =~= part);
    } else {
        assert(mids.take(0) =~= Seq::<u32>::empty());
        assert(crate::batch::chosen(c.milestones, id, meta, who, mids.take(0)) =~= Seq::<
            u32,
        >::empty());
    }
}

/// A batch of approvals is told what the milestones come to that were approved with it. Where no
/// timelock runs, that is what the freelancer gets and what leaves the escrow.
#[verifier::spinoff_prover]
#[verifier::rlimit(40)]
pub proof fn law_batch_approval_sum(
    s: Ledger,
    caller: Address,
    id: u64,
    mids: Seq<u32>,
    token: Address,
    account: Address,
)
    requires
        s.well_kept(),
        s.batch_approve_refusal(caller, id, mids) is None,
    ensures
        ({
            let t = s.batch_approve_done(caller, id, mids);
            let before = s.accessed_escrow(id);
            let n = before.milestone_count as nat;
            let sum = crate::batch::selected_total(
                s.milestones,
                id,
                crate::batch::chosen(s.milestones, id, before, caller, mids),
            );
            let moved: int = if crate::laws::work::timelock_is_over(before.timelock, s.now) {
                sum
            } else {
                0
            };
            &&& sum == value_in(t.milestones, id, n, MS_APPROVED, MS_RELEASED) - value_in(
                s.milestones,
                id,
                n,
                MS_APPROVED,
                MS_RELEASED,
            )
            &&& 0 <= sum <= i128::MAX
            &&& moved > 0 ==> accounts::announced(
                s,
                t,
                Event::FundsReleased {
                    escrow_id: id,
                    to: before.freelancer,
                    amount: moved as i128,
                },
            )
            &&& t.escrows[id].remaining_balance == before.remaining_balance - moved
            &&& accounts::received(s, t, token, account) == (if token == before.token {
                accounts::paid(s.contract, before.freelancer, moved, account)
                    + accounts::rent_paid(s, id, account)
            } else {
                0
            })
        }),
{
    broadcast use crate::laws::books::lemma_flow_push;

    accounts::law_access(s, id, token, account);
    crate::laws::keeping::lemma_access_keeps(s, id);
    assert(s.keeps(id));
    let meta = s.accessed_escrow(id);
    let n = meta.milestone_count;
    let open = crate::storage::timelock_open(meta.timelock, s.now);
    let c = s.demanding(caller).accessing(id).announcing_lock(
        id,
        meta.lock_time,
    ).announcing_timelock(id, meta.timelock);
    let chosen = crate::batch::chosen(s.milestones, id, meta, caller, mids);
    crate::batch::lemma_selection_accepted(s.milestones, id, mids, MS_SUBMITTED);
    crate::batch::lemma_selection_accepted(s.milestones, id, chosen, MS_SUBMITTED);
    crate::laws::keeping::lemma_selected_positive(s.milestones, id, n, chosen);
    crate::laws::keeping::lemma_approving(c, id, meta, caller, n, mids, open, mids.len());
    assert(mids.take(mids.len() as int) =~= mids);
    lemma_approving_value(c, id, meta, caller, n, mids, open, mids.len());
    crate::laws::approvals::lemma_batch_flow(s, caller, id, mids, token, account);
    lemma_approving_record(c, id, meta, caller, n, mids, open, mids.len());
    let t = s.batch_approve_done(caller, id, mids);
    let sum = crate::batch::selected_total(s.milestones, id, chosen);
    if open && sum > 0 {
        let event = Event::<Seq<u8>>::FundsReleased {
            escrow_id: id,
            to: meta.freelancer,
            amount: sum as i128,
        };
        let at = if crate::milestones::all_released(
            crate::batch::batch_approved_counts(meta, chosen.len(), sum as i128, open),
        ) {
            t.calls.len() - 2
        } else {
            t.calls.len() - 1
        };
        assert(t.calls[at] == HostCall::Publish(event));
    }
}

/// Approving the milestones of a batch puts an approval on the record of each, marks those as
/// approved that need no more, announces these, and changes nothing else.
#[verifier::spinoff_prover]
#[verifier::rlimit(40)]
proof fn lemma_approving_record(
    c: Ledger,
    id: u64,
    meta: EscrowMetaView,
    who: Address,
    n: u32,
    mids: Seq<u32>,
    open: bool,
    k: nat,
)
    requires
        k <= mids.len(),
        mids.no_duplicates(),
        crate::laws::keeping::numbered(c.milestones, id, n),
        forall|i: int|
            0 <= i < mids.len() ==> c.milestones.contains_key((id, #[trigger] mids[i]))
                && c.milestones[(id, mids[i])].status == MS_SUBMITTED,
    ensures
        ({
            let t = c.approving_milestones(id, meta, who, mids, open, k);
            &&& t == (Ledger {
                milestones: t.milestones,
                calls: t.calls,
                touched: t.touched,
                ..c
            })
            &&& t.calls.len() >= c.calls.len()
            &&& forall|i: int| 0 <= i < c.calls.len() ==> #[trigger] t.calls[i] == c.calls[i]
            &&& forall|i: int|
                0 <= i < k ==> (#[trigger] t.milestones[(id, mids[i])]) == approved_by(
                    meta,
                    c.milestones[(id, mids[i])],
                    who,
                    c.now,
                    open,
                )
            &&& forall|i: int|
                0 <= i < k && crate::laws::work::decides(
                    meta,
                    c.milestones[(id, #[trigger] mids[i])],
                    who,
                ) ==> accounts::announced(
                    c,
                    t,
                    Event::MilestoneApproved {
                        escrow_id: id,
                        milestone_id: mids[i],
                        amount: c.milestones[(id, mids[i])].amount,
                    },
                )
            &&& forall|key: (u64, u32)|
                #![trigger t.milestones.contains_key(key)]
                #![trigger t.milestones[key]]
                key.0 != id || !mids.contains(key.1) ==> {
                    &&& t.milestones.contains_key(key) <==> c.milestones.contains_key(key)
                    &&& t.milestones[key] == c.milestones[key]
                }
        }),
    decreases k,
{
    if k > 0 {
        let j = (k - 1) as nat;
        let mid = mids[k - 1];
        lemma_approving_record(c, id, meta, who, n, mids, open, j);
        crate::laws::keeping::lemma_approving(c, id, meta, who, n, mids, open, j);
        let before = c.approving_milestones(id, meta, who, mids, open, j);
        let t = c.approving_milestones(id, meta, who, mids, open, k);
        let m = c.milestones[(id, mid)];
        assert(before.milestones[(id, mids[k - 1])] == c.milestones[(id, mids[k - 1])]);
        assert(c.milestones.contains_key((id, mids[k - 1])));
        assert(mid < n);
        assert(m.id == mid);
        assert(mids.contains(mid));
        assert(crate::laws::work::decides(meta, m, who) == crate::milestones::suffices(
            meta,
            m,
            who,
        ));
        assert forall|i: int| 0 <= i < k implies (#[trigger] t.milestones[(id, mids[i])])
            == approved_by(meta, c.milestones[(id, mids[i])], who, c.now, open) by {
            if i < j {
                assert(mids[i] != mids[k - 1]);
                assert(before.milestones[(id, mids[i])] == approved_by(
                    meta,
                    c.milestones[(id, mids[i])],
                    who,
                    c.now,
                    open,
                ));
            }
        }
        assert forall|i: int|
            0 <= i < k && crate::laws::work::decides(
                meta,
                c.milestones[(id, #[trigger] mids[i])],
                who,
            ) implies accounts::announced(
            c,
            t,
            Event::MilestoneApproved {
                escrow_id: id,
                milestone_id: mids[i],
                amount: c.milestones[(id, mids[i])].amount,
            },
        ) by {
            let event = Event::<Seq<u8>>::MilestoneApproved {
                escrow_id: id,
                milestone_id: mids[i],
                amount: c.milestones[(id, mids[i])].amount,
            };
            if i < j {
                assert(accounts::announced(c, before, event));
                accounts::lemma_announced(c, c, before, t, event);
            } else {
                assert(t.calls[t.calls.len() - 1] == HostCall::Publish(event));
            }
        }
    }
}

/// A submitted milestone after an approval by `who`.
pub open spec fn approved_by(
    meta: EscrowMetaView,
    m: MilestoneView,
    who: Address,
    now: u64,
    open: bool,
) -> MilestoneView {
    let approvals = m.approvals.push(ApprovalRecord { signer: who, approved_at: now });
    if crate::laws::work::decides(meta, m, who) {
        MilestoneView {
            approvals,
            status: if open {
                MS_RELEASED
            } else {
                MS_APPROVED
            },
            resolved_at: Some(now),
            ..m
        }
    } else {
        MilestoneView { approvals, ..m }
    }
}

/// A batch of approvals puts one on the record of each milestone in it. Those that need no more
/// are marked and announced as approved, and paid for where no timelock runs. No other milestone
/// changes.
#[verifier::spinoff_prover]
#[verifier::rlimit(40)]
pub proof fn law_batch_is_approved(
    s: Ledger,
    caller: Address,
    id: u64,
    mids: Seq<u32>,
    i: int,
    key: (u64, u32),
)
    requires
        s.well_kept(),
        s.batch_approve_refusal(caller, id, mids) is None,
        0 <= i < mids.len(),
    ensures
        ({
            let t = s.batch_approve_done(caller, id, mids);
            let meta = s.escrows[id];
            let m = s.milestones[(id, mids[i])];
            let open = crate::laws::work::timelock_is_over(meta.timelock, s.now);
            let header = t.escrows[id];
            &&& m.status == MS_SUBMITTED
            &&& t.milestones[(id, mids[i])] == approved_by(meta, m, caller, s.now, open)
            &&& key.0 != id || !mids.contains(key.1) ==> {
                &&& t.milestones.contains_key(key) <==> s.milestones.contains_key(key)
                &&& t.milestones[key] == s.milestones[key]
            }
            &&& crate::laws::work::decides(meta, m, caller) ==> accounts::announced(
                s,
                t,
                Event::MilestoneApproved {
                    escrow_id: id,
                    milestone_id: mids[i],
                    amount: m.amount,
                },
            )
            &&& header.status == EscrowStatus::Completed || header.status == EscrowStatus::Active
            &&& header.status == EscrowStatus::Completed ==> accounts::announced(
                s,
                t,
                Event::EscrowCompleted { escrow_id: id },
            )
            &&& t.escrows == s.escrows.insert(id, header)
            &&& t.auths == s.auths.push(caller)
            &&& t == (Ledger {
                escrows: t.escrows,
                milestones: t.milestones,
                by_status: t.by_status,
                auths: t.auths,
                calls: t.calls,
                touched: t.touched,
                ..s
            })
        }),
{
    accounts::law_access(s, id, caller, caller);
    crate::laws::keeping::lemma_access_keeps(s, id);
    assert(s.keeps(id));
    let meta = s.accessed_escrow(id);
    let m = s.milestones[(id, mids[i])];
    let open = crate::storage::timelock_open(meta.timelock, s.now);
    let c = s.demanding(caller).accessing(id).announcing_lock(
        id,
        meta.lock_time,
    ).announcing_timelock(id, meta.timelock);
    crate::batch::lemma_selection_accepted(s.milestones, id, mids, MS_SUBMITTED);
    lemma_approving_record(c, id, meta, caller, meta.milestone_count, mids, open, mids.len());
    crate::laws::approvals::lemma_same_signers(s.escrows[id], meta, m, caller);
    assert(crate::laws::work::decides(s.escrows[id], m, caller) == crate::milestones::suffices(
        s.escrows[id],
        m,
        caller,
    ));
    assert(crate::laws::work::decides(meta, m, caller) == crate::milestones::suffices(
        meta,
        m,
        caller,
    ));
    let stored = c.approving_milestones(id, meta, caller, mids, open, mids.len());
    let t = s.batch_approve_done(caller, id, mids);
    assert(stored.milestones[(id, mids[i])] == t.milestones[(id, mids[i])]);
    assert(t.calls[t.calls.len() - 1] == t.calls.last());
    assert(stored.milestones.contains_key(key) == t.milestones.contains_key(key));
    assert(t.escrows =~= s.escrows.insert(id, t.escrows[id]));
    if crate::laws::work::decides(meta, m, caller) {
        let event = Event::<Seq<u8>>::MilestoneApproved {
            escrow_id: id,
            milestone_id: mids[i],
            amount: m.amount,
        };
        assert(accounts::announced(c, stored, event));
        accounts::lemma_announced(s, c, stored, t, event);
    }
}

// ---------------------------------------------------------------------------
// Releasing
// ---------------------------------------------------------------------------

/// Marking the milestones of a batch as released changes their state and nothing else, raises
/// the value of what is released by their amounts, and moves no funds by itself.
proof fn lemma_releasing_value(
    c: Ledger,
    id: u64,
    to: Address,
    n: u32,
    mids: Seq<u32>,
    k: nat,
    token: Address,
    account: Address,
)
    requires
        k <= mids.len(),
        mids.no_duplicates(),
        crate::laws::keeping::numbered(c.milestones, id, n),
        forall|i: int|
            0 <= i < mids.len() ==> c.milestones.contains_key((id, #[trigger] mids[i]))
                && c.milestones[(id, mids[i])].status == MS_APPROVED,
    ensures
        ({
            let t = c.releasing_milestones(id, to, mids, k);
            &&& accounts::received(c, t, token, account) == 0
            &&& value_in(t.milestones, id, n as nat, MS_RELEASED, MS_RELEASED) == value_in(
                c.milestones,
                id,
                n as nat,
                MS_RELEASED,
                MS_RELEASED,
            ) + crate::batch::selected_total(c.milestones, id, mids.take(k as int))
            &&& forall|i: int|
                0 <= i < k ==> #[trigger] t.milestones[(id, mids[i])] == (MilestoneView {
                    status: MS_RELEASED,
                    ..c.milestones[(id, mids[i])]
                })
            &&& forall|key: (u64, u32)|
                #![trigger t.milestones.contains_key(key)]
                #![trigger t.milestones[key]]
                key.0 != id || !mids.contains(key.1) ==> {
                    &&& t.milestones.contains_key(key) <==> c.milestones.contains_key(key)
                    &&& t.milestones[key] == c.milestones[key]
                }
            &&& t.calls.len() >= c.calls.len()
            &&& forall|i: int| 0 <= i < c.calls.len() ==> #[trigger] t.calls[i] == c.calls[i]
            &&& forall|i: int|
                0 <= i < k ==> #[trigger] t.calls[c.calls.len() + i] == HostCall::<
                    Seq<u8>,
                >::Publish(
                    Event::FundsReleased {
                        escrow_id: id,
                        to,
                        amount: c.milestones[(id, mids[i])].amount,
                    },
                )
            &&& t.calls.len() == c.calls.len() + k
        }),
    decreases k,
{
    broadcast use crate::laws::books::lemma_flow_push;

    if k > 0 {
        let j = (k - 1) as nat;
        let mid = mids[k - 1];
        lemma_releasing_value(c, id, to, n, mids, j, token, account);
        crate::laws::keeping::lemma_releasing(c, id, to, n, mids, j);
        let before = c.releasing_milestones(id, to, mids, j);
        let t = c.releasing_milestones(id, to, mids, k);
        assert(before.milestones[(id, mids[k - 1])] == c.milestones[(id, mids[k - 1])]);
        assert(c.milestones.contains_key((id, mids[k - 1])));
        assert(mid < n);
        assert(c.milestones[(id, mid)].id == mid);
        let m = t.milestones[(id, mid)];
        lemma_value_change(
            before.milestones,
            id,
            n as nat,
            mid,
            m,
            MS_RELEASED,
            MS_RELEASED,
        );
        assert(t.milestones == before.milestones.insert((id, mid), m));
        assert(mids.take(k as int).drop_last() =~= mids.take(j as int));
        assert(mids.take(k as int).last() == mid);
        assert(mids.contains(mid));
        assert forall|i: int| 0 <= i < k implies #[trigger] t.milestones[(id, mids[i])] == (
        MilestoneView { status: MS_RELEASED, ..c.milestones[(id, mids[i])] }) by {
            if i < j {
                assert(mids[i] != mids[k - 1]);
                assert(before.milestones[(id, mids[i])].status == MS_RELEASED);
            }
        }
    } else {
        assert(mids.take(0) =~= Seq::<u32>::empty());
    }
}

/// A batch of releases pays the freelancer what the approved milestones in it come to, marks
/// each of them as released, and leaves every other milestone alone.
#[verifier::spinoff_prover]
#[verifier::rlimit(40)]
pub proof fn law_batch_is_released(
    s: Ledger,
    caller: Address,
    id: u64,
    mids: Seq<u32>,
    i: int,
    key: (u64, u32),
    token: Address,
    account: Address,
)
    requires
        s.well_kept(),
        s.batch_release_refusal(caller, id, mids) is None,
        0 <= i < mids.len(),
    ensures
        ({
            let t = s.batch_release_done(caller, id, mids);
            let before = s.accessed_escrow(id);
            let n = before.milestone_count as nat;
            let sum = crate::batch::selected_total(s.milestones, id, mids);
            let header = t.escrows[id];
            &&& sum == value_in(t.milestones, id, n, MS_RELEASED, MS_RELEASED) - value_in(
                s.milestones,
                id,
                n,
                MS_RELEASED,
                MS_RELEASED,
            )
            &&& accounts::received(s, t, token, account) == (if token == before.token {
                accounts::paid(s.contract, before.freelancer, sum, account) + accounts::rent_paid(
                    s,
                    id,
                    account,
                )
            } else {
                0
            })
            &&& Some(caller) == s.admin
            &&& s.milestones[(id, mids[i])].status == MS_APPROVED
            &&& t.milestones[(id, mids[i])] == (MilestoneView {
                status: MS_RELEASED,
                ..s.milestones[(id, mids[i])]
            })
            &&& accounts::announced(
                s,
                t,
                Event::FundsReleased {
                    escrow_id: id,
                    to: before.freelancer,
                    amount: s.milestones[(id, mids[i])].amount,
                },
            )
            &&& key.0 != id || !mids.contains(key.1) ==> {
                &&& t.milestones.contains_key(key) <==> s.milestones.contains_key(key)
                &&& t.milestones[key] == s.milestones[key]
            }
            &&& header == (EscrowMetaView {
                status: header.status,
                released_count: (before.released_count + mids.len()) as u32,
                remaining_balance: (before.remaining_balance - sum) as i128,
                ..before
            })
            &&& header.status == EscrowStatus::Completed || header.status == before.status
            &&& header.status == EscrowStatus::Completed && before.status
                != EscrowStatus::Completed ==> accounts::announced(
                s,
                t,
                Event::EscrowCompleted { escrow_id: id },
            )
            &&& t.escrows == s.escrows.insert(id, header)
            &&& t.auths == s.auths.push(caller)
            &&& t == (Ledger {
                escrows: t.escrows,
                milestones: t.milestones,
                by_status: t.by_status,
                auths: t.auths,
                calls: t.calls,
                touched: t.touched,
                instance_touched: t.instance_touched,
                ..s
            })
        }),
{
    broadcast use crate::laws::books::lemma_flow_push;

    accounts::law_access(s, id, token, account);
    crate::laws::keeping::lemma_access_keeps(s, id);
    assert(s.keeps(id));
    let meta = s.accessed_escrow(id);
    let n = meta.milestone_count;
    let c = s.touching_instance().demanding(caller).accessing(id).announcing_lock(
        id,
        meta.lock_time,
    );
    crate::batch::lemma_selection_accepted(s.milestones, id, mids, MS_APPROVED);
    crate::laws::keeping::lemma_releasing(c, id, meta.freelancer, n, mids, mids.len());
    assert(mids.take(mids.len() as int) =~= mids);
    lemma_releasing_value(c, id, meta.freelancer, n, mids, mids.len(), token, account);
    let t = s.batch_release_done(caller, id, mids);
    assert(t.escrows =~= s.escrows.insert(id, t.escrows[id]));
    let marked = c.releasing_milestones(id, meta.freelancer, mids, mids.len());
    assert(marked.milestones[(id, mids[i])] == t.milestones[(id, mids[i])]);
    assert(s.milestones.contains_key((id, mids[i])));
    assert(marked.calls[c.calls.len() + i] == t.calls[c.calls.len() + i]);
    assert(c.calls.len() >= s.calls.len());
    assert(marked.milestones == t.milestones);
    assert(marked.milestones.contains_key(key) == t.milestones.contains_key(key));
    if t.escrows[id].status == EscrowStatus::Completed && meta.status != EscrowStatus::Completed {
        assert(t.calls[t.calls.len() - 1] == HostCall::<Seq<u8>>::Publish(
            Event::EscrowCompleted { escrow_id: id },
        ));
    }
}

} // verus!
