//! Approvals: whose count, how many it takes, and that a batch does what its parts do.
use vstd::prelude::*;

use crate::ledger::Ledger;
use crate::types::{Address, EscrowMetaView, MilestoneView, MS_SUBMITTED};

verus! {

// ---------------------------------------------------------------------------
// How many it takes
// ---------------------------------------------------------------------------

/// A client who signs alone, with no policy in force, approves a milestone alone.
pub proof fn law_sole_client_approves(meta: EscrowMetaView, m: MilestoneView)
    requires
        !crate::milestones::has_policy(meta),
        crate::milestones::signs_alone(meta),
    ensures
        crate::milestones::may_approve(meta, meta.client),
        crate::milestones::suffices(meta, m, meta.client),
{
}

/// With several buyer signers and no policy, it takes two of them: the first approval goes on
/// record with its signer and time, and neither status nor funds nor counters move.
pub proof fn law_first_approval_goes_on_record(s: Ledger, caller: Address, id: u64, mid: u32)
    requires
        s.well_kept(),
        s.approve_milestone_refusal(caller, id, mid) is None,
        !crate::milestones::has_policy(s.escrows[id]),
        !crate::milestones::signs_alone(s.escrows[id]),
        s.milestones[(id, mid)].approvals.len() == 0,
    ensures
        ({
            let t = s.approve_milestone_done(caller, id, mid);
            &&& t.milestones[(id, mid)] == crate::milestones::recorded(
                s.milestones[(id, mid)],
                caller,
                s.now,
            )
            &&& t.milestones[(id, mid)].status == MS_SUBMITTED
            &&& t.escrows[id] == s.accessed_escrow(id)
            &&& t.approve_milestone_refusal(caller, id, mid) is Some
        }),
{
    crate::laws::keeping::lemma_access_keeps(s, id);
    assert(s.keeps(id));
    assert(s.milestones.contains_key((id, mid)));
    let meta = s.accessed_escrow(id);
    let m = s.milestones[(id, mid)];
    lemma_same_signers(s.escrows[id], meta, m, caller);
    let t = s.approve_milestone_done(caller, id, mid);
    let after = crate::milestones::recorded(m, caller, s.now);
    assert(after.approvals[m.approvals.len() as int].signer == caller);
    assert(crate::milestones::has_approved(t.milestones[(id, mid)], caller));
}

/// The second of two signers approves the milestone: with one approval on record, one by somebody
/// else is enough, and one by the same signer is not taken.
pub proof fn law_second_approval_is_enough(
    meta: EscrowMetaView,
    m: MilestoneView,
    first: Address,
    second: Address,
    now: u64,
)
    requires
        !crate::milestones::has_policy(meta),
        m.approvals.len() == 0,
    ensures
        crate::milestones::suffices(
            meta,
            crate::milestones::recorded(m, first, now),
            second,
        ),
        crate::milestones::has_approved(
            crate::milestones::recorded(m, first, now),
            second,
        ) <==> first == second,
{
    let after = crate::milestones::recorded(m, first, now);
    assert(after.approvals[0].signer == first);
}

/// Where a policy is in force, only its approvers approve, and a milestone is approved with the
/// approval that makes the weights reach the threshold.
pub proof fn law_policy_governs_approval(s: Ledger, caller: Address, id: u64, mid: u32)
    requires
        s.well_kept(),
        s.approve_milestone_refusal(caller, id, mid) is None,
        crate::milestones::has_policy(s.escrows[id]),
    ensures
        ({
            let policy = s.escrows[id].multisig;
            let m = s.milestones[(id, mid)];
            let t = s.approve_milestone_done(caller, id, mid);
            &&& policy.approvers.contains(caller)
            &&& t.milestones[(id, mid)].status != MS_SUBMITTED <==>
                crate::milestones::weight_of_all(policy, m.approvals)
                + crate::milestones::weight_of(policy, caller) >= policy.threshold
            &&& crate::milestones::weight_of_all(policy, t.milestones[(id, mid)].approvals)
                == crate::milestones::weight_of_all(policy, m.approvals)
                + crate::milestones::weight_of(policy, caller)
        }),
{
    crate::laws::keeping::lemma_access_keeps(s, id);
    assert(s.keeps(id));
    assert(s.milestones.contains_key((id, mid)));
    let m = s.milestones[(id, mid)];
    lemma_same_signers(s.escrows[id], s.accessed_escrow(id), m, caller);
    let after = crate::milestones::recorded(m, caller, s.now);
    assert(after.approvals.drop_last() =~= m.approvals);
}

/// Who may approve, and whether that is enough, depends on the signers and the policy alone.
pub proof fn lemma_same_signers(
    a: EscrowMetaView,
    b: EscrowMetaView,
    m: MilestoneView,
    who: Address,
)
    requires
        a.client == b.client,
        a.buyer_signers == b.buyer_signers,
        a.multisig == b.multisig,
    ensures
        crate::milestones::signs_alone(a) == crate::milestones::signs_alone(b),
        crate::milestones::suffices(a, m, who) == crate::milestones::suffices(b, m, who),
        crate::milestones::may_approve(a, who) == crate::milestones::may_approve(b, who),
{
    assert(crate::milestones::signs_alone(a) == crate::milestones::signs_alone(b)) by {
        if crate::milestones::signs_alone(a) {
            assert forall|i: int| 0 <= i < b.buyer_signers.len() implies #[trigger]
                b.buyer_signers[i] == b.client by {
                assert(a.buyer_signers[i] == a.client);
            }
        }
        if crate::milestones::signs_alone(b) {
            assert forall|i: int| 0 <= i < a.buyer_signers.len() implies #[trigger]
                a.buyer_signers[i] == a.client by {
                assert(b.buyer_signers[i] == b.client);
            }
        }
    }
}

// ---------------------------------------------------------------------------
// A batch and its parts
// ---------------------------------------------------------------------------

/// The ledger after `caller` approved the milestones `mids` of escrow `id` one by one.
pub open spec fn one_by_one(s: Ledger, caller: Address, id: u64, mids: Seq<u32>) -> Ledger
    decreases mids.len(),
{
    if mids.len() == 0 {
        s
    } else {
        one_by_one(s, caller, id, mids.drop_last()).approve_milestone_done(caller, id, mids.last())
    }
}

/// Whether `caller` can approve the milestones `mids` of escrow `id` one by one.
pub open spec fn accepted_one_by_one(s: Ledger, caller: Address, id: u64, mids: Seq<u32>) -> bool
    decreases mids.len(),
{
    mids.len() > 0 ==> {
        let before = one_by_one(s, caller, id, mids.drop_last());
        &&& accepted_one_by_one(s, caller, id, mids.drop_last())
        &&& before.approve_milestone_refusal(caller, id, mids.last()) is None
    }
}

/// The two ledgers agree on everything that an approval looks at or changes, but for the record
/// of what the host was asked for.
spec fn agree(a: Ledger, b: Ledger) -> bool {
    &&& a.now == b.now
    &&& a.contract == b.contract
    &&& a.admin == b.admin
    &&& a.paused == b.paused
    &&& a.escrows == b.escrows
    &&& a.milestones == b.milestones
    &&& a.recurring == b.recurring
    &&& a.cancellations == b.cancellations
    &&& a.slashes == b.slashes
    &&& a.by_status == b.by_status
}

/// No more milestones are chosen than are selected.
proof fn lemma_chosen_len(s: Ledger, id: u64, meta: EscrowMetaView, who: Address, mids: Seq<u32>)
    ensures
        crate::batch::chosen(s.milestones, id, meta, who, mids).len() <= mids.len(),
    decreases mids.len(),
{
    if mids.len() > 0 {
        lemma_chosen_len(s, id, meta, who, mids.drop_last());
    }
}

/// What was chosen was selected.
proof fn lemma_chosen_within(
    s: Ledger,
    id: u64,
    meta: EscrowMetaView,
    who: Address,
    mids: Seq<u32>,
)
    requires
        forall|i: int|
            0 <= i < mids.len() ==> s.milestones.contains_key((id, #[trigger] mids[i])),
    ensures
        ({
            let chosen = crate::batch::chosen(s.milestones, id, meta, who, mids);
            forall|i: int|
                0 <= i < chosen.len() ==> s.milestones.contains_key((id, #[trigger] chosen[i]))
        }),
    decreases mids.len(),
{
    if mids.len() > 0 {
        let short = mids.drop_last();
        assert forall|i: int| 0 <= i < short.len() implies s.milestones.contains_key(
            (id, #[trigger] short[i]),
        ) by {
            assert(short[i] == mids[i]);
        }
        lemma_chosen_within(s, id, meta, who, short);
        assert(s.milestones.contains_key((id, mids[mids.len() - 1])));
    }
}

/// The first approvals of a batch do not depend on the rest of it.
proof fn lemma_first_approvals(
    c: Ledger,
    id: u64,
    meta: EscrowMetaView,
    who: Address,
    mids: Seq<u32>,
    last: u32,
    open: bool,
    k: nat,
)
    requires
        k <= mids.len(),
    ensures
        c.approving_milestones(id, meta, who, mids.push(last), open, k) == c.approving_milestones(
            id,
            meta,
            who,
            mids,
            open,
            k,
        ),
    decreases k,
{
    if k > 0 {
        lemma_first_approvals(c, id, meta, who, mids, last, open, (k - 1) as nat);
        assert(mids.push(last)[k - 1] == mids[k - 1]);
    }
}

/// What an approval moves besides the rent: the amount of the milestone, where it is released.
pub open spec fn paid_out(
    meta: EscrowMetaView,
    contract: Address,
    amount: int,
    token: Address,
    account: Address,
) -> int {
    if token != meta.token {
        0
    } else {
        (if account == meta.freelancer {
            amount
        } else {
            0
        }) - (if account == contract {
            amount
        } else {
            0
        })
    }
}

/// What an approval moves, all in all.
proof fn lemma_approval_flow(
    s: Ledger,
    caller: Address,
    id: u64,
    mid: u32,
    token: Address,
    account: Address,
)
    ensures
        ({
            let meta = s.accessed_escrow(id);
            let m = s.milestones[(id, mid)];
            let amount = if crate::milestones::suffices(meta, m, caller)
                && crate::storage::timelock_open(meta.timelock, s.now) {
                m.amount as int
            } else {
                0
            };
            crate::laws::books::flow(
                s.approve_milestone_done(caller, id, mid).calls,
                token,
                account,
            ) == crate::laws::books::flow(s.accessing(id).calls, token, account) + paid_out(
                meta,
                s.contract,
                amount,
                token,
                account,
            )
        }),
{
    broadcast use crate::laws::books::lemma_flow_push;

}

/// What a batch of approvals moves, all in all.
pub proof fn lemma_batch_flow(
    s: Ledger,
    caller: Address,
    id: u64,
    mids: Seq<u32>,
    token: Address,
    account: Address,
)
    ensures
        ({
            let meta = s.accessed_escrow(id);
            let chosen = crate::batch::chosen(s.milestones, id, meta, caller, mids);
            let total = crate::batch::selected_total(s.milestones, id, chosen) as i128;
            let amount = if total > 0 && crate::storage::timelock_open(meta.timelock, s.now) {
                total as int
            } else {
                0
            };
            crate::laws::books::flow(
                s.batch_approve_done(caller, id, mids).calls,
                token,
                account,
            ) == crate::laws::books::flow(s.accessing(id).calls, token, account) + paid_out(
                meta,
                s.contract,
                amount,
                token,
                account,
            )
        }),
{
    broadcast use crate::laws::books::lemma_flow_push;

    let meta = s.accessed_escrow(id);
    let open = crate::storage::timelock_open(meta.timelock, s.now);
    let c = s.demanding(caller).accessing(id).announcing_lock(
        id,
        meta.lock_time,
    ).announcing_timelock(id, meta.timelock);
    crate::laws::books::lemma_approving_flow(
        c,
        id,
        meta,
        caller,
        mids,
        open,
        mids.len(),
        token,
        account,
    );
}

/// Right after an approval, alone or in a batch, no rent is due.
proof fn lemma_settled(s: Ledger, t: Ledger, id: u64)
    requires
        s.well_kept(),
        s.access_refusal(id) is None,
        t.escrows.contains_key(id),
        t.now == s.now,
        t.recurring == s.recurring,
        t.cancellations == s.cancellations,
        t.slashes == s.slashes,
        t.escrows[id].escrow_id == id,
        t.escrows[id].milestone_count == s.escrows[id].milestone_count,
        t.escrows[id].rent_balance == s.accessed_escrow(id).rent_balance,
        t.escrows[id].last_rent_collection_at == s.accessed_escrow(id).last_rent_collection_at,
    ensures
        t.rent_periods(t.escrows[id]) == 0,
        t.access_refusal(id) is None,
        t.accessed_escrow(id) == t.escrows[id],
        t.accessing(id).calls == t.calls,
{
    crate::laws::keeping::lemma_access_keeps(s, id);
    assert(s.keeps(id));
    crate::laws::upkeep::law_rent_is_settled_once(s, s.escrows[id]);
}

/// An approval does the same on ledgers that agree.
proof fn lemma_same_approval(
    a: Ledger,
    b: Ledger,
    caller: Address,
    id: u64,
    mid: u32,
    token: Address,
    account: Address,
)
    requires
        agree(a, b),
        a.rent_periods(a.escrows[id]) == 0,
        a.approve_milestone_refusal(caller, id, mid) is None,
        crate::laws::books::flow(a.calls, token, account) == crate::laws::books::flow(
            b.calls,
            token,
            account,
        ),
    ensures
        b.approve_milestone_refusal(caller, id, mid) is None,
        agree(
            a.approve_milestone_done(caller, id, mid),
            b.approve_milestone_done(caller, id, mid),
        ),
        crate::laws::books::flow(
            a.approve_milestone_done(caller, id, mid).calls,
            token,
            account,
        ) == crate::laws::books::flow(
            b.approve_milestone_done(caller, id, mid).calls,
            token,
            account,
        ),
{
    assert(a.accessed_escrow(id) == b.accessed_escrow(id));
    assert(a.accessing(id).calls == a.calls);
    assert(b.accessing(id).calls == b.calls);
    lemma_approval_flow(a, caller, id, mid, token, account);
    lemma_approval_flow(b, caller, id, mid, token, account);
}

/// A batch of one approval is that approval.
proof fn lemma_batch_of_one(
    s: Ledger,
    caller: Address,
    id: u64,
    mid: u32,
    token: Address,
    account: Address,
)
    requires
        s.well_kept(),
        s.batch_approve_refusal(caller, id, seq![mid]) is None,
    ensures
        s.approve_milestone_refusal(caller, id, mid) is None,
        agree(
            s.batch_approve_done(caller, id, seq![mid]),
            s.approve_milestone_done(caller, id, mid),
        ),
        crate::laws::books::flow(
            s.batch_approve_done(caller, id, seq![mid]).calls,
            token,
            account,
        ) == crate::laws::books::flow(
            s.approve_milestone_done(caller, id, mid).calls,
            token,
            account,
        ),
{
    let mids = seq![mid];
    crate::laws::keeping::lemma_access_keeps(s, id);
    assert(s.keeps(id));
    let meta = s.accessed_escrow(id);
    let open = crate::storage::timelock_open(meta.timelock, s.now);
    let n = meta.milestone_count;
    crate::batch::lemma_selection_accepted(s.milestones, id, mids, MS_SUBMITTED);
    assert(mids[0] == mid);
    assert(s.milestones.contains_key((id, mids[0])));
    assert(!crate::milestones::has_approved(s.milestones[(id, mids[0])], caller));
    assert(mids.drop_last() =~= Seq::<u32>::empty());
    assert(mids.last() == mid);
    let chosen = crate::batch::chosen(s.milestones, id, meta, caller, mids);
    reveal_with_fuel(crate::batch::chosen, 2);
    reveal_with_fuel(crate::batch::selected_total, 2);
    assert(Seq::<u32>::empty().push(mid).drop_last() =~= Seq::<u32>::empty());
    assert(mid < n);
    crate::laws::keeping::lemma_no_more_than_counted(s.milestones, id, n, mids, MS_SUBMITTED);
    crate::laws::guards::lemma_counts_add_up(s.milestones, id, n as nat);
    assert(s.approve_milestone_refusal(caller, id, mid) is None);
    let c = s.demanding(caller).accessing(id).announcing_lock(
        id,
        meta.lock_time,
    ).announcing_timelock(id, meta.timelock);
    assert(c.approving_milestones(id, meta, caller, mids, open, 0) == c);
    assert(c.approving_milestones(id, meta, caller, mids, open, 1).milestones
        == c.milestones.insert(
        (id, mid),
        crate::laws::keeping::after_approval(meta, s.milestones[(id, mid)], caller, s.now, open),
    ));
    let batch = s.batch_approve_done(caller, id, mids);
    let single = s.approve_milestone_done(caller, id, mid);
    assert(batch.escrows =~= single.escrows);
    assert(batch.milestones =~= single.milestones);
    lemma_approval_flow(s, caller, id, mid, token, account);
    lemma_batch_flow(s, caller, id, mids, token, account);
}

/// Where a batch that is one longer is accepted, the batch is, too; and it leaves the milestone
/// that comes last as it was, and room for it.
proof fn lemma_shorter_batch(s: Ledger, caller: Address, id: u64, mids: Seq<u32>, last: u32)
    requires
        s.well_kept(),
        mids.len() > 0,
        s.batch_approve_refusal(caller, id, mids.push(last)) is None,
    ensures
        s.batch_approve_refusal(caller, id, mids) is None,
        ({
            let t = s.batch_approve_done(caller, id, mids);
            let meta = s.accessed_escrow(id);
            let chosen = crate::batch::chosen(s.milestones, id, meta, caller, mids);
            let total = crate::batch::selected_total(s.milestones, id, chosen);
            let open = crate::storage::timelock_open(meta.timelock, s.now);
            let m = s.milestones[(id, last)];
            let enough = crate::milestones::suffices(meta, m, caller);
            &&& t.milestones.contains_key((id, last))
            &&& t.milestones[(id, last)] == m
            &&& m.id == last
            &&& m.amount > 0
            &&& m.status == MS_SUBMITTED
            &&& !crate::milestones::has_approved(m, caller)
            &&& total >= 0
            &&& chosen.len() < meta.milestone_count - meta.released_count
            &&& enough ==> meta.approved_count + chosen.len() + 1 <= meta.milestone_count
            &&& enough && open ==> total + m.amount <= meta.remaining_balance
            &&& chosen.len() == 0 <==> total == 0
            &&& !enough && open ==> total <= meta.remaining_balance
        }),
{
    let longer = mids.push(last);
    assert(longer.drop_last() =~= mids);
    assert(longer.last() == last);
    crate::laws::keeping::lemma_access_keeps(s, id);
    assert(s.keeps(id));
    let meta = s.accessed_escrow(id);
    let n = meta.milestone_count;
    let open = crate::storage::timelock_open(meta.timelock, s.now);
    crate::batch::lemma_selection_accepted(s.milestones, id, longer, MS_SUBMITTED);
    assert forall|i: int, j: int| 0 <= i < j < mids.len() implies mids[i] != mids[j] by {
        assert(longer[i] == mids[i] && longer[j] == mids[j]);
    }
    assert forall|i: int| 0 <= i < mids.len() implies s.milestones.contains_key(
        (id, #[trigger] mids[i]),
    ) && s.milestones[(id, mids[i])].status == MS_SUBMITTED
        && !crate::milestones::has_approved(s.milestones[(id, mids[i])], caller)
        && mids[i] != last by {
        assert(longer[i] == mids[i]);
        assert(longer[mids.len() as int] == last);
    }
    assert(s.milestones.contains_key((id, longer[mids.len() as int])));
    assert(!crate::milestones::has_approved(
        s.milestones[(id, longer[mids.len() as int])],
        caller,
    ));
    assert(last < n);
    let chosen = crate::batch::chosen(s.milestones, id, meta, caller, mids);
    let chosen_longer = crate::batch::chosen(s.milestones, id, meta, caller, longer);
    if crate::milestones::suffices(meta, s.milestones[(id, last)], caller) {
        assert(chosen_longer == chosen.push(last));
        assert(chosen_longer.drop_last() =~= chosen);
        assert forall|i: int, j: int| 0 <= i < j < chosen.len() implies chosen[i]
            != chosen[j] by {
            assert(chosen_longer[i] == chosen[i] && chosen_longer[j] == chosen[j]);
        }
    }
    lemma_chosen_len(s, id, meta, caller, mids);
    lemma_chosen_within(s, id, meta, caller, mids);
    crate::laws::keeping::lemma_selected_positive(s.milestones, id, n, chosen);
    crate::laws::keeping::lemma_no_more_than_counted(s.milestones, id, n, longer, MS_SUBMITTED);
    crate::laws::guards::lemma_counts_add_up(s.milestones, id, n as nat);
    assert(s.batch_approve_refusal(caller, id, mids) is None);
    let c = s.demanding(caller).accessing(id).announcing_lock(
        id,
        meta.lock_time,
    ).announcing_timelock(id, meta.timelock);
    lemma_first_approvals(c, id, meta, caller, mids, last, open, mids.len());
    crate::laws::keeping::lemma_approving(c, id, meta, caller, n, longer, open, mids.len());
    assert(longer[mids.len() as int] == last);
}

/// A batch that is one longer ends where one more approval ends.
#[verifier::spinoff_prover]
#[verifier::rlimit(60)]
proof fn lemma_longer_batch(
    s: Ledger,
    caller: Address,
    id: u64,
    mids: Seq<u32>,
    last: u32,
    token: Address,
    account: Address,
)
    requires
        s.well_kept(),
        mids.len() > 0,
        s.batch_approve_refusal(caller, id, mids.push(last)) is None,
    ensures
        ({
            let t = s.batch_approve_done(caller, id, mids);
            let longer = s.batch_approve_done(caller, id, mids.push(last));
            let more = t.approve_milestone_done(caller, id, last);
            &&& s.batch_approve_refusal(caller, id, mids) is None
            &&& t.rent_periods(t.escrows[id]) == 0
            &&& t.approve_milestone_refusal(caller, id, last) is None
            &&& agree(longer, more)
            &&& crate::laws::books::flow(longer.calls, token, account)
                == crate::laws::books::flow(more.calls, token, account)
        }),
{
    let batch = mids.push(last);
    assert(batch.drop_last() =~= mids);
    assert(batch.last() == last);
    lemma_shorter_batch(s, caller, id, mids, last);
    crate::laws::keeping::lemma_access_keeps(s, id);
    assert(s.keeps(id));
    let meta = s.accessed_escrow(id);
    let open = crate::storage::timelock_open(meta.timelock, s.now);
    let t = s.batch_approve_done(caller, id, mids);
    let longer = s.batch_approve_done(caller, id, batch);
    let more = t.approve_milestone_done(caller, id, last);
    let m = s.milestones[(id, last)];
    let c = s.demanding(caller).accessing(id).announcing_lock(
        id,
        meta.lock_time,
    ).announcing_timelock(id, meta.timelock);
    lemma_first_approvals(c, id, meta, caller, mids, last, open, mids.len());
    let n = meta.milestone_count;
    crate::batch::lemma_selection_accepted(s.milestones, id, mids, MS_SUBMITTED);
    crate::laws::keeping::lemma_approving(c, id, meta, caller, n, mids, open, mids.len());
    crate::laws::keeping::law_batch_approve_keeps(s, caller, id, mids);
    lemma_settled(s, t, id);
    lemma_same_signers(meta, t.escrows[id], m, caller);
    assert(t.approve_milestone_refusal(caller, id, last) is None);
    lemma_batch_flow(s, caller, id, mids, token, account);
    lemma_batch_flow(s, caller, id, batch, token, account);
    lemma_approval_flow(t, caller, id, last, token, account);
    let chosen = crate::batch::chosen(s.milestones, id, meta, caller, mids);
    assert(chosen.push(last).drop_last() =~= chosen);
    assert(longer.escrows[id] == more.escrows[id]);
    assert(longer.escrows =~= more.escrows);
    assert(longer.milestones =~= more.milestones);
}

/// The approvals of a batch end where they end one by one.
proof fn lemma_one_by_one(
    s: Ledger,
    caller: Address,
    id: u64,
    mids: Seq<u32>,
    token: Address,
    account: Address,
)
    requires
        s.well_kept(),
        s.batch_approve_refusal(caller, id, mids) is None,
    ensures
        accepted_one_by_one(s, caller, id, mids),
        agree(s.batch_approve_done(caller, id, mids), one_by_one(s, caller, id, mids)),
        crate::laws::books::flow(s.batch_approve_done(caller, id, mids).calls, token, account)
            == crate::laws::books::flow(one_by_one(s, caller, id, mids).calls, token, account),
    decreases mids.len(),
{
    let short = mids.drop_last();
    let last = mids.last();
    assert(mids =~= short.push(last));
    if short.len() == 0 {
        assert(short =~= Seq::<u32>::empty());
        assert(mids =~= seq![last]);
        assert(one_by_one(s, caller, id, short) == s);
        assert(accepted_one_by_one(s, caller, id, short));
        lemma_batch_of_one(s, caller, id, last, token, account);
    } else {
        lemma_longer_batch(s, caller, id, short, last, token, account);
        lemma_one_by_one(s, caller, id, short, token, account);
        lemma_same_approval(
            s.batch_approve_done(caller, id, short),
            one_by_one(s, caller, id, short),
            caller,
            id,
            last,
            token,
            account,
        );
    }
}

/// A batch of approvals ends where they end one by one: none of them is refused, and the
/// milestones, the headers with their counters, balance and status, the lists by status and the
/// sums moved are the same.
pub proof fn law_batch_is_one_by_one(
    s: Ledger,
    caller: Address,
    id: u64,
    mids: Seq<u32>,
    token: Address,
    account: Address,
)
    requires
        s.well_kept(),
        s.batch_approve_refusal(caller, id, mids) is None,
    ensures
        accepted_one_by_one(s, caller, id, mids),
        ({
            let batch = s.batch_approve_done(caller, id, mids);
            let single = one_by_one(s, caller, id, mids);
            &&& batch.milestones == single.milestones
            &&& batch.escrows == single.escrows
            &&& batch.by_status == single.by_status
            &&& crate::laws::books::flow(batch.calls, token, account) == crate::laws::books::flow(
                single.calls,
                token,
                account,
            )
        }),
{
    lemma_one_by_one(s, caller, id, mids, token, account);
}

} // verus!
