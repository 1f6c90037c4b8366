//! The ledger is well kept: escrows and their parts belong together, milestones are numbered
//! without gaps, the counters in a header count what they say they count, and nothing remains in
//! an escrow that is complete or cancelled. Every request keeps it so.
use vstd::prelude::*;

use crate::ledger::Ledger;
use crate::types::{
    Address, EscrowMetaView, EscrowStatus, MilestoneStatus, MilestoneView, MS_APPROVED, MS_RELEASED,
    MS_SUBMITTED,
};

verus! {

// ---------------------------------------------------------------------------
// The invariant
// ---------------------------------------------------------------------------

/// How many of the first `n` milestones of escrow `id` are in the state `status`.
pub open spec fn counted(
    milestones: Map<(u64, u32), MilestoneView>,
    id: u64,
    n: nat,
    status: MilestoneStatus,
) -> nat
    decreases n,
{
    if n == 0 {
        0
    } else {
        counted(milestones, id, (n - 1) as nat, status) + (if milestones[(id, (n - 1) as u32)].status
            == status {
            1nat
        } else {
            0nat
        })
    }
}

/// The sum of the amounts of the first `n` milestones of escrow `id`.
pub open spec fn allocated(milestones: Map<(u64, u32), MilestoneView>, id: u64, n: nat) -> int
    decreases n,
{
    if n == 0 {
        0
    } else {
        allocated(milestones, id, (n - 1) as nat) + milestones[(id, (n - 1) as u32)].amount
    }
}

/// The milestones of escrow `id` are numbered from zero without gaps. Each is in one of the six
/// states, and something is allocated to it.
pub open spec fn numbered(
    milestones: Map<(u64, u32), MilestoneView>,
    id: u64,
    count: u32,
) -> bool {
    &&& forall|mid: u32| #[trigger] milestones.contains_key((id, mid)) <==> mid < count
    &&& forall|mid: u32|
        mid < count ==> {
            &&& (#[trigger] milestones[(id, mid)]).id == mid
            &&& crate::types::is_milestone_status(milestones[(id, mid)].status)
            &&& milestones[(id, mid)].amount > 0
        }
}

/// The counters in the header `meta` count the milestones of escrow `id`: those submitted, those
/// approved (released ones among them), those released, and the amounts of them all.
pub open spec fn tallied(
    milestones: Map<(u64, u32), MilestoneView>,
    id: u64,
    meta: EscrowMetaView,
) -> bool {
    let n = meta.milestone_count as nat;
    &&& meta.submitted_count == counted(milestones, id, n, MS_SUBMITTED)
    &&& meta.released_count == counted(milestones, id, n, MS_RELEASED)
    &&& meta.approved_count == counted(milestones, id, n, MS_APPROVED) + meta.released_count
    &&& meta.allocated_amount == allocated(milestones, id, n)
}

impl Ledger {
    /// Escrow `id` is well kept. A complete or cancelled escrow holds nothing any more, and a
    /// slash is held only for a cancelled one whose request is settled.
    pub open spec fn keeps(self, id: u64) -> bool {
        let meta = self.escrows[id];
        &&& self.admin is Some
        &&& meta.escrow_id == id
        &&& id < self.next_escrow_id()
        &&& numbered(self.milestones, id, meta.milestone_count)
        &&& tallied(self.milestones, id, meta)
        &&& meta.rent_balance >= 0
        &&& meta.remaining_balance >= 0
        &&& meta.status == EscrowStatus::Completed ==> meta.remaining_balance == 0
        &&& meta.status == EscrowStatus::Cancelled ==> meta.remaining_balance == 0
        &&& self.slashes.contains_key(id) ==> meta.status == EscrowStatus::Cancelled
            && !self.cancellations.contains_key(id)
        &&& self.recurring.contains_key(id) ==> self.recurring[id].payment_amount > 0
    }

    /// Each reputation is kept under the address it is about.
    pub open spec fn records_kept(self) -> bool {
        forall|a: Address| #[trigger]
            self.reputations.contains_key(a) ==> self.reputations[a].address == a
    }

    /// The ledger is well kept: each escrow is, nothing is kept for an escrow that is not there,
    /// and reputations are kept under their owners.
    pub open spec fn well_kept(self) -> bool {
        &&& self.records_kept()
        &&& forall|id: u64| #[trigger] self.escrows.contains_key(id) ==> self.keeps(id)
        &&& forall|id: u64, mid: u32| #[trigger]
            self.milestones.contains_key((id, mid)) ==> self.escrows.contains_key(id)
        &&& forall|id: u64| #[trigger]
            self.recurring.contains_key(id) ==> self.escrows.contains_key(id)
        &&& forall|id: u64| #[trigger]
            self.cancellations.contains_key(id) ==> self.escrows.contains_key(id)
                && self.cancellations[id].escrow_id == id
        &&& forall|id: u64| #[trigger]
            self.slashes.contains_key(id) ==> self.escrows.contains_key(id)
                && self.slashes[id].escrow_id == id
    }

    /// The two ledgers agree on the contract's settings.
    pub open spec fn same_settings(self, other: Ledger) -> bool {
        &&& other.now == self.now
        &&& other.contract == self.contract
        &&& other.admin == self.admin
        &&& other.paused == self.paused
        &&& other.oracle == self.oracle
        &&& other.fallback_oracle == self.fallback_oracle
        &&& other.wormhole_bridge == self.wormhole_bridge
        &&& other.trusted_oracle_key == self.trusted_oracle_key
        &&& other.wrapped_tokens == self.wrapped_tokens
        &&& other.bridge_confirmations == self.bridge_confirmations
    }

    /// The two ledgers agree on the contract's settings, and on everything that is kept for the
    /// escrows other than `id`.
    pub open spec fn same_elsewhere(self, other: Ledger, id: u64) -> bool {
        &&& self.same_settings(other)
        &&& forall|x: u64| #![trigger other.escrows.contains_key(x)]
            #![trigger other.escrows[x]]
            x != id ==> (other.escrows.contains_key(x) <==> self.escrows.contains_key(x))
                && (self.escrows.contains_key(x) ==> other.escrows[x] == self.escrows[x])
        &&& forall|x: u64, mid: u32| #![trigger other.milestones.contains_key((x, mid))]
            #![trigger other.milestones[(x, mid)]]
            x != id ==> (other.milestones.contains_key((x, mid)) <==> self.milestones.contains_key(
                (x, mid),
            )) && (self.milestones.contains_key((x, mid)) ==> other.milestones[(x, mid)]
                == self.milestones[(x, mid)])
        &&& forall|x: u64| #![trigger other.recurring.contains_key(x)]
            #![trigger other.recurring[x]]
            x != id ==> (other.recurring.contains_key(x) <==> self.recurring.contains_key(x))
                && (self.recurring.contains_key(x) ==> other.recurring[x] == self.recurring[x])
        &&& forall|x: u64| #![trigger other.cancellations.contains_key(x)]
            #![trigger other.cancellations[x]]
            x != id ==> (other.cancellations.contains_key(x) <==> self.cancellations.contains_key(
                x,
            )) && (self.cancellations.contains_key(x) ==> other.cancellations[x]
            == self.cancellations[x])
        &&& forall|x: u64| #![trigger other.slashes.contains_key(x)]
            #![trigger other.slashes[x]]
            x != id ==> (other.slashes.contains_key(x) <==> self.slashes.contains_key(x))
                && (self.slashes.contains_key(x) ==> other.slashes[x] == self.slashes[x])
    }
}

// ---------------------------------------------------------------------------
// Counting
// ---------------------------------------------------------------------------

/// Counting depends on the counted milestones alone.
pub proof fn lemma_counted_same(
    a: Map<(u64, u32), MilestoneView>,
    b: Map<(u64, u32), MilestoneView>,
    id: u64,
    n: nat,
    status: MilestoneStatus,
)
    requires
        n <= u32::MAX,
        forall|mid: u32| mid < n ==> #[trigger] a[(id, mid)] == b[(id, mid)],
    ensures
        counted(a, id, n, status) == counted(b, id, n, status),
        allocated(a, id, n) == allocated(b, id, n),
    decreases n,
{
    if n > 0 {
        let last = (n - 1) as u32;
        assert(a[(id, last)] == b[(id, last)]);
        lemma_counted_same(a, b, id, (n - 1) as nat, status);
    }
}

/// A change of one milestone changes a count by what that milestone counts for.
pub proof fn lemma_counted_change(
    milestones: Map<(u64, u32), MilestoneView>,
    id: u64,
    n: nat,
    mid: u32,
    m: MilestoneView,
    status: MilestoneStatus,
)
    requires
        mid < n <= u32::MAX,
    ensures
        counted(milestones.insert((id, mid), m), id, n, status) == counted(
            milestones,
            id,
            n,
            status,
        ) - (if milestones[(id, mid)].status == status {
            1int
        } else {
            0
        }) + (if m.status == status {
            1int
        } else {
            0
        }),
        allocated(milestones.insert((id, mid), m), id, n) == allocated(milestones, id, n)
            - milestones[(id, mid)].amount + m.amount,
    decreases n,
{
    let after = milestones.insert((id, mid), m);
    let last = (n - 1) as u32;
    if mid == last {
        lemma_counted_same(after, milestones, id, (n - 1) as nat, status);
    } else {
        lemma_counted_change(milestones, id, (n - 1) as nat, mid, m, status);
        assert(after[(id, last)] == milestones[(id, last)]);
    }
}

/// The tallies after a change of one milestone.
pub proof fn lemma_tallies_change(
    milestones: Map<(u64, u32), MilestoneView>,
    id: u64,
    n: u32,
    mid: u32,
    m: MilestoneView,
)
    requires
        mid < n,
        numbered(milestones, id, n),
        m.id == mid,
        crate::types::is_milestone_status(m.status),
        m.amount > 0,
    ensures
        numbered(milestones.insert((id, mid), m), id, n),
        counted(milestones.insert((id, mid), m), id, n as nat, MS_SUBMITTED) == counted(
            milestones,
            id,
            n as nat,
            MS_SUBMITTED,
        ) - (if milestones[(id, mid)].status == MS_SUBMITTED {
            1int
        } else {
            0
        }) + (if m.status == MS_SUBMITTED {
            1int
        } else {
            0
        }),
        counted(milestones.insert((id, mid), m), id, n as nat, MS_APPROVED) == counted(
            milestones,
            id,
            n as nat,
            MS_APPROVED,
        ) - (if milestones[(id, mid)].status == MS_APPROVED {
            1int
        } else {
            0
        }) + (if m.status == MS_APPROVED {
            1int
        } else {
            0
        }),
        counted(milestones.insert((id, mid), m), id, n as nat, MS_RELEASED) == counted(
            milestones,
            id,
            n as nat,
            MS_RELEASED,
        ) - (if milestones[(id, mid)].status == MS_RELEASED {
            1int
        } else {
            0
        }) + (if m.status == MS_RELEASED {
            1int
        } else {
            0
        }),
        allocated(milestones.insert((id, mid), m), id, n as nat) == allocated(
            milestones,
            id,
            n as nat,
        ) - milestones[(id, mid)].amount + m.amount,
{
    lemma_counted_change(milestones, id, n as nat, mid, m, MS_SUBMITTED);
    lemma_counted_change(milestones, id, n as nat, mid, m, MS_APPROVED);
    lemma_counted_change(milestones, id, n as nat, mid, m, MS_RELEASED);
    let after = milestones.insert((id, mid), m);
    assert forall|x: u32| #[trigger] after.contains_key((id, x)) <==> x < n by {
        assert(milestones.contains_key((id, x)) <==> x < n);
    }
}

/// The tallies after one more milestone was added at the end.
pub proof fn lemma_tallies_grow(
    milestones: Map<(u64, u32), MilestoneView>,
    id: u64,
    n: u32,
    m: MilestoneView,
)
    requires
        n < u32::MAX,
        numbered(milestones, id, n),
        m.id == n,
        crate::types::is_milestone_status(m.status),
        m.amount > 0,
    ensures
        numbered(milestones.insert((id, n), m), id, (n + 1) as u32),
        counted(milestones.insert((id, n), m), id, (n + 1) as nat, MS_SUBMITTED) == counted(
            milestones,
            id,
            n as nat,
            MS_SUBMITTED,
        ) + (if m.status == MS_SUBMITTED {
            1int
        } else {
            0
        }),
        counted(milestones.insert((id, n), m), id, (n + 1) as nat, MS_APPROVED) == counted(
            milestones,
            id,
            n as nat,
            MS_APPROVED,
        ) + (if m.status == MS_APPROVED {
            1int
        } else {
            0
        }),
        counted(milestones.insert((id, n), m), id, (n + 1) as nat, MS_RELEASED) == counted(
            milestones,
            id,
            n as nat,
            MS_RELEASED,
        ) + (if m.status == MS_RELEASED {
            1int
        } else {
            0
        }),
        allocated(milestones.insert((id, n), m), id, (n + 1) as nat) == allocated(
            milestones,
            id,
            n as nat,
        ) + m.amount,
{
    let after = milestones.insert((id, n), m);
    lemma_counted_same(after, milestones, id, n as nat, MS_SUBMITTED);
    lemma_counted_same(after, milestones, id, n as nat, MS_APPROVED);
    lemma_counted_same(after, milestones, id, n as nat, MS_RELEASED);
    assert forall|x: u32| #[trigger] after.contains_key((id, x)) <==> x < n + 1 by {
        assert(milestones.contains_key((id, x)) <==> x < n);
    }
}

// ---------------------------------------------------------------------------
// One escrow at a time
// ---------------------------------------------------------------------------

/// Where only escrow `id` changed, and it is still there and well kept, the ledger still is.
pub proof fn lemma_one_escrow(s: Ledger, t: Ledger, id: u64)
    requires
        s.well_kept(),
        s.same_elsewhere(t, id),
        s.next_escrow_id() <= t.next_escrow_id(),
        t.escrows.contains_key(id),
        t.keeps(id),
        t.cancellations.contains_key(id) ==> t.cancellations[id].escrow_id == id,
        t.slashes.contains_key(id) ==> t.slashes[id].escrow_id == id,
        t.records_kept(),
    ensures
        t.well_kept(),
{
    assert forall|x: u64| #[trigger] t.escrows.contains_key(x) implies t.keeps(x) by {
        if x != id {
            assert(s.escrows.contains_key(x));
            assert(s.keeps(x));
            let meta = t.escrows[x];
            assert(meta == s.escrows[x]);
            lemma_numbered_same(s.milestones, t.milestones, x, meta);
        }
    }
    assert forall|x: u64, mid: u32| #[trigger]
        t.milestones.contains_key((x, mid)) implies t.escrows.contains_key(x) by {
        if x != id {
            assert(s.milestones.contains_key((x, mid)));
            assert(s.escrows.contains_key(x));
        }
    }
    assert forall|x: u64| #[trigger] t.recurring.contains_key(x) implies t.escrows.contains_key(
        x,
    ) by {
        if x != id {
            assert(s.recurring.contains_key(x));
            assert(s.escrows.contains_key(x));
        }
    }
    assert forall|x: u64| #[trigger] t.cancellations.contains_key(x) implies t.escrows.contains_key(
        x,
    ) && t.cancellations[x].escrow_id == x by {
        if x != id {
            assert(s.cancellations.contains_key(x));
            assert(s.escrows.contains_key(x));
        }
    }
    assert forall|x: u64| #[trigger] t.slashes.contains_key(x) implies t.escrows.contains_key(x)
        && t.slashes[x].escrow_id == x by {
        if x != id {
            assert(s.slashes.contains_key(x));
            assert(s.escrows.contains_key(x));
        }
    }
}

/// Numbering and tallies of an escrow depend on its own milestones alone.
pub proof fn lemma_numbered_same(
    a: Map<(u64, u32), MilestoneView>,
    b: Map<(u64, u32), MilestoneView>,
    id: u64,
    meta: EscrowMetaView,
)
    requires
        numbered(a, id, meta.milestone_count),
        tallied(a, id, meta),
        forall|mid: u32| #[trigger]
            b.contains_key((id, mid)) <==> a.contains_key((id, mid)),
        forall|mid: u32|
            a.contains_key((id, mid)) ==> #[trigger] b[(id, mid)] == a[(id, mid)],
    ensures
        numbered(b, id, meta.milestone_count),
        tallied(b, id, meta),
{
    let n = meta.milestone_count as nat;
    lemma_counted_same(b, a, id, n, MS_SUBMITTED);
    lemma_counted_same(b, a, id, n, MS_APPROVED);
    lemma_counted_same(b, a, id, n, MS_RELEASED);
    assert forall|mid: u32| #[trigger] b.contains_key((id, mid)) <==> mid
        < meta.milestone_count by {
        assert(a.contains_key((id, mid)) <==> mid < meta.milestone_count);
    }
}

/// An access keeps the ledger well kept: it changes nothing in a header but the rent.
pub proof fn lemma_access_keeps(s: Ledger, id: u64)
    requires
        s.well_kept(),
        s.access_refusal(id) is None,
    ensures
        s.accessing(id).well_kept(),
        s.same_elsewhere(s.accessing(id), id),
        s.accessing(id).escrows[id] == s.accessed_escrow(id),
        s.accessing(id).milestones == s.milestones,
        s.accessed_escrow(id) == (EscrowMetaView {
            rent_balance: s.accessed_escrow(id).rent_balance,
            last_rent_collection_at: s.accessed_escrow(id).last_rent_collection_at,
            ..s.escrows[id]
        }),
        0 <= s.accessed_escrow(id).rent_balance <= s.escrows[id].rent_balance,
{
    assert(s.keeps(id));
    crate::rent::lemma_rent(s, s.escrows[id]);
    lemma_one_escrow(s, s.accessing(id), id);
}

// ---------------------------------------------------------------------------
// The laws
// ---------------------------------------------------------------------------

/// Adding a milestone keeps the ledger well kept. The new milestone gets the next number, the
/// escrow holds no more milestones than it may, and no more is allocated than it holds.
pub proof fn law_add_milestone_keeps(
    s: Ledger,
    caller: Address,
    id: u64,
    title: Seq<u8>,
    description_hash: [u8; 32],
    amount: i128,
)
    requires
        s.well_kept(),
        s.add_milestone_refusal(caller, id, amount) is None,
    ensures
        s.add_milestone_done(caller, id, title, description_hash, amount).well_kept(),
        s.same_elsewhere(s.add_milestone_done(caller, id, title, description_hash, amount), id),
        ({
            let t = s.add_milestone_done(caller, id, title, description_hash, amount);
            let mid = s.escrows[id].milestone_count;
            &&& !s.milestones.contains_key((id, mid))
            &&& t.milestones[(id, mid)] == crate::milestones::new_milestone(
                mid,
                title,
                description_hash,
                amount,
            )
            &&& t.escrows[id].milestone_count == mid + 1 <= crate::milestones::MAX_MILESTONES
            &&& t.escrows[id].allocated_amount <= t.escrows[id].total_amount
        }),
{
    lemma_access_keeps(s, id);
    let a = s.accessing(id);
    let t = s.add_milestone_done(caller, id, title, description_hash, amount);
    let mid = s.escrows[id].milestone_count;
    assert(a.keeps(id));
    lemma_tallies_grow(
        a.milestones,
        id,
        mid,
        crate::milestones::new_milestone(mid, title, description_hash, amount),
    );
    assert(t.keeps(id));
    lemma_one_escrow(s, t, id);
}

/// Submitting a milestone keeps the ledger well kept.
pub proof fn law_submit_milestone_keeps(s: Ledger, caller: Address, id: u64, mid: u32)
    requires
        s.well_kept(),
        s.submit_milestone_refusal(caller, id, mid) is None,
    ensures
        s.submit_milestone_done(caller, id, mid).well_kept(),
        s.same_elsewhere(s.submit_milestone_done(caller, id, mid), id),
{
    lemma_access_keeps(s, id);
    let a = s.accessing(id);
    let t = s.submit_milestone_done(caller, id, mid);
    assert(a.keeps(id));
    assert(a.milestones.contains_key((id, mid)));
    assert(a.milestones[(id, mid)].id == mid);
    lemma_tallies_change(
        a.milestones,
        id,
        s.escrows[id].milestone_count,
        mid,
        t.milestones[(id, mid)],
    );
    assert(t.keeps(id));
    lemma_one_escrow(s, t, id);
}

/// Approving a milestone keeps the ledger well kept.
pub proof fn law_approve_milestone_keeps(s: Ledger, caller: Address, id: u64, mid: u32)
    requires
        s.well_kept(),
        s.approve_milestone_refusal(caller, id, mid) is None,
    ensures
        s.approve_milestone_done(caller, id, mid).well_kept(),
        s.same_elsewhere(s.approve_milestone_done(caller, id, mid), id),
{
    lemma_access_keeps(s, id);
    let a = s.accessing(id);
    let t = s.approve_milestone_done(caller, id, mid);
    assert(a.keeps(id));
    assert(a.milestones.contains_key((id, mid)));
    assert(a.milestones[(id, mid)].id == mid);
    lemma_tallies_change(
        a.milestones,
        id,
        s.escrows[id].milestone_count,
        mid,
        t.milestones[(id, mid)],
    );
    assert(t.keeps(id));
    lemma_one_escrow(s, t, id);
}

/// Rejecting a milestone keeps the ledger well kept.
pub proof fn law_reject_milestone_keeps(s: Ledger, caller: Address, id: u64, mid: u32)
    requires
        s.well_kept(),
        s.reject_milestone_refusal(caller, id, mid) is None,
    ensures
        s.reject_milestone_done(caller, id, mid).well_kept(),
        s.same_elsewhere(s.reject_milestone_done(caller, id, mid), id),
{
    lemma_access_keeps(s, id);
    let a = s.accessing(id);
    let t = s.reject_milestone_done(caller, id, mid);
    assert(a.keeps(id));
    assert(a.milestones.contains_key((id, mid)));
    assert(a.milestones[(id, mid)].id == mid);
    lemma_tallies_change(
        a.milestones,
        id,
        s.escrows[id].milestone_count,
        mid,
        t.milestones[(id, mid)],
    );
    assert(t.keeps(id));
    lemma_one_escrow(s, t, id);
}

/// Releasing the funds of a milestone keeps the ledger well kept.
pub proof fn law_release_funds_keeps(s: Ledger, caller: Address, id: u64, mid: u32)
    requires
        s.well_kept(),
        s.release_funds_refusal(caller, id, mid) is None,
    ensures
        s.release_funds_done(caller, id, mid).well_kept(),
        s.same_elsewhere(s.release_funds_done(caller, id, mid), id),
{
    lemma_access_keeps(s, id);
    let a = s.accessing(id);
    let t = s.release_funds_done(caller, id, mid);
    assert(a.keeps(id));
    assert(a.milestones.contains_key((id, mid)));
    assert(a.milestones[(id, mid)].id == mid);
    lemma_tallies_change(
        a.milestones,
        id,
        s.escrows[id].milestone_count,
        mid,
        t.milestones[(id, mid)],
    );
    assert(t.keeps(id));
    lemma_one_escrow(s, t, id);
}

/// Storing and announcing the milestones of a batch adds to the tallies what they come to.
pub proof fn lemma_adding(
    c: Ledger,
    id: u64,
    first: u32,
    titles: Seq<crate::types::Text>,
    hashes: Seq<[u8; 32]>,
    amounts: Seq<i128>,
    k: nat,
)
    requires
        first + k <= crate::milestones::MAX_MILESTONES,
        k <= amounts.len(),
        numbered(c.milestones, id, first),
        forall|i: int| 0 <= i < k ==> #[trigger] amounts[i] > 0,
    ensures
        ({
            let t = c.adding_milestones(id, first, titles, hashes, amounts, k);
            &&& t == (Ledger {
                milestones: t.milestones,
                calls: t.calls,
                touched: t.touched,
                ..c
            })
            &&& c.same_elsewhere(t, id)
            &&& numbered(t.milestones, id, (first + k) as u32)
            &&& counted(t.milestones, id, first as nat + k, MS_SUBMITTED) == counted(
                c.milestones,
                id,
                first as nat,
                MS_SUBMITTED,
            )
            &&& counted(t.milestones, id, first as nat + k, MS_APPROVED) == counted(
                c.milestones,
                id,
                first as nat,
                MS_APPROVED,
            )
            &&& counted(t.milestones, id, first as nat + k, MS_RELEASED) == counted(
                c.milestones,
                id,
                first as nat,
                MS_RELEASED,
            )
            &&& allocated(t.milestones, id, first as nat + k) == allocated(
                c.milestones,
                id,
                first as nat,
            ) + crate::batch::sum_of(amounts.take(k as int))
            &&& forall|i: int|
                0 <= i < k ==> #[trigger] t.milestones[(id, (first + i) as u32)]
                    == crate::milestones::new_milestone(
                    (first + i) as u32,
                    titles[i]@,
                    hashes[i],
                    amounts[i],
                )
            &&& forall|mid: u32|
                mid < first ==> #[trigger] t.milestones[(id, mid)] == c.milestones[(id, mid)]
        }),
    decreases k,
{
    let t = c.adding_milestones(id, first, titles, hashes, amounts, k);
    if k > 0 {
        let i = k - 1;
        let mid = (first + i) as u32;
        lemma_adding(c, id, first, titles, hashes, amounts, i as nat);
        let before = c.adding_milestones(id, first, titles, hashes, amounts, i as nat);
        let m = crate::milestones::new_milestone(mid, titles[i]@, hashes[i], amounts[i]);
        lemma_tallies_grow(before.milestones, id, mid, m);
        assert(t.milestones == before.milestones.insert((id, mid), m));
        assert(amounts.take(k as int).drop_last() =~= amounts.take(i));
    }
}

/// Adding a batch of milestones keeps the ledger well kept. The milestones are numbered in
/// order from the first free number on, the escrow holds no more milestones than it may, and no
/// more is allocated than it holds.
pub proof fn law_batch_add_keeps(
    s: Ledger,
    caller: Address,
    id: u64,
    titles: Seq<crate::types::Text>,
    hashes: Seq<[u8; 32]>,
    amounts: Seq<i128>,
)
    requires
        s.well_kept(),
        s.batch_add_refusal(caller, id, titles, hashes, amounts) is None,
    ensures
        s.batch_add_done(caller, id, titles, hashes, amounts).well_kept(),
        s.same_elsewhere(s.batch_add_done(caller, id, titles, hashes, amounts), id),
        ({
            let t = s.batch_add_done(caller, id, titles, hashes, amounts);
            let first = s.escrows[id].milestone_count;
            &&& t.escrows[id].milestone_count == first + titles.len()
                <= crate::milestones::MAX_MILESTONES
            &&& t.escrows[id].allocated_amount <= t.escrows[id].total_amount
            &&& forall|i: int|
                0 <= i < titles.len() ==> #[trigger] t.milestones[(id, (first + i) as u32)]
                    == crate::milestones::new_milestone(
                    (first + i) as u32,
                    titles[i]@,
                    hashes[i],
                    amounts[i],
                )
            &&& forall|mid: u32|
                mid < first ==> #[trigger] t.milestones[(id, mid)] == s.milestones[(id, mid)]
        }),
{
    lemma_access_keeps(s, id);
    let meta = s.accessed_escrow(id);
    let reserve = crate::rent::reserve_for(titles.len() as int) as i128;
    let c = s.demanding(caller).accessing(id).charging_reserve(meta.token, caller, reserve);
    let t = s.batch_add_done(caller, id, titles, hashes, amounts);
    assert(s.accessing(id).keeps(id));
    crate::batch::lemma_amounts_accepted(amounts);
    lemma_adding(c, id, meta.milestone_count, titles, hashes, amounts, titles.len());
    assert(amounts.take(titles.len() as int) =~= amounts);
    assert(t.keeps(id));
    lemma_one_escrow(s, t, id);
}

/// Approving distinct submitted milestones moves those that this is enough for from one tally
/// to another.
pub proof fn lemma_approving(
    c: Ledger,
    id: u64,
    meta: EscrowMetaView,
    who: Address,
    n: u32,
    mids: Seq<u32>,
    open: bool,
    k: nat,
)
    requires
        k <= mids.len(),
        mids.no_duplicates(),
        numbered(c.milestones, id, n),
        forall|i: int|
            0 <= i < mids.len() ==> c.milestones.contains_key((id, #[trigger] mids[i]))
                && c.milestones[(id, mids[i])].status == MS_SUBMITTED,
    ensures
        ({
            let t = c.approving_milestones(id, meta, who, mids, open, k);
            let part = mids.take(k as int);
            let number = crate::batch::chosen(c.milestones, id, meta, who, part).len();
            &&& t == (Ledger {
                milestones: t.milestones,
                calls: t.calls,
                touched: t.touched,
                ..c
            })
            &&& c.same_elsewhere(t, id)
            &&& numbered(t.milestones, id, n)
            &&& counted(t.milestones, id, n as nat, MS_SUBMITTED) == counted(
                c.milestones,
                id,
                n as nat,
                MS_SUBMITTED,
            ) - number
            &&& counted(t.milestones, id, n as nat, MS_APPROVED) == counted(
                c.milestones,
                id,
                n as nat,
                MS_APPROVED,
            ) + (if open {
                0
            } else {
                number as int
            })
            &&& counted(t.milestones, id, n as nat, MS_RELEASED) == counted(
                c.milestones,
                id,
                n as nat,
                MS_RELEASED,
            ) + (if open {
                number as int
            } else {
                0
            })
            &&& allocated(t.milestones, id, n as nat) == allocated(c.milestones, id, n as nat)
            &&& forall|i: int|
                k <= i < mids.len() ==> t.milestones[(id, #[trigger] mids[i])]
                    == c.milestones[(id, mids[i])]
            &&& forall|i: int|
                0 <= i < k ==> t.milestones[(id, #[trigger] mids[i])] == after_approval(
                    meta,
                    c.milestones[(id, mids[i])],
                    who,
                    c.now,
                    open,
                )
        }),
    decreases k,
{
    if k > 0 {
        let mid = mids[k - 1];
        lemma_approving(c, id, meta, who, n, mids, open, (k - 1) as nat);
        let before = c.approving_milestones(id, meta, who, mids, open, (k - 1) as nat);
        let m = before.milestones[(id, mid)];
        assert(m == c.milestones[(id, mids[k - 1])]);
        assert(c.milestones.contains_key((id, mid)));
        let after = after_approval(meta, m, who, c.now, open);
        lemma_tallies_change(before.milestones, id, n, mid, after);
        assert(mids.take(k as int).drop_last() =~= mids.take(k - 1));
    } else {
        assert(mids.take(0).len() == 0);
    }
}

/// A submitted milestone after an approval by `who`, be it enough or not.
pub open spec fn after_approval(
    meta: EscrowMetaView,
    m: MilestoneView,
    who: Address,
    now: u64,
    open: bool,
) -> MilestoneView {
    if crate::milestones::suffices(meta, m, who) {
        crate::milestones::approved_milestone(m, who, now, open)
    } else {
        crate::milestones::recorded(m, who, now)
    }
}

/// Some distinct milestones in one state are no more than are counted in it.
pub proof fn lemma_no_more_than_counted(
    milestones: Map<(u64, u32), MilestoneView>,
    id: u64,
    n: u32,
    mids: Seq<u32>,
    status: MilestoneStatus,
)
    requires
        numbered(milestones, id, n),
        mids.no_duplicates(),
        forall|i: int|
            0 <= i < mids.len() ==> milestones.contains_key((id, #[trigger] mids[i]))
                && milestones[(id, mids[i])].status == status,
        crate::types::is_milestone_status(status),
    ensures
        mids.len() <= counted(milestones, id, n as nat, status),
    decreases mids.len(),
{
    if mids.len() > 0 {
        let last = mids.last();
        assert(milestones.contains_key((id, mids[mids.len() - 1])));
        let m = milestones[(id, last)];
        let other: MilestoneStatus = if status == MS_SUBMITTED {
            MS_APPROVED
        } else {
            MS_SUBMITTED
        };
        let moved = MilestoneView { status: other, ..m };
        let after = milestones.insert((id, last), moved);
        lemma_tallies_change(milestones, id, n, last, moved);
        lemma_counted_change(milestones, id, n as nat, last, moved, status);
        let short = mids.drop_last();
        assert forall|i: int| 0 <= i < short.len() implies after.contains_key(
            (id, #[trigger] short[i]),
        ) && after[(id, short[i])].status == status by {
            assert(short[i] == mids[i]);
            assert(mids[i] != mids[mids.len() - 1]);
        }
        lemma_no_more_than_counted(after, id, n, short, status);
    }
}

/// Approving a batch of milestones keeps the ledger well kept.
pub proof fn law_batch_approve_keeps(s: Ledger, caller: Address, id: u64, mids: Seq<u32>)
    requires
        s.well_kept(),
        s.batch_approve_refusal(caller, id, mids) is None,
    ensures
        s.batch_approve_done(caller, id, mids).well_kept(),
        s.same_elsewhere(s.batch_approve_done(caller, id, mids), id),
{
    lemma_access_keeps(s, id);
    let meta = s.accessed_escrow(id);
    let open = crate::storage::timelock_open(meta.timelock, s.now);
    let c = s.demanding(caller).accessing(id).announcing_lock(
        id,
        meta.lock_time,
    ).announcing_timelock(id, meta.timelock);
    let t = s.batch_approve_done(caller, id, mids);
    assert(s.accessing(id).keeps(id));
    crate::batch::lemma_selection_accepted(s.milestones, id, mids, MS_SUBMITTED);
    let approved = crate::batch::chosen(s.milestones, id, meta, caller, mids);
    crate::batch::lemma_selection_accepted(s.milestones, id, approved, MS_SUBMITTED);
    lemma_no_more_than_counted(
        s.milestones,
        id,
        meta.milestone_count,
        approved,
        MS_SUBMITTED,
    );
    assert(mids.take(mids.len() as int) =~= mids);
    lemma_approving(c, id, meta, caller, meta.milestone_count, mids, open, mids.len());
    assert(t.keeps(id));
    lemma_one_escrow(s, t, id);
}

/// The sum of the amounts of a selection is positive.
pub proof fn lemma_selected_positive(
    milestones: Map<(u64, u32), MilestoneView>,
    id: u64,
    n: u32,
    mids: Seq<u32>,
)
    requires
        numbered(milestones, id, n),
        forall|i: int|
            0 <= i < mids.len() ==> milestones.contains_key((id, #[trigger] mids[i])),
    ensures
        crate::batch::selected_total(milestones, id, mids) >= mids.len(),
    decreases mids.len(),
{
    if mids.len() > 0 {
        let short = mids.drop_last();
        assert forall|i: int| 0 <= i < short.len() implies milestones.contains_key(
            (id, #[trigger] short[i]),
        ) by {
            assert(short[i] == mids[i]);
        }
        lemma_selected_positive(milestones, id, n, short);
        assert(milestones.contains_key((id, mids[mids.len() - 1])));
        assert(mids.last() < n);
    }
}

/// Marking distinct approved milestones as released moves them all from one tally to another.
pub proof fn lemma_releasing(c: Ledger, id: u64, to: Address, n: u32, mids: Seq<u32>, k: nat)
    requires
        k <= mids.len(),
        mids.no_duplicates(),
        numbered(c.milestones, id, n),
        forall|i: int|
            0 <= i < mids.len() ==> c.milestones.contains_key((id, #[trigger] mids[i]))
                && c.milestones[(id, mids[i])].status == MS_APPROVED,
    ensures
        ({
            let t = c.releasing_milestones(id, to, mids, k);
            &&& t == (Ledger {
                milestones: t.milestones,
                calls: t.calls,
                touched: t.touched,
                ..c
            })
            &&& c.same_elsewhere(t, id)
            &&& numbered(t.milestones, id, n)
            &&& counted(t.milestones, id, n as nat, MS_SUBMITTED) == counted(
                c.milestones,
                id,
                n as nat,
                MS_SUBMITTED,
            )
            &&& counted(t.milestones, id, n as nat, MS_APPROVED) == counted(
                c.milestones,
                id,
                n as nat,
                MS_APPROVED,
            ) - k
            &&& counted(t.milestones, id, n as nat, MS_RELEASED) == counted(
                c.milestones,
                id,
                n as nat,
                MS_RELEASED,
            ) + k
            &&& allocated(t.milestones, id, n as nat) == allocated(c.milestones, id, n as nat)
            &&& forall|i: int|
                k <= i < mids.len() ==> t.milestones[(id, #[trigger] mids[i])]
                    == c.milestones[(id, mids[i])]
        }),
    decreases k,
{
    if k > 0 {
        let mid = mids[k - 1];
        lemma_releasing(c, id, to, n, mids, (k - 1) as nat);
        let before = c.releasing_milestones(id, to, mids, (k - 1) as nat);
        let m = before.milestones[(id, mid)];
        assert(m == c.milestones[(id, mids[k - 1])]);
        assert(c.milestones.contains_key((id, mid)));
        lemma_tallies_change(
            before.milestones,
            id,
            n,
            mid,
            MilestoneView { status: MS_RELEASED, ..m },
        );
    }
}

/// Releasing the funds of a batch of milestones keeps the ledger well kept.
pub proof fn law_batch_release_keeps(s: Ledger, caller: Address, id: u64, mids: Seq<u32>)
    requires
        s.well_kept(),
        s.batch_release_refusal(caller, id, mids) is None,
    ensures
        s.batch_release_done(caller, id, mids).well_kept(),
        s.same_elsewhere(s.batch_release_done(caller, id, mids), id),
{
    lemma_access_keeps(s, id);
    let meta = s.accessed_escrow(id);
    let c = s.touching_instance().demanding(caller).accessing(id).announcing_lock(
        id,
        meta.lock_time,
    );
    let t = s.batch_release_done(caller, id, mids);
    assert(s.accessing(id).keeps(id));
    crate::batch::lemma_selection_accepted(s.milestones, id, mids, MS_APPROVED);
    lemma_releasing(c, id, meta.freelancer, meta.milestone_count, mids, mids.len());
    lemma_selected_positive(s.milestones, id, meta.milestone_count, mids);
    assert(t.keeps(id));
    lemma_one_escrow(s, t, id);
}

} // verus!
