//! The lists of escrows by status, by participant and by requester are exact, and every request
//! keeps them so.
use vstd::prelude::*;

use crate::ledger::Ledger;
use crate::types::{
    Address, BridgeProtocol, EscrowStatus, MultisigConfigView, OracleResolutionPayload,
    RecurringInterval, Text, WrappedTokenInfoView,
};

verus! {

impl Ledger {
    /// The lists by status are exact: an escrow is on the list of a status if and only if it is
    /// there and has that status, and it is on it once.
    pub open spec fn statuses_listed(self) -> bool {
        &&& forall|st: EscrowStatus, id: u64| #[trigger]
            crate::ledger::list_at(self.by_status, st).contains(id) <==> (
            self.escrows.contains_key(id) && self.escrows[id].status == st)
        &&& forall|st: EscrowStatus| #[trigger]
            crate::ledger::list_at(self.by_status, st).no_duplicates()
    }

    /// The lists by participant are exact: an escrow is on the list of a participant if and only
    /// if it is there and they are its client or its freelancer.
    pub open spec fn participants_listed(self) -> bool {
        forall|who: Address, id: u64| #[trigger]
            crate::ledger::list_at(self.by_participant, who).contains(id) <==> (
            self.escrows.contains_key(id) && crate::disputes::is_party(self.escrows[id], who))
    }

    /// The lists by requester are exact: an escrow is on the list of a requester if and only if
    /// there is a request of theirs to cancel it.
    pub open spec fn requests_listed(self) -> bool {
        forall|who: Address, id: u64| #[trigger]
            crate::ledger::list_at(self.cancellations_by_requester, who).contains(id) <==> (
            self.cancellations.contains_key(id) && self.cancellations[id].requester == who)
    }

    /// All of these lists are exact.
    pub open spec fn listed(self) -> bool {
        &&& self.statuses_listed()
        &&& self.participants_listed()
        &&& self.requests_listed()
    }
}

/// A list without an escrow has all the others, and has no duplicates if it had none before.
pub proof fn lemma_without(ids: Seq<u64>, id: u64)
    ensures
        forall|x: u64| #[trigger]
            crate::ledger::without(ids, id).contains(x) <==> ids.contains(x) && x != id,
        ids.no_duplicates() ==> crate::ledger::without(ids, id).no_duplicates(),
    decreases ids.len(),
{
    reveal(Seq::filter);
    let out = crate::ledger::without(ids, id);
    if ids.len() > 0 {
        let rest = ids.drop_last();
        let last = ids.last();
        let part = crate::ledger::without(rest, id);
        lemma_without(rest, id);
        assert(out == if last != id {
            part.push(last)
        } else {
            part
        });
        assert forall|x: u64| #[trigger] out.contains(x) <==> ids.contains(x) && x != id by {
            assert(ids.contains(x) <==> rest.contains(x) || x == last) by {
                if rest.contains(x) {
                    let i = choose|i: int| 0 <= i < rest.len() && rest[i] == x;
                    assert(ids[i] == x);
                }
                if x == last {
                    assert(ids[ids.len() - 1] == x);
                }
                if ids.contains(x) && x != last {
                    let i = choose|i: int| 0 <= i < ids.len() && ids[i] == x;
                    assert(rest[i] == x);
                }
            }
            if last != id {
                assert(out.contains(x) <==> part.contains(x) || x == last) by {
                    if part.contains(x) {
                        let i = choose|i: int| 0 <= i < part.len() && part[i] == x;
                        assert(out[i] == x);
                    }
                    if x == last {
                        assert(out[part.len() as int] == x);
                    }
                }
            }
            assert(part.contains(x) <==> rest.contains(x) && x != id);
        }
        if ids.no_duplicates() {
            assert(rest.no_duplicates());
            if last != id {
                assert(!rest.contains(last)) by {
                    if rest.contains(last) {
                        let i = choose|i: int| 0 <= i < rest.len() && rest[i] == last;
                        assert(ids[i] == ids[ids.len() - 1]);
                    }
                }
                assert(!part.contains(last));
                lemma_pushed(part, last);
            }
        }
    } else {
        assert(out =~= Seq::<u64>::empty());
    }
}

/// What a list has after an escrow was added at its end.
pub proof fn lemma_pushed(ids: Seq<u64>, id: u64)
    ensures
        forall|x: u64| #[trigger] ids.push(id).contains(x) <==> ids.contains(x) || x == id,
        ids.no_duplicates() && !ids.contains(id) ==> ids.push(id).no_duplicates(),
{
    let out = ids.push(id);
    assert forall|x: u64| #[trigger] out.contains(x) <==> ids.contains(x) || x == id by {
        if ids.contains(x) {
            let i = choose|i: int| 0 <= i < ids.len() && ids[i] == x;
            assert(out[i] == x);
        }
        if x == id {
            assert(out[ids.len() as int] == x);
        }
    }
}

/// What a list holds once an escrow was dropped from one of them.
proof fn lemma_dropped<K>(index: Map<K, Seq<u64>>, key: K, id: u64)
    ensures
        forall|k: K|
            k != key ==> #[trigger] crate::ledger::list_at(
                crate::ledger::index_dropped(index, key, id),
                k,
            ) == crate::ledger::list_at(index, k),
        forall|x: u64| #[trigger]
            crate::ledger::list_at(crate::ledger::index_dropped(index, key, id), key).contains(x)
                <==> crate::ledger::list_at(index, key).contains(x) && x != id,
        crate::ledger::list_at(index, key).no_duplicates() ==> crate::ledger::list_at(
            crate::ledger::index_dropped(index, key, id),
            key,
        ).no_duplicates(),
{
    lemma_without(crate::ledger::list_at(index, key), id);
    if index.contains_key(key) {
        assert(crate::ledger::list_at(crate::ledger::index_dropped(index, key, id), key)
            == crate::ledger::without(crate::ledger::list_at(index, key), id));
    }
}

/// What a list holds once an escrow was added to one of them.
proof fn lemma_added<K>(index: Map<K, Seq<u64>>, key: K, id: u64)
    ensures
        forall|k: K|
            k != key ==> #[trigger] crate::ledger::list_at(
                crate::ledger::index_added(index, key, id),
                k,
            ) == crate::ledger::list_at(index, k),
        forall|x: u64| #[trigger]
            crate::ledger::list_at(crate::ledger::index_added(index, key, id), key).contains(x)
                <==> crate::ledger::list_at(index, key).contains(x) || x == id,
        crate::ledger::list_at(index, key).no_duplicates() && !crate::ledger::list_at(
            index,
            key,
        ).contains(id) ==> crate::ledger::list_at(
            crate::ledger::index_added(index, key, id),
            key,
        ).no_duplicates(),
{
    lemma_pushed(crate::ledger::list_at(index, key), id);
    assert(crate::ledger::list_at(crate::ledger::index_added(index, key, id), key)
        == crate::ledger::list_at(index, key).push(id));
}

/// Moving an escrow from the list of its old status to that of its new one keeps the lists
/// exact.
proof fn lemma_relisted(s: Ledger, t: Ledger, from: EscrowStatus, to: EscrowStatus, id: u64)
    requires
        s.statuses_listed(),
        s.escrows.contains_key(id),
        s.escrows[id].status == from,
        t.by_status == s.relisting(from, to, id).by_status,
        t.escrows.contains_key(id),
        t.escrows[id].status == to,
        forall|x: u64|
            x != id ==> (#[trigger] t.escrows.contains_key(x) <==> s.escrows.contains_key(x)) && (
            s.escrows.contains_key(x) ==> t.escrows[x].status == s.escrows[x].status),
    ensures
        t.statuses_listed(),
{
    let dropped = crate::ledger::index_dropped(s.by_status, from, id);
    lemma_dropped(s.by_status, from, id);
    lemma_added(dropped, to, id);
    assert(t.by_status == crate::ledger::index_added(dropped, to, id));
    assert forall|st: EscrowStatus, x: u64| #[trigger]
        crate::ledger::list_at(t.by_status, st).contains(x) <==> (t.escrows.contains_key(x)
            && t.escrows[x].status == st) by {
        assert(crate::ledger::list_at(s.by_status, st).contains(x) <==> (s.escrows.contains_key(x)
            && s.escrows[x].status == st));
        if x != id {
            assert(t.escrows.contains_key(x) <==> s.escrows.contains_key(x));
        }
        if st != from {
            assert(crate::ledger::list_at(dropped, st) == crate::ledger::list_at(s.by_status, st));
        } else {
            assert(crate::ledger::list_at(dropped, from).contains(x) <==> crate::ledger::list_at(
                s.by_status,
                from,
            ).contains(x) && x != id);
        }
        if st != to {
            assert(crate::ledger::list_at(t.by_status, st) == crate::ledger::list_at(dropped, st));
        }
    }
    assert(!crate::ledger::list_at(dropped, to).contains(id)) by {
        assert(crate::ledger::list_at(s.by_status, to).contains(id) <==> (s.escrows.contains_key(id)
            && s.escrows[id].status == to));
        if to != from {
            assert(crate::ledger::list_at(dropped, to) == crate::ledger::list_at(s.by_status, to));
        }
    }
    assert forall|st: EscrowStatus| #[trigger]
        crate::ledger::list_at(t.by_status, st).no_duplicates() by {
        assert(crate::ledger::list_at(s.by_status, st).no_duplicates());
        assert(crate::ledger::list_at(s.by_status, to).no_duplicates());
        if st != from {
            assert(crate::ledger::list_at(dropped, st) == crate::ledger::list_at(s.by_status, st));
        }
        if to != from {
            assert(crate::ledger::list_at(dropped, to) == crate::ledger::list_at(s.by_status, to));
        }
        if st != to {
            assert(crate::ledger::list_at(t.by_status, st) == crate::ledger::list_at(dropped, st));
        }
    }
}

/// A request that leaves the parties of every escrow keeps the lists by participant exact.
proof fn lemma_parties_kept(s: Ledger, t: Ledger)
    requires
        s.participants_listed(),
        t.by_participant == s.by_participant,
        forall|x: u64|
            (#[trigger] t.escrows.contains_key(x) <==> s.escrows.contains_key(x)) && (
            s.escrows.contains_key(x) ==> t.escrows[x].client == s.escrows[x].client
                && t.escrows[x].freelancer == s.escrows[x].freelancer),
    ensures
        t.participants_listed(),
{
    assert forall|who: Address, x: u64| #[trigger]
        crate::ledger::list_at(t.by_participant, who).contains(x) <==> (t.escrows.contains_key(x)
            && crate::disputes::is_party(t.escrows[x], who)) by {
        assert(t.escrows.contains_key(x) <==> s.escrows.contains_key(x));
        assert(crate::ledger::list_at(s.by_participant, who).contains(x) <==> (
        s.escrows.contains_key(x) && crate::disputes::is_party(s.escrows[x], who)));
    }
}

/// A request that leaves the requesters of every cancellation keeps their lists exact.
proof fn lemma_requests_kept(s: Ledger, t: Ledger)
    requires
        s.requests_listed(),
        t.cancellations_by_requester == s.cancellations_by_requester,
        forall|x: u64|
            (#[trigger] t.cancellations.contains_key(x) <==> s.cancellations.contains_key(x)) && (
            s.cancellations.contains_key(x) ==> t.cancellations[x].requester
                == s.cancellations[x].requester),
    ensures
        t.requests_listed(),
{
    assert forall|who: Address, x: u64| #[trigger]
        crate::ledger::list_at(t.cancellations_by_requester, who).contains(x) <==> (
        t.cancellations.contains_key(x) && t.cancellations[x].requester == who) by {
        assert(t.cancellations.contains_key(x) <==> s.cancellations.contains_key(x));
        assert(crate::ledger::list_at(s.cancellations_by_requester, who).contains(x) <==> (
        s.cancellations.contains_key(x) && s.cancellations[x].requester == who));
    }
}

/// One more escrow, active and on the lists of its parties, keeps the lists exact.
proof fn lemma_one_more(s: Ledger, t: Ledger, id: u64, client: Address, freelancer: Address)
    requires
        s.listed(),
        !s.escrows.contains_key(id),
        t.escrows == s.escrows.insert(id, t.escrows[id]),
        t.escrows[id].status == EscrowStatus::Active,
        t.escrows[id].client == client,
        t.escrows[id].freelancer == freelancer,
        t.cancellations == s.cancellations,
        t.cancellations_by_requester == s.cancellations_by_requester,
        t.by_status == crate::ledger::index_added(s.by_status, EscrowStatus::Active, id),
        t.by_participant == crate::ledger::index_added(
            crate::ledger::index_added(s.by_participant, client, id),
            freelancer,
            id,
        ),
    ensures
        t.listed(),
        crate::ledger::list_at(t.by_participant, client).last() == id,
        crate::ledger::list_at(t.by_participant, freelancer).last() == id,
{
    let active = EscrowStatus::Active;
    let once = crate::ledger::index_added(s.by_participant, client, id);
    lemma_added(s.by_status, active, id);
    lemma_added(s.by_participant, client, id);
    lemma_added(once, freelancer, id);
    lemma_requests_kept(s, t);
    assert forall|st: EscrowStatus, x: u64| #[trigger]
        crate::ledger::list_at(t.by_status, st).contains(x) <==> (t.escrows.contains_key(x)
            && t.escrows[x].status == st) by {
        assert(crate::ledger::list_at(s.by_status, st).contains(x) <==> (s.escrows.contains_key(x)
            && s.escrows[x].status == st));
        if st != active {
            assert(crate::ledger::list_at(t.by_status, st) == crate::ledger::list_at(
                s.by_status,
                st,
            ));
        }
    }
    assert(!crate::ledger::list_at(s.by_status, active).contains(id));
    assert forall|st: EscrowStatus| #[trigger]
        crate::ledger::list_at(t.by_status, st).no_duplicates() by {
        assert(crate::ledger::list_at(s.by_status, st).no_duplicates());
        if st != active {
            assert(crate::ledger::list_at(t.by_status, st) == crate::ledger::list_at(
                s.by_status,
                st,
            ));
        }
    }
    assert forall|who: Address, x: u64| #[trigger]
        crate::ledger::list_at(t.by_participant, who).contains(x) <==> (t.escrows.contains_key(x)
            && crate::disputes::is_party(t.escrows[x], who)) by {
        assert(crate::ledger::list_at(s.by_participant, who).contains(x) <==> (
        s.escrows.contains_key(x) && crate::disputes::is_party(s.escrows[x], who)));
        if who != client {
            assert(crate::ledger::list_at(once, who) == crate::ledger::list_at(
                s.by_participant,
                who,
            ));
        } else {
            assert(crate::ledger::list_at(once, client).contains(x) <==> crate::ledger::list_at(
                s.by_participant,
                client,
            ).contains(x) || x == id);
        }
        if who != freelancer {
            assert(crate::ledger::list_at(t.by_participant, who) == crate::ledger::list_at(
                once,
                who,
            ));
        }
    }
}

/// A request that changes no status keeps the lists exact.
proof fn lemma_status_kept(s: Ledger, t: Ledger)
    requires
        s.statuses_listed(),
        t.by_status == s.by_status,
        forall|x: u64|
            (#[trigger] t.escrows.contains_key(x) <==> s.escrows.contains_key(x)) && (
            s.escrows.contains_key(x) ==> t.escrows[x].status == s.escrows[x].status),
    ensures
        t.statuses_listed(),
{
    assert forall|st: EscrowStatus, x: u64| #[trigger]
        crate::ledger::list_at(t.by_status, st).contains(x) <==> (t.escrows.contains_key(x)
            && t.escrows[x].status == st) by {
        assert(t.escrows.contains_key(x) <==> s.escrows.contains_key(x));
        assert(crate::ledger::list_at(s.by_status, st).contains(x) <==> (s.escrows.contains_key(x)
            && s.escrows[x].status == st));
    }
    assert forall|st: EscrowStatus| #[trigger]
        crate::ledger::list_at(t.by_status, st).no_duplicates() by {
        assert(crate::ledger::list_at(s.by_status, st).no_duplicates());
    }
}

/// Creating an escrow keeps the lists exact: it is the last entry of the lists of both parties.
pub proof fn law_create_escrow_lists(
    s: Ledger,
    client: Address,
    freelancer: Address,
    token: Address,
    total_amount: i128,
    brief_hash: [u8; 32],
    arbiter: Option<Address>,
    deadline: Option<u64>,
    lock_time: Option<u64>,
    signers: Seq<Address>,
    multisig: MultisigConfigView,
)
    requires
        s.well_kept(),
        s.listed(),
        s.create_escrow_refusal(token, total_amount, deadline, lock_time) is None,
        s.next_escrow_id() < u64::MAX,
    ensures
        ({
            let t = s.create_escrow_done(
                client,
                freelancer,
                token,
                total_amount,
                brief_hash,
                arbiter,
                deadline,
                lock_time,
                signers,
                multisig,
            );
            let id = s.next_escrow_id();
            &&& t.listed()
            &&& crate::ledger::list_at(t.by_participant, client).last() == id
            &&& crate::ledger::list_at(t.by_participant, freelancer).last() == id
        }),
{
    let t = s.create_escrow_done(
        client,
        freelancer,
        token,
        total_amount,
        brief_hash,
        arbiter,
        deadline,
        lock_time,
        signers,
        multisig,
    );
    crate::laws::requests::law_create_escrow_keeps(
        s,
        client,
        freelancer,
        token,
        total_amount,
        brief_hash,
        arbiter,
        deadline,
        lock_time,
        signers,
        multisig,
    );
    lemma_one_more(s, t, s.next_escrow_id(), client, freelancer);
}

/// Creating a recurring escrow keeps the lists exact: it is the last entry of the lists of both
/// parties.
pub proof fn law_create_recurring_lists(
    s: Ledger,
    client: Address,
    freelancer: Address,
    token: Address,
    payment_amount: i128,
    interval: RecurringInterval,
    start_time: u64,
    end_date: Option<u64>,
    number_of_payments: Option<u32>,
    brief_hash: [u8; 32],
)
    requires
        s.well_kept(),
        s.listed(),
        s.create_recurring_refusal(
            payment_amount,
            interval,
            start_time,
            end_date,
            number_of_payments,
        ) is None,
        s.next_escrow_id() < u64::MAX,
    ensures
        ({
            let t = s.create_recurring_done(
                client,
                freelancer,
                token,
                payment_amount,
                interval,
                start_time,
                end_date,
                number_of_payments,
                brief_hash,
            );
            let id = s.next_escrow_id();
            &&& t.listed()
            &&& crate::ledger::list_at(t.by_participant, client).last() == id
            &&& crate::ledger::list_at(t.by_participant, freelancer).last() == id
        }),
{
    let t = s.create_recurring_done(
        client,
        freelancer,
        token,
        payment_amount,
        interval,
        start_time,
        end_date,
        number_of_payments,
        brief_hash,
    );
    crate::laws::requests::law_create_recurring_keeps(
        s,
        client,
        freelancer,
        token,
        payment_amount,
        interval,
        start_time,
        end_date,
        number_of_payments,
        brief_hash,
    );
    lemma_one_more(s, t, s.next_escrow_id(), client, freelancer);
}

/// Adding a milestone keeps the lists exact.
pub proof fn law_add_milestone_lists(
    s: Ledger,
    caller: Address,
    id: u64,
    title: Seq<u8>,
    description_hash: [u8; 32],
    amount: i128,
)
    requires
        s.well_kept(),
        s.listed(),
        s.add_milestone_refusal(caller, id, amount) is None,
    ensures
        s.add_milestone_done(caller, id, title, description_hash, amount).listed(),
{
    crate::laws::keeping::law_add_milestone_keeps(s, caller, id, title, description_hash, amount);
    lemma_status_kept(s, s.add_milestone_done(caller, id, title, description_hash, amount));
    lemma_parties_kept(s, s.add_milestone_done(caller, id, title, description_hash, amount));
    lemma_requests_kept(s, s.add_milestone_done(caller, id, title, description_hash, amount));
}

/// Submitting a milestone keeps the lists exact.
pub proof fn law_submit_milestone_lists(
    s: Ledger,
    caller: Address,
    id: u64,
    mid: u32,
)
    requires
        s.well_kept(),
        s.listed(),
        s.submit_milestone_refusal(caller, id, mid) is None,
    ensures
        s.submit_milestone_done(caller, id, mid).listed(),
{
    crate::laws::keeping::law_submit_milestone_keeps(s, caller, id, mid);
    lemma_status_kept(s, s.submit_milestone_done(caller, id, mid));
    lemma_parties_kept(s, s.submit_milestone_done(caller, id, mid));
    lemma_requests_kept(s, s.submit_milestone_done(caller, id, mid));
}

/// Rejecting a milestone keeps the lists exact.
pub proof fn law_reject_milestone_lists(
    s: Ledger,
    caller: Address,
    id: u64,
    mid: u32,
)
    requires
        s.well_kept(),
        s.listed(),
        s.reject_milestone_refusal(caller, id, mid) is None,
    ensures
        s.reject_milestone_done(caller, id, mid).listed(),
{
    crate::laws::keeping::law_reject_milestone_keeps(s, caller, id, mid);
    lemma_status_kept(s, s.reject_milestone_done(caller, id, mid));
    lemma_parties_kept(s, s.reject_milestone_done(caller, id, mid));
    lemma_requests_kept(s, s.reject_milestone_done(caller, id, mid));
}

/// Approving a milestone keeps the lists exact, whether or not it completes the escrow.
pub proof fn law_approve_milestone_lists(
    s: Ledger,
    caller: Address,
    id: u64,
    mid: u32,
)
    requires
        s.well_kept(),
        s.listed(),
        s.approve_milestone_refusal(caller, id, mid) is None,
    ensures
        s.approve_milestone_done(caller, id, mid).listed(),
{
    crate::laws::keeping::law_approve_milestone_keeps(s, caller, id, mid);
    let t = s.approve_milestone_done(caller, id, mid);
    if s.approve_milestone_escrow(caller, id, mid).status == EscrowStatus::Completed {
        lemma_relisted(s, t, EscrowStatus::Active, EscrowStatus::Completed, id);
    } else {
        lemma_status_kept(s, t);
    }
    lemma_parties_kept(s, s.approve_milestone_done(caller, id, mid));
    lemma_requests_kept(s, s.approve_milestone_done(caller, id, mid));
}

/// Releasing the funds of a milestone keeps the lists exact.
pub proof fn law_release_funds_lists(
    s: Ledger,
    caller: Address,
    id: u64,
    mid: u32,
)
    requires
        s.well_kept(),
        s.listed(),
        s.release_funds_refusal(caller, id, mid) is None,
    ensures
        s.release_funds_done(caller, id, mid).listed(),
{
    crate::laws::keeping::law_release_funds_keeps(s, caller, id, mid);
    let t = s.release_funds_done(caller, id, mid);
    assert(s.keeps(id));
    assert(s.milestones.contains_key((id, mid)));
    if s.release_funds_escrow(id, mid).status == EscrowStatus::Completed {
        lemma_relisted(s, t, s.escrows[id].status, EscrowStatus::Completed, id);
    } else {
        lemma_status_kept(s, t);
    }
    lemma_parties_kept(s, s.release_funds_done(caller, id, mid));
    lemma_requests_kept(s, s.release_funds_done(caller, id, mid));
}

/// Storing the milestones of a batch changes neither lists nor headers.
proof fn lemma_adding_lists(
    c: Ledger,
    id: u64,
    first: u32,
    titles: Seq<Text>,
    hashes: Seq<[u8; 32]>,
    amounts: Seq<i128>,
    k: nat,
)
    ensures
        c.adding_milestones(id, first, titles, hashes, amounts, k) == (Ledger {
            milestones: c.adding_milestones(id, first, titles, hashes, amounts, k).milestones,
            calls: c.adding_milestones(id, first, titles, hashes, amounts, k).calls,
            touched: c.adding_milestones(id, first, titles, hashes, amounts, k).touched,
            ..c
        }),
    decreases k,
{
    if k > 0 {
        lemma_adding_lists(c, id, first, titles, hashes, amounts, (k - 1) as nat);
    }
}

/// Adding a batch of milestones keeps the lists exact.
pub proof fn law_batch_add_lists(
    s: Ledger,
    caller: Address,
    id: u64,
    titles: Seq<Text>,
    hashes: Seq<[u8; 32]>,
    amounts: Seq<i128>,
)
    requires
        s.well_kept(),
        s.listed(),
        s.batch_add_refusal(caller, id, titles, hashes, amounts) is None,
    ensures
        s.batch_add_done(caller, id, titles, hashes, amounts).listed(),
{
    crate::laws::keeping::lemma_access_keeps(s, id);
    let meta = s.accessed_escrow(id);
    let reserve = crate::rent::reserve_for(titles.len() as int) as i128;
    let c = s.demanding(caller).accessing(id).charging_reserve(meta.token, caller, reserve);
    lemma_adding_lists(c, id, meta.milestone_count, titles, hashes, amounts, titles.len());
    assert(s.keeps(id));
    lemma_status_kept(s, s.batch_add_done(caller, id, titles, hashes, amounts));
    lemma_parties_kept(s, s.batch_add_done(caller, id, titles, hashes, amounts));
    lemma_requests_kept(s, s.batch_add_done(caller, id, titles, hashes, amounts));
}

/// Cancelling an escrow keeps the lists exact.
pub proof fn law_cancel_escrow_lists(
    s: Ledger,
    caller: Address,
    id: u64,
)
    requires
        s.well_kept(),
        s.listed(),
        s.cancel_escrow_refusal(caller, id) is None,
    ensures
        s.cancel_escrow_done(caller, id).listed(),
{
    crate::laws::requests::law_cancellations_keep(s, caller, id, Seq::empty());
    let t = s.cancel_escrow_done(caller, id);
    lemma_relisted(s, t, EscrowStatus::Active, EscrowStatus::Cancelled, id);
    lemma_parties_kept(s, s.cancel_escrow_done(caller, id));
    lemma_requests_kept(s, s.cancel_escrow_done(caller, id));
}

/// Requesting a cancellation keeps the lists exact.
pub proof fn law_request_cancellation_lists(
    s: Ledger,
    caller: Address,
    id: u64,
    reason: Seq<u8>,
)
    requires
        s.well_kept(),
        s.listed(),
        s.request_cancellation_refusal(caller, id) is None,
    ensures
        s.request_cancellation_done(caller, id, reason).listed(),
{
    crate::laws::requests::law_cancellations_keep(s, caller, id, reason);
    let t = s.request_cancellation_done(caller, id, reason);
    lemma_relisted(s, t, EscrowStatus::Active, EscrowStatus::CancellationPending, id);
    lemma_added(s.cancellations_by_requester, caller, id);
    assert forall|who: Address, x: u64| #[trigger]
        crate::ledger::list_at(t.cancellations_by_requester, who).contains(x) <==> (
        t.cancellations.contains_key(x) && t.cancellations[x].requester == who) by {
        assert(crate::ledger::list_at(s.cancellations_by_requester, who).contains(x) <==> (
        s.cancellations.contains_key(x) && s.cancellations[x].requester == who));
        if who != caller {
            assert(crate::ledger::list_at(t.cancellations_by_requester, who)
                == crate::ledger::list_at(s.cancellations_by_requester, who));
        }
        if x != id {
            assert(t.cancellations.contains_key(x) <==> s.cancellations.contains_key(x));
        }
    }
    lemma_parties_kept(s, s.request_cancellation_done(caller, id, reason));
}

/// Executing a cancellation keeps the lists exact.
pub proof fn law_execute_cancellation_lists(
    s: Ledger,
    id: u64,
)
    requires
        s.well_kept(),
        s.listed(),
        s.execute_cancellation_refusal(id) is None,
    ensures
        s.execute_cancellation_done(id).listed(),
{
    crate::laws::requests::law_cancellations_keep(s, s.contract, id, Seq::empty());
    let t = s.execute_cancellation_done(id);
    lemma_relisted(s, t, s.escrows[id].status, EscrowStatus::Cancelled, id);
    lemma_request_dropped(s, t, id);
    lemma_parties_kept(s, s.execute_cancellation_done(id));
}

/// Disputing a cancellation keeps the lists exact.
pub proof fn law_dispute_cancellation_lists(
    s: Ledger,
    caller: Address,
    id: u64,
)
    requires
        s.well_kept(),
        s.listed(),
        s.dispute_cancellation_refusal(caller, id) is None,
    ensures
        s.dispute_cancellation_done(caller, id).listed(),
{
    crate::laws::requests::law_cancellations_keep(s, caller, id, Seq::empty());
    let t = s.dispute_cancellation_done(caller, id);
    lemma_relisted(s, t, s.escrows[id].status, EscrowStatus::Disputed, id);
    lemma_parties_kept(s, s.dispute_cancellation_done(caller, id));
    lemma_requests_kept(s, s.dispute_cancellation_done(caller, id));
}

/// Raising a dispute keeps the lists exact.
pub proof fn law_raise_dispute_lists(
    s: Ledger,
    caller: Address,
    id: u64,
    milestone_id: Option<u32>,
)
    requires
        s.well_kept(),
        s.listed(),
        s.raise_dispute_refusal(caller, id, milestone_id) is None,
    ensures
        s.raise_dispute_done(caller, id, milestone_id).listed(),
{
    crate::laws::requests::law_raise_dispute_keeps(s, caller, id, milestone_id);
    let t = s.raise_dispute_done(caller, id, milestone_id);
    lemma_relisted(s, t, EscrowStatus::Active, EscrowStatus::Disputed, id);
    lemma_parties_kept(s, s.raise_dispute_done(caller, id, milestone_id));
    lemma_requests_kept(s, s.raise_dispute_done(caller, id, milestone_id));
}

/// Resolving a dispute keeps the lists exact.
pub proof fn law_resolve_dispute_lists(
    s: Ledger,
    caller: Address,
    id: u64,
    client_amount: i128,
    freelancer_amount: i128,
)
    requires
        s.well_kept(),
        s.listed(),
        s.resolve_dispute_refusal(caller, id, client_amount, freelancer_amount) is None,
    ensures
        s.resolve_dispute_done(caller, id, client_amount, freelancer_amount).listed(),
{
    crate::laws::requests::law_resolve_dispute_keeps(s, caller, id, client_amount, freelancer_amount);
    let t = s.resolve_dispute_done(caller, id, client_amount, freelancer_amount);
    lemma_relisted(s, t, EscrowStatus::Disputed, EscrowStatus::Completed, id);
    lemma_parties_kept(s, s.resolve_dispute_done(caller, id, client_amount, freelancer_amount));
    lemma_requests_kept(s, s.resolve_dispute_done(caller, id, client_amount, freelancer_amount));
}

/// Resolving a dispute by the oracle's payload keeps the lists exact.
pub proof fn law_oracle_resolve_lists(
    s: Ledger,
    id: u64,
    payload: OracleResolutionPayload,
    grace_period_seconds: u64,
)
    requires
        s.well_kept(),
        s.listed(),
        s.oracle_resolve_refusal(id, payload, grace_period_seconds) is None,
    ensures
        s.oracle_resolve_done(id, payload).listed(),
{
    crate::laws::requests::law_oracle_resolve_keeps(s, id, payload, grace_period_seconds);
    let t = s.oracle_resolve_done(id, payload);
    lemma_relisted(s, t, EscrowStatus::Disputed, EscrowStatus::Completed, id);
    lemma_parties_kept(s, s.oracle_resolve_done(id, payload));
    lemma_requests_kept(s, s.oracle_resolve_done(id, payload));
}

/// Starting a timelock keeps the lists exact.
pub proof fn law_start_timelock_lists(
    s: Ledger,
    caller: Address,
    id: u64,
    duration: u64,
)
    requires
        s.well_kept(),
        s.listed(),
        s.start_timelock_refusal(caller, id, duration) is None,
    ensures
        s.start_timelock_done(caller, id, duration).listed(),
{
    crate::laws::requests::law_locks_keep(s, caller, id, duration);
    lemma_status_kept(s, s.start_timelock_done(caller, id, duration));
    lemma_parties_kept(s, s.start_timelock_done(caller, id, duration));
    lemma_requests_kept(s, s.start_timelock_done(caller, id, duration));
}

/// Moving a lock time keeps the lists exact.
pub proof fn law_extend_lock_lists(
    s: Ledger,
    caller: Address,
    id: u64,
    new_lock_time: u64,
)
    requires
        s.well_kept(),
        s.listed(),
        s.extend_lock_refusal(caller, id, new_lock_time) is None,
    ensures
        s.extend_lock_done(caller, id, new_lock_time).listed(),
{
    crate::laws::requests::law_locks_keep(s, caller, id, new_lock_time);
    lemma_status_kept(s, s.extend_lock_done(caller, id, new_lock_time));
    lemma_parties_kept(s, s.extend_lock_done(caller, id, new_lock_time));
    lemma_requests_kept(s, s.extend_lock_done(caller, id, new_lock_time));
}

/// Topping up the rent reserve keeps the lists exact.
pub proof fn law_top_up_lists(
    s: Ledger,
    caller: Address,
    id: u64,
    periods: u64,
)
    requires
        s.well_kept(),
        s.listed(),
        s.top_up_refusal(caller, id, periods) is None,
    ensures
        s.top_up_done(caller, id, periods).listed(),
{
    crate::laws::requests::law_top_up_keeps(s, caller, id, periods);
    lemma_status_kept(s, s.top_up_done(caller, id, periods));
    lemma_parties_kept(s, s.top_up_done(caller, id, periods));
    lemma_requests_kept(s, s.top_up_done(caller, id, periods));
}

/// Pausing a schedule keeps the lists exact.
pub proof fn law_pause_recurring_lists(
    s: Ledger,
    caller: Address,
    id: u64,
)
    requires
        s.well_kept(),
        s.listed(),
        s.schedule_refusal(caller, id) is None,
    ensures
        s.pause_recurring_done(caller, id).listed(),
{
    crate::laws::requests::law_schedule_changes_keep(s, caller, id);
    lemma_status_kept(s, s.pause_recurring_done(caller, id));
    lemma_parties_kept(s, s.pause_recurring_done(caller, id));
    lemma_requests_kept(s, s.pause_recurring_done(caller, id));
}

/// Resuming a schedule keeps the lists exact.
pub proof fn law_resume_recurring_lists(
    s: Ledger,
    caller: Address,
    id: u64,
)
    requires
        s.well_kept(),
        s.listed(),
        s.schedule_refusal(caller, id) is None,
    ensures
        s.resume_recurring_done(caller, id).listed(),
{
    crate::laws::requests::law_schedule_changes_keep(s, caller, id);
    lemma_status_kept(s, s.resume_recurring_done(caller, id));
    lemma_parties_kept(s, s.resume_recurring_done(caller, id));
    lemma_requests_kept(s, s.resume_recurring_done(caller, id));
}

/// Finalizing a slash keeps the lists exact.
pub proof fn law_finalize_slash_lists(
    s: Ledger,
    id: u64,
)
    requires
        s.well_kept(),
        s.listed(),
        s.finalize_slash_refusal(id) is None,
    ensures
        s.finalize_slash_done(id).listed(),
{
    crate::laws::requests::law_slashes_keep(s, s.contract, id, true);
    lemma_status_kept(s, s.finalize_slash_done(id));
    lemma_parties_kept(s, s.finalize_slash_done(id));
    lemma_requests_kept(s, s.finalize_slash_done(id));
}

/// Disputing a slash keeps the lists exact.
pub proof fn law_dispute_slash_lists(
    s: Ledger,
    caller: Address,
    id: u64,
)
    requires
        s.well_kept(),
        s.listed(),
        s.dispute_slash_refusal(caller, id) is None,
    ensures
        s.dispute_slash_done(caller, id).listed(),
{
    crate::laws::requests::law_slashes_keep(s, caller, id, true);
    lemma_status_kept(s, s.dispute_slash_done(caller, id));
    lemma_parties_kept(s, s.dispute_slash_done(caller, id));
    lemma_requests_kept(s, s.dispute_slash_done(caller, id));
}

/// Resolving a dispute over a slash keeps the lists exact.
pub proof fn law_resolve_slash_lists(
    s: Ledger,
    caller: Address,
    id: u64,
    upheld: bool,
)
    requires
        s.well_kept(),
        s.listed(),
        s.resolve_slash_refusal(caller, id) is None,
    ensures
        s.resolve_slash_done(caller, id, upheld).listed(),
{
    crate::laws::requests::law_slashes_keep(s, caller, id, upheld);
    lemma_status_kept(s, s.resolve_slash_done(caller, id, upheld));
    lemma_parties_kept(s, s.resolve_slash_done(caller, id, upheld));
    lemma_requests_kept(s, s.resolve_slash_done(caller, id, upheld));
}

/// A request that is gone, and from its requester's list, too, keeps the lists by requester exact.
proof fn lemma_request_dropped(s: Ledger, t: Ledger, id: u64)
    requires
        s.requests_listed(),
        s.cancellations.contains_key(id),
        t.cancellations_by_requester == crate::ledger::index_dropped(
            s.cancellations_by_requester,
            s.cancellations[id].requester,
            id,
        ),
        t.cancellations == s.cancellations.remove(id),
    ensures
        t.requests_listed(),
{
    let requester = s.cancellations[id].requester;
    lemma_dropped(s.cancellations_by_requester, requester, id);
    assert forall|who: Address, x: u64| #[trigger]
        crate::ledger::list_at(t.cancellations_by_requester, who).contains(x) <==> (
        t.cancellations.contains_key(x) && t.cancellations[x].requester == who) by {
        assert(crate::ledger::list_at(s.cancellations_by_requester, who).contains(x) <==> (
        s.cancellations.contains_key(x) && s.cancellations[x].requester == who));
        if who != requester {
            assert(crate::ledger::list_at(t.cancellations_by_requester, who)
                == crate::ledger::list_at(s.cancellations_by_requester, who));
        }
    }
}

/// Approving a batch of milestones keeps the lists exact, whether or not it completes the escrow.
pub proof fn law_batch_approve_lists(s: Ledger, caller: Address, id: u64, mids: Seq<u32>)
    requires
        s.well_kept(),
        s.listed(),
        s.batch_approve_refusal(caller, id, mids) is None,
    ensures
        s.batch_approve_done(caller, id, mids).listed(),
{
    crate::laws::keeping::law_batch_approve_keeps(s, caller, id, mids);
    crate::laws::keeping::lemma_access_keeps(s, id);
    assert(s.keeps(id));
    crate::batch::lemma_selection_accepted(
        s.milestones,
        id,
        mids,
        crate::types::MS_SUBMITTED,
    );
    let meta = s.accessed_escrow(id);
    let open = crate::storage::timelock_open(meta.timelock, s.now);
    let c = s.demanding(caller).accessing(id).announcing_lock(
        id,
        meta.lock_time,
    ).announcing_timelock(id, meta.timelock);
    crate::laws::keeping::lemma_approving(
        c,
        id,
        meta,
        caller,
        meta.milestone_count,
        mids,
        open,
        mids.len(),
    );
    let t = s.batch_approve_done(caller, id, mids);
    if t.escrows[id].status == EscrowStatus::Completed {
        lemma_relisted(s, t, EscrowStatus::Active, EscrowStatus::Completed, id);
    } else {
        lemma_status_kept(s, t);
    }
    lemma_parties_kept(s, t);
    lemma_requests_kept(s, t);
}

/// Releasing the funds of a batch of milestones keeps the lists exact, whether or not it completes
/// the escrow.
pub proof fn law_batch_release_lists(s: Ledger, caller: Address, id: u64, mids: Seq<u32>)
    requires
        s.well_kept(),
        s.listed(),
        s.batch_release_refusal(caller, id, mids) is None,
    ensures
        s.batch_release_done(caller, id, mids).listed(),
{
    crate::laws::keeping::law_batch_release_keeps(s, caller, id, mids);
    crate::laws::keeping::lemma_access_keeps(s, id);
    assert(s.keeps(id));
    crate::batch::lemma_selection_accepted(s.milestones, id, mids, crate::types::MS_APPROVED);
    let meta = s.accessed_escrow(id);
    crate::laws::keeping::lemma_selected_positive(s.milestones, id, meta.milestone_count, mids);
    let c = s.touching_instance().demanding(caller).accessing(id).announcing_lock(
        id,
        meta.lock_time,
    );
    crate::laws::keeping::lemma_releasing(
        c,
        id,
        meta.freelancer,
        meta.milestone_count,
        mids,
        mids.len(),
    );
    let t = s.batch_release_done(caller, id, mids);
    if t.escrows[id].status == EscrowStatus::Completed {
        lemma_relisted(s, t, s.escrows[id].status, EscrowStatus::Completed, id);
    } else {
        lemma_status_kept(s, t);
    }
    lemma_parties_kept(s, t);
    lemma_requests_kept(s, t);
}

/// Processing recurring payments keeps the lists exact, whether or not the schedule is over with
/// them.
pub proof fn law_process_recurring_lists(s: Ledger, id: u64)
    requires
        s.well_kept(),
        s.listed(),
        s.process_recurring_refusal(id) is None,
    ensures
        s.process_recurring_done(id).listed(),
{
    crate::laws::requests::law_process_recurring_keeps(s, id);
    crate::laws::keeping::lemma_access_keeps(s, id);
    assert(s.keeps(id));
    let meta = s.accessed_escrow(id);
    let config = s.recurring[id];
    let n = crate::recurring::due_payments(config, s.now);
    crate::recurring::lemma_due(config, s.now, 0);
    crate::recurring::lemma_payments_accepted(meta, config, n, n);
    let c = s.opening_schedule(id);
    crate::laws::requests::lemma_paying(c, id, meta, config, n as nat);
    let t = s.process_recurring_done(id);
    if t.escrows[id].status == EscrowStatus::Completed {
        lemma_relisted(s, t, EscrowStatus::Active, EscrowStatus::Completed, id);
    } else {
        lemma_status_kept(s, t);
    }
    lemma_parties_kept(s, t);
    lemma_requests_kept(s, t);
}

/// Cancelling a recurring escrow keeps the lists exact.
pub proof fn law_cancel_recurring_lists(s: Ledger, caller: Address, id: u64)
    requires
        s.well_kept(),
        s.listed(),
        s.cancel_recurring_refusal(caller, id) is None,
    ensures
        s.cancel_recurring_done(caller, id).listed(),
{
    crate::laws::requests::law_schedule_changes_keep(s, caller, id);
    crate::laws::keeping::lemma_access_keeps(s, id);
    assert(s.keeps(id));
    let t = s.cancel_recurring_done(caller, id);
    lemma_relisted(s, t, EscrowStatus::Active, EscrowStatus::Cancelled, id);
    lemma_parties_kept(s, t);
    lemma_requests_kept(s, t);
}

/// Collecting rent keeps the lists exact. An escrow that is wound up with it leaves them all.
pub proof fn law_collect_rent_lists(s: Ledger, id: u64)
    requires
        s.well_kept(),
        s.listed(),
        s.collect_refusal(id) is None,
    ensures
        s.collected(id).listed(),
{
    crate::laws::requests::law_collect_rent_keeps(s, id);
    assert(s.keeps(id));
    let t = s.collected(id);
    let meta = s.escrows[id];
    if s.rent_has_expired(s.after_rent(meta)) {
        lemma_wound_up(s, t, id);
    } else {
        lemma_status_kept(s, t);
        lemma_parties_kept(s, t);
        lemma_requests_kept(s, t);
    }
}

/// An escrow that is gone, and from the lists, too, keeps the lists exact.
proof fn lemma_wound_up(s: Ledger, t: Ledger, id: u64)
    requires
        s.listed(),
        s.escrows.contains_key(id),
        t.escrows == s.escrows.remove(id),
        t.by_status == crate::ledger::index_dropped(s.by_status, s.escrows[id].status, id),
        t.by_participant == crate::ledger::index_dropped(
            crate::ledger::index_dropped(s.by_participant, s.escrows[id].client, id),
            s.escrows[id].freelancer,
            id,
        ),
        t.cancellations == s.cancellations.remove(id),
        t.cancellations_by_requester == if s.cancellations.contains_key(id) {
            crate::ledger::index_dropped(
                s.cancellations_by_requester,
                s.cancellations[id].requester,
                id,
            )
        } else {
            s.cancellations_by_requester
        },
    ensures
        t.listed(),
{
    let meta = s.escrows[id];
    let once = crate::ledger::index_dropped(s.by_participant, meta.client, id);
    lemma_dropped(s.by_status, meta.status, id);
    lemma_dropped(s.by_participant, meta.client, id);
    lemma_dropped(once, meta.freelancer, id);
    if s.cancellations.contains_key(id) {
        lemma_request_dropped(s, t, id);
    } else {
        lemma_requests_kept(s, t);
    }
    assert forall|st: EscrowStatus, x: u64| #[trigger]
        crate::ledger::list_at(t.by_status, st).contains(x) <==> (t.escrows.contains_key(x)
            && t.escrows[x].status == st) by {
        assert(crate::ledger::list_at(s.by_status, st).contains(x) <==> (s.escrows.contains_key(x)
            && s.escrows[x].status == st));
        if st != meta.status {
            assert(crate::ledger::list_at(t.by_status, st) == crate::ledger::list_at(
                s.by_status,
                st,
            ));
        }
    }
    assert forall|st: EscrowStatus| #[trigger]
        crate::ledger::list_at(t.by_status, st).no_duplicates() by {
        assert(crate::ledger::list_at(s.by_status, st).no_duplicates());
        if st != meta.status {
            assert(crate::ledger::list_at(t.by_status, st) == crate::ledger::list_at(
                s.by_status,
                st,
            ));
        }
    }
    assert forall|who: Address, x: u64| #[trigger]
        crate::ledger::list_at(t.by_participant, who).contains(x) <==> (t.escrows.contains_key(x)
            && crate::disputes::is_party(t.escrows[x], who)) by {
        assert(crate::ledger::list_at(s.by_participant, who).contains(x) <==> (
        s.escrows.contains_key(x) && crate::disputes::is_party(s.escrows[x], who)));
        if who != meta.client {
            assert(crate::ledger::list_at(once, who) == crate::ledger::list_at(
                s.by_participant,
                who,
            ));
        } else {
            assert(crate::ledger::list_at(once, meta.client).contains(x) <==>
                crate::ledger::list_at(s.by_participant, meta.client).contains(x) && x != id);
        }
        if who != meta.freelancer {
            assert(crate::ledger::list_at(t.by_participant, who) == crate::ledger::list_at(
                once,
                who,
            ));
        }
    }
}

/// The admin's settings, an upgrade, updates of reputations and of bridged transfers, and looks at
/// escrows leave the lists exact.
pub proof fn law_settings_list(
    s: Ledger,
    caller: Address,
    admin: Address,
    paused: bool,
    bytes: [u8; 32],
    info: WrappedTokenInfoView,
    transfer_id: Seq<u8>,
    bridge: BridgeProtocol,
    confirmations: u32,
    required: u32,
    completed: bool,
    disputed: bool,
    volume: i128,
    id: u64,
)
    requires
        s.listed(),
    ensures
        s.initialize_done(admin).listed(),
        s.pause_done(caller, paused).listed(),
        s.upgrade_done(caller, bytes).listed(),
        s.register_token_done(caller, info).listed(),
        s.confirm_bridge_done(transfer_id, bridge, confirmations, required).listed(),
        s.updating_reputation(caller, completed, disputed, volume).listed(),
        s.well_kept() && s.access_refusal(id) is None ==> s.accessing(id).listed(),
{
    lemma_unchanged_lists(s, s.initialize_done(admin));
    lemma_unchanged_lists(s, s.pause_done(caller, paused));
    lemma_unchanged_lists(s, s.upgrade_done(caller, bytes));
    lemma_unchanged_lists(s, s.register_token_done(caller, info));
    lemma_unchanged_lists(
        s,
        s.confirm_bridge_done(transfer_id, bridge, confirmations, required),
    );
    lemma_unchanged_lists(s, s.updating_reputation(caller, completed, disputed, volume));
    if s.well_kept() && s.access_refusal(id) is None {
        crate::laws::keeping::lemma_access_keeps(s, id);
        assert(s.keeps(id));
        lemma_status_kept(s, s.accessing(id));
        lemma_parties_kept(s, s.accessing(id));
        lemma_requests_kept(s, s.accessing(id));
    }
}

/// Whether the lists are exact depends on them, on the escrows and on the requests alone.
proof fn lemma_unchanged_lists(s: Ledger, t: Ledger)
    requires
        s.listed(),
        t.escrows == s.escrows,
        t.cancellations == s.cancellations,
        t.by_status == s.by_status,
        t.by_participant == s.by_participant,
        t.cancellations_by_requester == s.cancellations_by_requester,
    ensures
        t.listed(),
{
    lemma_status_kept(s, t);
    lemma_parties_kept(s, t);
    lemma_requests_kept(s, t);
}

/// A page holds the entries from its offset on, as many as there are, as were asked for, and as
/// a page may hold.
pub proof fn law_pages(ids: Seq<u64>, offset: u32, limit: u32)
    ensures
        crate::index::page_of(ids, offset, limit).len() <= 50,
        crate::index::page_of(ids, offset, limit).len() <= limit,
        forall|i: int|
            0 <= i < crate::index::page_of(ids, offset, limit).len()
                ==> #[trigger] crate::index::page_of(ids, offset, limit)[i] == ids[offset + i],
        crate::index::page_of(ids, offset, limit).len() < limit && crate::index::page_of(
            ids,
            offset,
            limit,
        ).len() < 50 ==> offset + crate::index::page_of(ids, offset, limit).len() >= ids.len(),
{
}

} // verus!
