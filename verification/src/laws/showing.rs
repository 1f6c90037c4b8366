//! What the views show, which lists an escrow is on and in what place, which entries are kept
//! alive, and what is announced on the way.
use vstd::prelude::*;

use crate::laws::accounts;
use crate::ledger::{EntryKey, Event, HostCall, Ledger};
use crate::types::{
    Address, CancellationRequestView, DataKey, EscrowMetaView, EscrowStateView, EscrowStatus,
    MilestoneView, MultisigConfigView, PackedDataKey, RecurringInterval, RecurringPaymentConfig,
    ReputationRecord, SlashRecordView,
};

verus! {

// ---------------------------------------------------------------------------
// Views
// ---------------------------------------------------------------------------

/// An escrow is shown as it is on record, with its milestones in order. Those who approve are the
/// ones that its policy names or, without a policy, its signers.
pub proof fn law_escrow_is_shown(s: Ledger, id: u64, i: int)
    requires
        s.well_kept(),
        s.get_escrow_refusal(id) is None,
        0 <= i < s.escrows[id].milestone_count,
    ensures
        ({
            let meta = s.escrows[id];
            let state = crate::views::state_of(s.milestones, id, s.accessed_escrow(id));
            &&& state.milestones.len() == meta.milestone_count
            &&& s.milestones.contains_key((id, i as u32))
            &&& state.milestones[i] == s.milestones[(id, i as u32)]
        }),
{
    accounts::law_access(s, id, s.contract, s.contract);
}

/// The header of an escrow is shown as it is on record.
pub proof fn law_header_is_shown(s: Ledger, id: u64)
    requires
        s.well_kept(),
        s.get_escrow_refusal(id) is None,
    ensures
        ({
            let meta = s.escrows[id];
            let state = crate::views::state_of(s.milestones, id, s.accessed_escrow(id));
            &&& meta.multisig.approvers.len() > 0 ==> state.multisig_approvers
                == meta.multisig.approvers
            &&& meta.multisig.approvers.len() == 0 ==> state.multisig_approvers
                == meta.buyer_signers
            &&& state == (EscrowStateView {
                escrow_id: id,
                client: meta.client,
                freelancer: meta.freelancer,
                token: meta.token,
                total_amount: meta.total_amount,
                remaining_balance: meta.remaining_balance,
                status: meta.status,
                milestones: state.milestones,
                arbiter: meta.arbiter,
                buyer_signers: meta.buyer_signers,
                created_at: meta.created_at,
                deadline: meta.deadline,
                lock_time: meta.lock_time,
                lock_time_extension: meta.lock_time_extension,
                timelock: meta.timelock,
                brief_hash: meta.brief_hash,
                multisig_approvers: state.multisig_approvers,
                multisig_weights: meta.multisig.weights,
                multisig_threshold: meta.multisig.threshold,
            })
        }),
{
    accounts::law_access(s, id, s.contract, s.contract);
    assert(s.keeps(id));
}

/// The slash records of a user are those of the listed escrows that have one, in order.
pub proof fn law_records_are_shown(slashes: Map<u64, SlashRecordView>, ids: Seq<u64>)
    ensures
        crate::views::records_of(slashes, ids) == ids.filter(
            |id: u64| slashes.contains_key(id),
        ).map_values(|id: u64| slashes[id]),
    decreases ids.len(),
{
    reveal(Seq::filter);
    let there = |id: u64| slashes.contains_key(id);
    let record = |id: u64| slashes[id];
    if ids.len() > 0 {
        law_records_are_shown(slashes, ids.drop_last());
        let before = ids.drop_last().filter(there);
        if slashes.contains_key(ids.last()) {
            assert(before.push(ids.last()).map_values(record) =~= before.map_values(record).push(
                slashes[ids.last()],
            ));
        }
    } else {
        assert(ids.filter(there).map_values(record) =~= Seq::empty());
    }
}

/// The reason of a slash and the title of a recurring payment are these words.
pub proof fn law_wording(i: int)
    ensures
        crate::cancellation::cancellation_reason().len() == "Escrow cancellation"@.len(),
        0 <= i < "Escrow cancellation"@.len() ==> crate::cancellation::cancellation_reason()[i]
            as char == "Escrow cancellation"@[i],
        crate::recurring::recurring_title().len() == "Recurring payment"@.len(),
        0 <= i < "Recurring payment"@.len() ==> crate::recurring::recurring_title()[i] as char
            == "Recurring payment"@[i],
{
    reveal_strlit("Escrow cancellation");
    reveal_strlit("Recurring payment");
}

// ---------------------------------------------------------------------------
// Lists
// ---------------------------------------------------------------------------

/// A list without an escrow is what is left when every occurrence of it is taken out.
pub proof fn law_dropping(ids: Seq<u64>, id: u64)
    ensures
        ids.len() == 0 ==> crate::ledger::without(ids, id) == ids,
        ids.len() > 0 && ids.last() == id ==> crate::ledger::without(ids, id)
            == crate::ledger::without(ids.drop_last(), id),
        ids.len() > 0 && ids.last() != id ==> crate::ledger::without(ids, id)
            == crate::ledger::without(ids.drop_last(), id).push(ids.last()),
{
    reveal(Seq::filter);
    if ids.len() == 0 {
        assert(crate::ledger::without(ids, id) =~= ids);
    }
}

/// An escrow is listed at the end, under one key. One that is dropped leaves the others of its
/// list in order.
pub proof fn law_lists<K>(index: Map<K, Seq<u64>>, key: K, other: K, id: u64)
    ensures
        index.contains_key(key) ==> crate::ledger::list_at(index, key) == index[key],
        !index.contains_key(key) ==> crate::ledger::list_at(index, key).len() == 0,
        ({
            let added = crate::ledger::index_added(index, key, id);
            let dropped = crate::ledger::index_dropped(index, key, id);
            let list = crate::ledger::list_at(index, key);
            &&& crate::ledger::list_at(added, key) == list.push(id)
            &&& crate::ledger::list_at(dropped, key) == crate::ledger::without(list, id)
            &&& other != key ==> {
                &&& crate::ledger::list_at(added, other) == crate::ledger::list_at(index, other)
                &&& crate::ledger::list_at(dropped, other) == crate::ledger::list_at(index, other)
            }
        }),
{
    law_dropping(Seq::empty(), id);
}

/// Whether the lists of `t` are those of `s` with a new escrow at the end of the list of active
/// escrows and of the lists of its two parties, and nothing else.
pub open spec fn newly_listed(
    s: Ledger,
    t: Ledger,
    id: u64,
    client: Address,
    freelancer: Address,
    who: Address,
    status: EscrowStatus,
) -> bool {
    let of = crate::ledger::list_at(s.by_participant, who);
    let with = crate::ledger::list_at(s.by_status, status);
    &&& crate::ledger::list_at(t.by_participant, who) == (if who == client && who == freelancer {
        of.push(id).push(id)
    } else if who == client || who == freelancer {
        of.push(id)
    } else {
        of
    })
    &&& crate::ledger::list_at(t.by_status, status) == (if status == EscrowStatus::Active {
        with.push(id)
    } else {
        with
    })
}

/// A new escrow is last on the list of active escrows, and last on the lists of its two parties.
/// No other list changes.
pub proof fn law_creation_is_listed(
    s: Ledger,
    client: Address,
    freelancer: Address,
    token: Address,
    total_amount: i128,
    brief_hash: [u8; 32],
    arbiter: Option<Address>,
    deadline: Option<u64>,
    lock_time: Option<u64>,
    signers: Seq<Address>,
    multisig: MultisigConfigView,
    who: Address,
    status: EscrowStatus,
)
    ensures
        ({
            let t = s.create_escrow_done(
                client,
                freelancer,
                token,
                total_amount,
                brief_hash,
                arbiter,
                deadline,
                lock_time,
                signers,
                multisig,
            );
            newly_listed(s, t, s.next_escrow_id(), client, freelancer, who, status)
        }),
{
}

/// A new recurring escrow is listed like any other.
pub proof fn law_schedule_creation_is_listed(
    s: Ledger,
    client: Address,
    freelancer: Address,
    token: Address,
    payment_amount: i128,
    interval: RecurringInterval,
    start_time: u64,
    end_date: Option<u64>,
    number_of_payments: Option<u32>,
    brief_hash: [u8; 32],
    who: Address,
    status: EscrowStatus,
)
    ensures
        ({
            let t = s.create_recurring_done(
                client,
                freelancer,
                token,
                payment_amount,
                interval,
                start_time,
                end_date,
                number_of_payments,
                brief_hash,
            );
            newly_listed(s, t, s.next_escrow_id(), client, freelancer, who, status)
        }),
{
}

/// An escrow whose cancellation is asked for is last on the list of its requester, and leaves it
/// when the cancellation is executed. It is then last on the list of slashes.
pub proof fn law_cancellation_is_listed(
    s: Ledger,
    caller: Address,
    id: u64,
    reason: Seq<u8>,
    who: Address,
)
    requires
        s.well_kept(),
    ensures
        ({
            let t = s.request_cancellation_done(caller, id, reason);
            let of = crate::ledger::list_at(s.cancellations_by_requester, who);
            crate::ledger::list_at(t.cancellations_by_requester, who) == (if who == caller {
                of.push(id)
            } else {
                of
            })
        }),
        s.execute_cancellation_refusal(id) is None ==> {
            let t = s.execute_cancellation_done(id);
            let requester = s.cancellations[id].requester;
            let of = crate::ledger::list_at(s.cancellations_by_requester, who);
            let held = crate::ledger::list_at(s.slashes_by_address, who);
            &&& crate::ledger::list_at(t.cancellations_by_requester, who) == (if who
                == requester {
                crate::ledger::without(of, id)
            } else {
                of
            })
            &&& crate::ledger::list_at(t.slashes_by_address, who) == (if who == requester {
                held.push(id)
            } else {
                held
            })
        },
{
    law_dropping(Seq::empty(), id);
    if s.execute_cancellation_refusal(id) is None {
        accounts::law_access(s, id, who, who);
    }
}

/// An escrow whose status changes is last on the list of its new status, and the others keep
/// their places.
pub proof fn law_escrow_is_relisted(
    s: Ledger,
    from: EscrowStatus,
    to: EscrowStatus,
    id: u64,
    status: EscrowStatus,
)
    requires
        from != to,
    ensures
        ({
            let t = s.relisting(from, to, id);
            let list = crate::ledger::list_at(s.by_status, status);
            &&& crate::ledger::list_at(t.by_status, status) == (if status == to {
                list.push(id)
            } else if status == from {
                crate::ledger::without(list, id)
            } else {
                list
            })
            &&& t == (Ledger { by_status: t.by_status, ..s })
        }),
{
    law_dropping(Seq::empty(), id);
}

// ---------------------------------------------------------------------------
// Entries
// ---------------------------------------------------------------------------

/// An entry is found under its key if and only if it is on record.
pub proof fn law_entries_are_found(s: Ledger, id: u64, mid: u32, who: Address, st: EscrowStatus)
    ensures
        s.persistent_has(EntryKey::Packed(PackedDataKey::EscrowMeta(id)))
            <==> s.escrows.contains_key(id),
        s.persistent_has(EntryKey::Packed(PackedDataKey::Milestone(id, mid)))
            <==> s.milestones.contains_key((id, mid)),
        s.persistent_has(EntryKey::Packed(PackedDataKey::RecurringConfig(id)))
            <==> s.recurring.contains_key(id),
        s.persistent_has(EntryKey::Data(DataKey::Reputation(who)))
            <==> s.reputations.contains_key(who),
        s.persistent_has(EntryKey::Data(DataKey::CancellationRequest(id)))
            <==> s.cancellations.contains_key(id),
        s.persistent_has(EntryKey::Data(DataKey::SlashRecord(id)))
            <==> s.slashes.contains_key(id),
        s.persistent_has(EntryKey::Data(DataKey::EscrowsByParticipant(who)))
            <==> s.by_participant.contains_key(who),
        s.persistent_has(EntryKey::Data(DataKey::EscrowsByStatus(st)))
            <==> s.by_status.contains_key(st),
        s.persistent_has(EntryKey::Data(DataKey::CancellationsByRequester(who)))
            <==> s.cancellations_by_requester.contains_key(who),
        s.persistent_has(EntryKey::Data(DataKey::SlashsByAddress(who)))
            <==> s.slashes_by_address.contains_key(who),
        s.instance_has(DataKey::Admin) <==> s.admin is Some,
        s.instance_has(DataKey::EscrowCounter) <==> s.escrow_counter is Some,
        s.instance_has(DataKey::Paused) <==> s.paused is Some,
        s.instance_has(DataKey::OracleAddress) <==> s.oracle is Some,
        s.instance_has(DataKey::FallbackOracleAddress) <==> s.fallback_oracle is Some,
        s.instance_has(DataKey::WormholeBridge) <==> s.wormhole_bridge is Some,
        s.instance_has(DataKey::TrustedOracleKey) <==> s.trusted_oracle_key is Some,
{
}

/// What is stored is on record under its own number, is kept alive by that, and nothing else
/// changes.
pub proof fn law_entries_are_stored(
    s: Ledger,
    id: u64,
    meta: EscrowMetaView,
    m: MilestoneView,
    config: RecurringPaymentConfig,
    request: CancellationRequestView,
    slash: SlashRecordView,
    record: ReputationRecord,
)
    ensures
        s.with_escrow(meta) == (Ledger {
            escrows: s.escrows.insert(meta.escrow_id, meta),
            touched: s.touched.insert(EntryKey::Packed(PackedDataKey::EscrowMeta(meta.escrow_id))),
            ..s
        }),
        s.with_milestone(id, m) == (Ledger {
            milestones: s.milestones.insert((id, m.id), m),
            touched: s.touched.insert(EntryKey::Packed(PackedDataKey::Milestone(id, m.id))),
            ..s
        }),
        s.with_recurring(id, config) == (Ledger {
            recurring: s.recurring.insert(id, config),
            touched: s.touched.insert(EntryKey::Packed(PackedDataKey::RecurringConfig(id))),
            ..s
        }),
        s.with_cancellation(request) == (Ledger {
            cancellations: s.cancellations.insert(request.escrow_id, request),
            touched: s.touched.insert(
                EntryKey::Data(DataKey::CancellationRequest(request.escrow_id)),
            ),
            ..s
        }),
        s.with_slash(slash) == (Ledger {
            slashes: s.slashes.insert(slash.escrow_id, slash),
            touched: s.touched.insert(EntryKey::Data(DataKey::SlashRecord(slash.escrow_id))),
            ..s
        }),
        s.with_reputation(record) == (Ledger {
            reputations: s.reputations.insert(record.address, record),
            touched: s.touched.insert(EntryKey::Data(DataKey::Reputation(record.address))),
            ..s
        }),
{
}

/// A look at an entry keeps that entry alive and changes nothing else. There is nothing to keep
/// alive of somebody of whom nothing is on record.
pub proof fn law_entries_are_kept_alive(s: Ledger, id: u64, mid: u32, who: Address)
    ensures
        s.touching_escrow(id) == (Ledger {
            touched: s.touched.insert(EntryKey::Packed(PackedDataKey::EscrowMeta(id))),
            ..s
        }),
        s.touching_milestone(id, mid) == (Ledger {
            touched: s.touched.insert(EntryKey::Packed(PackedDataKey::Milestone(id, mid))),
            ..s
        }),
        s.touching_recurring(id) == (Ledger {
            touched: s.touched.insert(EntryKey::Packed(PackedDataKey::RecurringConfig(id))),
            ..s
        }),
        s.touching_cancellation(id) == (Ledger {
            touched: s.touched.insert(EntryKey::Data(DataKey::CancellationRequest(id))),
            ..s
        }),
        s.touching_slash(id) == (Ledger {
            touched: s.touched.insert(EntryKey::Data(DataKey::SlashRecord(id))),
            ..s
        }),
        s.reputations.contains_key(who) ==> s.touching_reputation(who) == (Ledger {
            touched: s.touched.insert(EntryKey::Data(DataKey::Reputation(who))),
            ..s
        }),
        !s.reputations.contains_key(who) ==> s.touching_reputation(who) == s,
        s.touching_instance() == (Ledger { instance_touched: true, ..s }),
{
}

/// A look at an escrow keeps each of its milestones alive, and changes nothing else.
pub proof fn law_milestones_are_kept_alive(s: Ledger, id: u64, count: u32, key: EntryKey)
    ensures
        ({
            let t = s.touching_milestones(id, count);
            &&& t.touched.contains(key) <==> s.touched.contains(key) || (match key {
                EntryKey::Packed(PackedDataKey::Milestone(e, mid)) => e == id && mid < count,
                _ => false,
            })
            &&& t == (Ledger { touched: t.touched, ..s })
        }),
    decreases count,
{
    if count > 0 {
        let last = (count - 1) as u32;
        law_milestones_are_kept_alive(s, id, last, key);
    }
}

/// A look at the slashes of a user keeps those records alive that there are, and changes nothing
/// else.
pub proof fn law_slashes_are_kept_alive(s: Ledger, ids: Seq<u64>, key: EntryKey)
    ensures
        ({
            let t = s.touching_slashes(ids);
            &&& t.touched.contains(key) <==> s.touched.contains(key) || (exists|i: int|
                0 <= i < ids.len() && s.slashes.contains_key(#[trigger] ids[i]) && key
                    == EntryKey::Data(DataKey::SlashRecord(ids[i])))
            &&& t == (Ledger { touched: t.touched, ..s })
        }),
    decreases ids.len(),
{
    if ids.len() > 0 {
        let before = ids.drop_last();
        law_slashes_are_kept_alive(s, before, key);
        assert(ids.last() == ids[ids.len() - 1]);
        assert(forall|i: int| 0 <= i < before.len() ==> #[trigger] before[i] == ids[i]);
        if exists|i: int|
            0 <= i < ids.len() && s.slashes.contains_key(#[trigger] ids[i]) && key
                == EntryKey::Data(DataKey::SlashRecord(ids[i])) {
            let i = choose|i: int|
                0 <= i < ids.len() && s.slashes.contains_key(#[trigger] ids[i]) && key
                    == EntryKey::Data(DataKey::SlashRecord(ids[i]));
            if i < before.len() {
                assert(before[i] == ids[i]);
            }
        }
    }
}

// ---------------------------------------------------------------------------
// Announcements
// ---------------------------------------------------------------------------

/// Where an approval or a release finds that a lock time is over, it says so; and so where the
/// approval that decides, or a release, finds that a timelock is.
pub proof fn law_locks_are_announced(s: Ledger, caller: Address, id: u64, mid: u32)
    requires
        s.well_kept(),
    ensures
        s.approve_milestone_refusal(caller, id, mid) is None ==> {
            let t = s.approve_milestone_done(caller, id, mid);
            let meta = s.escrows[id];
            &&& meta.lock_time is Some ==> accounts::announced(
                s,
                t,
                Event::LockTimeExpired { escrow_id: id, lock_time: meta.lock_time->0 },
            )
            &&& meta.timelock is Present && crate::laws::work::timelock_is_over(
                meta.timelock,
                s.now,
            ) && crate::laws::work::decides(meta, s.milestones[(id, mid)], caller)
                ==> accounts::announced(
                s,
                t,
                Event::TimelockReleased { escrow_id: id, at: s.now },
            )
        },
        s.release_funds_refusal(caller, id, mid) is None ==> {
            let t = s.release_funds_done(caller, id, mid);
            let meta = s.escrows[id];
            &&& meta.lock_time is Some ==> accounts::announced(
                s,
                t,
                Event::LockTimeExpired { escrow_id: id, lock_time: meta.lock_time->0 },
            )
            &&& meta.timelock is Present && crate::laws::work::timelock_is_over(
                meta.timelock,
                s.now,
            ) ==> accounts::announced(s, t, Event::TimelockReleased { escrow_id: id, at: s.now })
            &&& t.escrows[id].status == EscrowStatus::Completed && meta.status
                != EscrowStatus::Completed ==> accounts::announced(
                s,
                t,
                Event::EscrowCompleted { escrow_id: id },
            )
        },
{
    let at = s.accessing(id).calls.len() as int;
    if s.approve_milestone_refusal(caller, id, mid) is None {
        accounts::law_access(s, id, caller, caller);
        assert(s.keeps(id));
        let meta = s.escrows[id];
        let m = s.milestones[(id, mid)];
        crate::laws::approvals::lemma_same_signers(meta, s.accessed_escrow(id), m, caller);
        assert(crate::laws::work::decides(meta, m, caller) == crate::milestones::suffices(
            meta,
            m,
            caller,
        ));
        let t = s.approve_milestone_done(caller, id, mid);
        if meta.lock_time is Some {
            assert(t.calls[at] == HostCall::<Seq<u8>>::Publish(
                Event::LockTimeExpired { escrow_id: id, lock_time: meta.lock_time->0 },
            ));
        }
        if meta.timelock is Present && crate::laws::work::timelock_is_over(meta.timelock, s.now)
            && crate::laws::work::decides(meta, m, caller) {
            let i = if meta.lock_time is Some {
                at + 1
            } else {
                at
            };
            assert(t.calls[i] == HostCall::<Seq<u8>>::Publish(
                Event::TimelockReleased { escrow_id: id, at: s.now },
            ));
        }
    }
    if s.release_funds_refusal(caller, id, mid) is None {
        accounts::law_access(s, id, caller, caller);
        assert(s.keeps(id));
        let meta = s.escrows[id];
        let t = s.release_funds_done(caller, id, mid);
        let over = meta.timelock is Present && crate::laws::work::timelock_is_over(
            meta.timelock,
            s.now,
        );
        if over {
            assert(t.calls[at] == HostCall::<Seq<u8>>::Publish(
                Event::TimelockReleased { escrow_id: id, at: s.now },
            ));
        }
        if meta.lock_time is Some {
            let i = if over {
                at + 1
            } else {
                at
            };
            assert(t.calls[i] == HostCall::<Seq<u8>>::Publish(
                Event::LockTimeExpired { escrow_id: id, lock_time: meta.lock_time->0 },
            ));
        }
        if t.escrows[id].status == EscrowStatus::Completed && meta.status
            != EscrowStatus::Completed {
            assert(t.calls[t.calls.len() - 2] == HostCall::<Seq<u8>>::Publish(
                Event::EscrowCompleted { escrow_id: id },
            ));
        }
    }
}

} // verus!
