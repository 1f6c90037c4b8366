//! What locks, rent and the admin's settings do.
use vstd::prelude::*;

use crate::laws::accounts;
use crate::ledger::{Event, HostCall, Ledger};
use crate::types::{
    Address, BridgeConfirmationView, BridgeProtocol, EscrowMetaView, OptionalTimelock,
    ReputationRecord, Timelock, WrappedTokenInfoView,
};

verus! {

// ---------------------------------------------------------------------------
// Locks
// ---------------------------------------------------------------------------

/// A timelock begins now and lasts as long as was asked for: between one day and thirty.
pub proof fn law_timelock_is_started(
    s: Ledger,
    caller: Address,
    id: u64,
    duration: u64,
    token: Address,
    account: Address,
)
    requires
        s.well_kept(),
        s.start_timelock_refusal(caller, id, duration) is None,
    ensures
        ({
            let t = s.start_timelock_done(caller, id, duration);
            let before = s.accessed_escrow(id);
            &&& 86_400 <= duration <= 2_592_000
            &&& before.timelock == OptionalTimelock::Absent
            &&& t.escrows == s.escrows.insert(
                id,
                EscrowMetaView {
                    timelock: OptionalTimelock::Present(
                        Timelock { start_ledger: s.now, duration_ledger: duration },
                    ),
                    ..before
                },
            )
            &&& accounts::received(s, t, token, account) == (if token == before.token {
                accounts::rent_paid(s, id, account)
            } else {
                0
            })
            &&& t.auths == s.auths.push(caller)
            &&& accounts::announced(
                s,
                t,
                Event::TimelockStarted { escrow_id: id, duration, at: s.now },
            )
            &&& t == (Ledger {
                escrows: t.escrows,
                auths: t.auths,
                calls: t.calls,
                touched: t.touched,
                instance_touched: t.instance_touched,
                ..s
            })
        }),
{
    broadcast use crate::laws::books::lemma_flow_push;

    accounts::law_access(s, id, token, account);
    assert(s.keeps(id));
    let t = s.start_timelock_done(caller, id, duration);
    assert(t.escrows =~= s.escrows.insert(id, t.escrows[id]));
    assert(t.calls[t.calls.len() - 1] == t.calls.last());
}

/// The lock time becomes the one that was asked for, which lies ahead.
pub proof fn law_lock_is_moved(
    s: Ledger,
    caller: Address,
    id: u64,
    time: u64,
    token: Address,
    account: Address,
)
    requires
        s.well_kept(),
        s.extend_lock_refusal(caller, id, time) is None,
    ensures
        ({
            let t = s.extend_lock_done(caller, id, time);
            let before = s.accessed_escrow(id);
            &&& caller == before.client
            &&& time > s.now
            &&& before.lock_time_extension is Some ==> time <= before.lock_time_extension->0
            &&& t.escrows == s.escrows.insert(
                id,
                EscrowMetaView { lock_time: Some(time), ..before },
            )
            &&& accounts::received(s, t, token, account) == (if token == before.token {
                accounts::rent_paid(s, id, account)
            } else {
                0
            })
            &&& t.auths == s.auths.push(caller)
            &&& accounts::announced(
                s,
                t,
                Event::LockTimeExtended {
                    escrow_id: id,
                    old_lock_time: if before.lock_time is Some {
                        before.lock_time->0
                    } else {
                        0
                    },
                    new_lock_time: time,
                    by: caller,
                },
            )
            &&& t == (Ledger {
                escrows: t.escrows,
                auths: t.auths,
                calls: t.calls,
                touched: t.touched,
                ..s
            })
        }),
{
    broadcast use crate::laws::books::lemma_flow_push;

    accounts::law_access(s, id, token, account);
    assert(s.keeps(id));
    let t = s.extend_lock_done(caller, id, time);
    assert(t.escrows =~= s.escrows.insert(id, t.escrows[id]));
    assert(t.calls[t.calls.len() - 1] == t.calls.last());
}

// ---------------------------------------------------------------------------
// Rent
// ---------------------------------------------------------------------------

/// A top-up costs the client one unit for each entry and each day that is bought, and all of it
/// goes into the reserve.
pub proof fn law_reserve_is_topped_up(
    s: Ledger,
    caller: Address,
    id: u64,
    days: u64,
    token: Address,
    account: Address,
)
    requires
        s.well_kept(),
        s.top_up_refusal(caller, id, days) is None,
    ensures
        ({
            let t = s.top_up_done(caller, id, days);
            let before = s.accessed_escrow(id);
            let cost = days * accounts::entries_of(s, id);
            &&& s.top_up(id, days) == cost
            &&& caller == before.client
            &&& accounts::received(s, t, token, account) == (if token == before.token {
                accounts::paid(before.client, s.contract, cost, account) + accounts::rent_paid(
                    s,
                    id,
                    account,
                )
            } else {
                0
            })
            &&& t.escrows == s.escrows.insert(
                id,
                EscrowMetaView { rent_balance: (before.rent_balance + cost) as i128, ..before },
            )
            &&& before.rent_balance + cost <= i128::MAX
            &&& t.auths == s.auths.push(caller)
            &&& t == (Ledger {
                escrows: t.escrows,
                auths: t.auths,
                calls: t.calls,
                touched: t.touched,
                instance_touched: t.instance_touched,
                ..s
            })
        }),
{
    broadcast use crate::laws::books::lemma_flow_push;

    accounts::law_access(s, id, token, account);
    assert(s.keeps(id));
    let rate = accounts::entries_of(s, id);
    assert(s.rent_due_per_period(s.accessed_escrow(id)) == rate);
    assert(rate * days == days * rate) by (nonlinear_arith);
    assert(days == 0 ==> days * rate == 0) by (nonlinear_arith);
    assert(days > 0 ==> days * rate > 0) by (nonlinear_arith)
        requires
            rate >= 1,
    ;
    let t = s.top_up_done(caller, id, days);
    assert(t.escrows =~= s.escrows.insert(id, t.escrows[id]));
}

/// As long as the reserve covers the rent, collecting it is what an access does: the admin gets
/// what is owed, and the rest stays.
pub proof fn law_rent_is_collected(s: Ledger, id: u64, token: Address, account: Address)
    requires
        s.well_kept(),
        s.escrows.contains_key(id),
        accounts::rent_owed(s, id) <= s.escrows[id].rent_balance,
    ensures
        s.collect_refusal(id) is None,
        ({
            let t = s.collected(id);
            let meta = s.escrows[id];
            &&& (if s.rent_periods(meta) == 0 {
                0
            } else {
                s.rent_collectable(meta)
            }) == accounts::rent_owed(s, id)
            &&& t.escrows == s.escrows.insert(id, s.accessed_escrow(id))
            &&& accounts::received(s, t, token, account) == (if token == meta.token {
                accounts::rent_paid(s, id, account)
            } else {
                0
            })
            &&& t.auths == s.auths
            &&& t == (Ledger {
                escrows: t.escrows,
                calls: t.calls,
                touched: t.touched,
                instance_touched: t.instance_touched,
                ..s
            })
        }),
{
    broadcast use crate::laws::books::lemma_flow_push;

    accounts::law_reach(s, id);
    accounts::law_access(s, id, token, account);
    assert(s.keeps(id));
    crate::laws::upkeep::law_rent_is_settled_once(s, s.escrows[id]);
    crate::laws::upkeep::law_rent_is_paid_in_full(s, s.escrows[id]);
    assert(0 * s.active_storage_entries(s.escrows[id]) == 0);
}

/// An escrow whose reserve does not cover the rent any more is wound up: the admin gets what is
/// left of the reserve, the client what remains of the escrow, and the recipient of a slash
/// that is undisputed and 51 840 seconds old gets it. Everything that was kept for the escrow
/// goes, and nothing else.
pub proof fn law_escrow_is_wound_up(s: Ledger, id: u64, token: Address, account: Address)
    requires
        s.well_kept(),
        s.escrows.contains_key(id),
        accounts::rent_owed(s, id) > s.escrows[id].rent_balance,
    ensures
        s.collect_refusal(id) is None,
        ({
            let t = s.collected(id);
            let meta = s.escrows[id];
            let record = s.slashes[id];
            let due = s.slashes.contains_key(id) && !record.disputed && s.now >= record.slashed_at
                + 51_840;
            &&& (if s.rent_periods(meta) == 0 {
                0
            } else {
                s.rent_collectable(meta)
            }) == meta.rent_balance
            &&& accounts::received(s, t, token, account) == (if token == meta.token {
                accounts::paid(s.contract, s.admin->0, meta.rent_balance as int, account)
                    + accounts::paid(
                    s.contract,
                    meta.client,
                    meta.remaining_balance as int,
                    account,
                ) + accounts::paid(
                    s.contract,
                    record.recipient,
                    if due {
                        record.amount as int
                    } else {
                        0
                    },
                    account,
                )
            } else {
                0
            })
            &&& t.escrows == s.escrows.remove(id)
            &&& t.recurring == s.recurring.remove(id)
            &&& t.cancellations == s.cancellations.remove(id)
            &&& t.slashes == s.slashes.remove(id)
            &&& forall|x: u64, mid: u32|
                #![trigger t.milestones.contains_key((x, mid))]
                #![trigger t.milestones[(x, mid)]]
                if x == id {
                    !t.milestones.contains_key((x, mid))
                } else {
                    &&& t.milestones.contains_key((x, mid)) <==> s.milestones.contains_key((x, mid))
                    &&& s.milestones.contains_key((x, mid)) ==> t.milestones[(x, mid)]
                        == s.milestones[(x, mid)]
                }
            &&& t.auths == s.auths
            &&& accounts::announced(
                s,
                t,
                Event::RentExpired {
                    escrow_id: id,
                    refund: meta.remaining_balance,
                    remaining: meta.remaining_balance,
                },
            )
            &&& t == (Ledger {
                escrows: t.escrows,
                milestones: t.milestones,
                recurring: t.recurring,
                cancellations: t.cancellations,
                slashes: t.slashes,
                by_status: t.by_status,
                by_participant: t.by_participant,
                cancellations_by_requester: t.cancellations_by_requester,
                calls: t.calls,
                touched: t.touched,
                instance_touched: t.instance_touched,
                ..s
            })
        }),
{
    broadcast use crate::laws::books::lemma_flow_push;

    assert(s.keeps(id));
    let meta = s.escrows[id];
    let days = accounts::days_owed(s, id);
    let rate = accounts::entries_of(s, id);
    let balance = meta.rent_balance as int;
    crate::rent::lemma_rent(s, meta);
    assert(s.rent_periods(meta) == days);
    assert(s.rent_due_per_period(meta) == rate);
    assert(days > 0 && 0 <= balance / rate < days) by (nonlinear_arith)
        requires
            days * rate > balance,
            balance >= 0,
            rate >= 1,
            days >= 0,
    ;
    let after = s.after_rent(meta);
    assert(after.rent_balance == 0);
    let covered = balance / rate;
    assert(after.last_rent_collection_at == meta.last_rent_collection_at + covered * 86_400);
    let last = meta.last_rent_collection_at;
    assert(s.now - last >= days * 86_400);
    assert((days - covered) * 86_400 >= 86_400);
    assert(s.rent_periods(after) > 0);
    assert(0int / rate == 0) by (nonlinear_arith)
        requires
            rate >= 1,
    ;
    assert(s.rent_has_expired(after));
    let t = s.collected(id);
    assert(t.calls[t.calls.len() - 1] == t.calls.last());
    assert forall|x: u64, mid: u32|
        #![trigger t.milestones.contains_key((x, mid))]
        #![trigger t.milestones[(x, mid)]]
        if x == id {
            !t.milestones.contains_key((x, mid))
        } else {
            &&& t.milestones.contains_key((x, mid)) <==> s.milestones.contains_key((x, mid))
            &&& s.milestones.contains_key((x, mid)) ==> t.milestones[(x, mid)]
                == s.milestones[(x, mid)]
        } by {
        if x == id && s.milestones.contains_key((x, mid)) {
            assert(mid < meta.milestone_count);
        }
    }
}

/// An escrow is paid for thirty days in advance with each entry: thirty units.
pub proof fn law_reserve_of_an_entry(entries: int)
    ensures
        crate::rent::reserve_for(entries) == 30 * entries,
{
    assert(entries * 1 * 30 == 30 * entries);
}

// ---------------------------------------------------------------------------
// Settings
// ---------------------------------------------------------------------------

/// The contract is set up with its admin and the escrows numbered from nothing on, and the host
/// records the layout of the storage.
pub proof fn law_contract_is_set_up(s: Ledger, admin: Address)
    ensures
        ({
            let t = s.initialize_done(admin);
            &&& t.admin == Some(admin)
            &&& t.escrow_counter == Some(0u64)
            &&& t.next_escrow_id() == 0
            &&& t.calls == s.calls.push(HostCall::InitStorageVersion)
            &&& t == (Ledger {
                admin: t.admin,
                escrow_counter: t.escrow_counter,
                calls: t.calls,
                instance_touched: true,
                ..s
            })
        }),
{
}

/// A pause and its end change the switch and nothing else, and each change is announced with who
/// made it. An upgrade migrates the storage before it replaces the code.
pub proof fn law_admin_acts(s: Ledger, caller: Address, paused: bool, hash: [u8; 32])
    ensures
        ({
            let t = s.pause_done(caller, paused);
            &&& (t.paused == Some(true)) == paused
            &&& t.auths == s.auths.push(caller)
            &&& (s.paused == Some(true)) != paused ==> t.calls == s.calls.push(
                HostCall::Publish(
                    if paused {
                        Event::ContractPaused { by: caller }
                    } else {
                        Event::ContractUnpaused { by: caller }
                    },
                ),
            )
            &&& (s.paused == Some(true)) == paused ==> t.calls == s.calls && t.paused == s.paused
            &&& t == (Ledger {
                paused: t.paused,
                auths: t.auths,
                calls: t.calls,
                instance_touched: true,
                ..s
            })
        }),
        s.upgrade_done(caller, hash) == (Ledger {
            auths: s.auths.push(caller),
            calls: s.calls.push(HostCall::MigrateStorage).push(HostCall::UpdateWasm { hash }),
            instance_touched: true,
            ..s
        }),
{
}

/// Only the admin acts as the admin, and nobody does before there is one.
pub proof fn law_admin_only(s: Ledger, caller: Address)
    ensures
        s.admin_refusal(caller) is None <==> s.admin == Some(caller),
        s.admin_refusal(caller) == Some(crate::errors::EscrowError::NotInitialized) <==> s.admin
            is None,
        s.admin_refusal(caller) == Some(crate::errors::EscrowError::AdminOnly) <==> s.admin is Some
            && s.admin->0 != caller,
        s.uninitialized_refusal() is None <==> s.admin is Some,
{
}

/// A wrapped token is on record under its address, as it was registered, and is usable in
/// escrows if and only if it was approved. A token that was never registered is.
pub proof fn law_token_is_registered(
    s: Ledger,
    caller: Address,
    info: WrappedTokenInfoView,
    token: Address,
)
    ensures
        ({
            let t = s.register_token_done(caller, info);
            &&& t.wrapped_tokens == s.wrapped_tokens.insert(info.stellar_address, info)
            &&& t.token_refusal(info.stellar_address) is None <==> info.is_approved
            &&& token != info.stellar_address ==> t.token_refusal(token) == s.token_refusal(token)
            &&& t.auths == s.auths.push(caller)
            &&& t.calls == s.calls.push(
                HostCall::Publish(
                    Event::WrappedTokenRegistered {
                        token: info.stellar_address,
                        origin_chain: info.origin_chain,
                    },
                ),
            )
            &&& t == (Ledger {
                wrapped_tokens: t.wrapped_tokens,
                auths: t.auths,
                calls: t.calls,
                instance_touched: true,
                ..s
            })
        }),
        !s.wrapped_tokens.contains_key(token) ==> s.token_refusal(token) is None,
        s.token_refusal(token) is Some ==> s.token_refusal(token) == Some(
            crate::errors::EscrowError::BridgeError,
        ),
{
}

/// A transfer's confirmations are on record as of now, and final if and only if there are as
/// many as it takes.
pub proof fn law_transfer_is_confirmed(
    s: Ledger,
    transfer_id: Seq<u8>,
    bridge: BridgeProtocol,
    confirmations: u32,
    required: u32,
)
    ensures
        ({
            let t = s.confirm_bridge_done(transfer_id, bridge, confirmations, required);
            let is_finalized = confirmations >= required;
            &&& t.bridge_confirmations == s.bridge_confirmations.insert(
                transfer_id,
                BridgeConfirmationView {
                    transfer_id,
                    bridge,
                    confirmations,
                    is_finalized,
                    updated_at: s.now,
                },
            )
            &&& t.calls == s.calls.push(
                HostCall::Publish(
                    Event::BridgeConfirmationUpdated { transfer_id, confirmations, is_finalized },
                ),
            )
            &&& t == (Ledger {
                bridge_confirmations: t.bridge_confirmations,
                calls: t.calls,
                instance_touched: true,
                ..s
            })
        }),
{
}

// ---------------------------------------------------------------------------
// Reputation
// ---------------------------------------------------------------------------

/// The reputation of somebody of whom there is a record is that record.
pub proof fn law_reputation_on_record(s: Ledger, who: Address)
    requires
        s.reputations.contains_key(who),
    ensures
        s.reputation_of(who) == s.reputations[who],
{
}

/// Somebody of whom nothing is on record has no points and no history.
pub proof fn law_newcomer(s: Ledger, who: Address)
    requires
        !s.reputations.contains_key(who),
    ensures
        s.reputation_of(who) == (ReputationRecord {
            address: who,
            total_score: 0,
            completed_escrows: 0,
            disputed_escrows: 0,
            disputes_won: 0,
            total_volume: 0,
            slash_count: 0,
            total_slashed: 0,
            last_updated: s.now,
        }),
{
}

/// An update gives ten points and one for each full thousand of the volume, ten at most, where
/// an escrow was completed, and then takes five where it was disputed. It counts the escrow, and
/// adds its volume where it was completed. It concerns nobody else.
pub proof fn law_reputation_is_updated(
    s: Ledger,
    who: Address,
    completed: bool,
    disputed: bool,
    volume: i128,
    other: Address,
)
    requires
        s.well_kept(),
        completed ==> s.reputation_of(who).completed_escrows < u32::MAX,
        disputed ==> s.reputation_of(who).disputed_escrows < u32::MAX,
    ensures
        ({
            let t = s.updating_reputation(who, completed, disputed, volume);
            let before = s.reputation_of(who);
            let after = t.reputation_of(who);
            let bonus: int = if volume < 0 {
                0
            } else if volume >= 10_000 {
                10
            } else {
                volume as int / 1_000
            };
            let gained: int = if !completed {
                before.total_score as int
            } else if before.total_score + 10 + bonus > u64::MAX {
                u64::MAX as int
            } else {
                before.total_score + 10 + bonus
            };
            let score: int = if !disputed {
                gained
            } else if gained < 5 {
                0
            } else {
                gained - 5
            };
            &&& after.total_score == score
            &&& after.completed_escrows == before.completed_escrows + (if completed {
                1int
            } else {
                0
            })
            &&& after.disputed_escrows == before.disputed_escrows + (if disputed {
                1int
            } else {
                0
            })
            &&& !completed ==> after.total_volume == before.total_volume
            &&& completed && i128::MIN <= before.total_volume + volume <= i128::MAX
                ==> after.total_volume == before.total_volume + volume
            &&& completed && before.total_volume + volume > i128::MAX ==> after.total_volume
                == i128::MAX
            &&& completed && before.total_volume + volume < i128::MIN ==> after.total_volume
                == i128::MIN
            &&& after.last_updated == s.now
            &&& after == (ReputationRecord {
                total_score: after.total_score,
                completed_escrows: after.completed_escrows,
                disputed_escrows: after.disputed_escrows,
                total_volume: after.total_volume,
                last_updated: after.last_updated,
                ..before
            })
            &&& other != who ==> t.reputation_of(other) == s.reputation_of(other)
            &&& t.calls == s.calls.push(
                HostCall::Publish(
                    Event::ReputationUpdated { address: who, score: score as u64 },
                ),
            )
            &&& t == (Ledger {
                reputations: t.reputations,
                calls: t.calls,
                touched: t.touched,
                ..s
            })
        }),
{
}

} // verus!
