//! What disputes, cancellations and slashes do: who is paid, what is on record afterwards, and
//! what it costs in reputation.
use vstd::prelude::*;

use crate::laws::accounts;
use crate::ledger::{Event, HostCall, Ledger};
use crate::types::{
    Address, CancellationRequestView, EscrowMetaView, EscrowStatus, MilestoneView,
    OracleResolutionPayload, ReputationRecord, SlashRecordView, MS_DISPUTED, MS_PENDING,
    MS_SUBMITTED,
};

verus! {

/// A score after `points` were taken off: never less than nothing.
pub open spec fn points_off(score: u64, points: int) -> int {
    if score >= points {
        score - points
    } else {
        0
    }
}

// ---------------------------------------------------------------------------
// Disputes
// ---------------------------------------------------------------------------

/// A dispute freezes the escrow from now on, and its start is on record. Nobody but the admin, for
/// the rent, is paid anything.
pub proof fn law_dispute_is_on_record(
    s: Ledger,
    caller: Address,
    id: u64,
    milestone_id: Option<u32>,
    token: Address,
    account: Address,
)
    requires
        s.well_kept(),
        s.raise_dispute_refusal(caller, id, milestone_id) is None,
    ensures
        ({
            let t = s.raise_dispute_done(caller, id, milestone_id);
            let before = s.accessed_escrow(id);
            let after = t.escrows[id];
            &&& after.status == EscrowStatus::Disputed
            &&& after.dispute_start_ledger == Some(s.now)
            &&& after == (EscrowMetaView {
                status: after.status,
                dispute_start_ledger: after.dispute_start_ledger,
                submitted_count: after.submitted_count,
                ..before
            })
            &&& t.escrows == s.escrows.insert(id, after)
            &&& t.auths == s.auths.push(caller)
            &&& accounts::announced(s, t, Event::DisputeRaised { escrow_id: id, by: caller })
            &&& accounts::received(s, t, token, account) == (if token == s.escrows[id].token {
                accounts::rent_paid(s, id, account)
            } else {
                0
            })
            &&& t == (Ledger {
                escrows: t.escrows,
                milestones: t.milestones,
                by_status: t.by_status,
                auths: t.auths,
                calls: t.calls,
                touched: t.touched,
                ..s
            })
        }),
{
    broadcast use crate::laws::books::lemma_flow_push;

    accounts::law_access(s, id, token, account);
    assert(s.keeps(id));
    let t = s.raise_dispute_done(caller, id, milestone_id);
    assert(t.escrows =~= s.escrows.insert(id, t.escrows[id]));
    let n = s.accessing(id).calls.len() as int;
    assert(t.calls[n]
        == HostCall::<Seq<u8>>::Publish(Event::DisputeRaised { escrow_id: id, by: caller }));
}

/// A dispute over a milestone takes one that is pending or submitted out of the work: it is
/// disputed, as of now, and that is announced. A milestone in any other state, and every other
/// milestone, stays as it was.
pub proof fn law_milestone_is_disputed(s: Ledger, caller: Address, id: u64, mid: u32)
    requires
        s.well_kept(),
        s.raise_dispute_refusal(caller, id, Some(mid)) is None,
    ensures
        ({
            let t = s.raise_dispute_done(caller, id, Some(mid));
            let before = s.milestones[(id, mid)];
            let after = t.milestones[(id, mid)];
            &&& before.status == MS_PENDING || before.status == MS_SUBMITTED ==> {
                &&& after.status == MS_DISPUTED
                &&& after.resolved_at == Some(s.now)
                &&& after == (MilestoneView {
                    status: after.status,
                    resolved_at: after.resolved_at,
                    ..before
                })
                &&& accounts::announced(
                    s,
                    t,
                    Event::MilestoneDisputed { escrow_id: id, milestone_id: mid, by: caller },
                )
            }
            &&& before.status != MS_PENDING && before.status != MS_SUBMITTED ==> after == before
            &&& t.milestones == s.milestones.insert((id, mid), after)
            &&& t.escrows[id].submitted_count == s.escrows[id].submitted_count - (if before.status
                == MS_SUBMITTED {
                1int
            } else {
                0
            })
        }),
{
    accounts::law_access(s, id, caller, caller);
    assert(s.keeps(id));
    let t = s.raise_dispute_done(caller, id, Some(mid));
    assert(s.milestones.contains_key((id, mid)));
    assert(s.milestones[(id, mid)].id == mid);
    assert(t.milestones =~= s.milestones.insert((id, mid), t.milestones[(id, mid)]));
    let n = s.escrows[id].milestone_count as nat;
    if s.milestones[(id, mid)].status == MS_SUBMITTED {
        crate::laws::guards::lemma_counted_some(s.milestones, id, n, mid, MS_SUBMITTED);
    }
    assert(t.calls[t.calls.len() - 1] == t.calls.last());
}

/// A dispute that names no milestone leaves all milestones and counters alone.
pub proof fn law_dispute_of_no_milestone(s: Ledger, caller: Address, id: u64)
    requires
        s.well_kept(),
        s.raise_dispute_refusal(caller, id, None) is None,
    ensures
        s.raise_dispute_done(caller, id, None).milestones == s.milestones,
        s.raise_dispute_done(caller, id, None).escrows[id].submitted_count
            == s.escrows[id].submitted_count,
{
    accounts::law_access(s, id, caller, caller);
    assert(s.keeps(id));
}

/// Paying the shares of a dispute gives each account what is its share, and the rest nothing.
proof fn lemma_shares_received(
    c: Ledger,
    id: u64,
    meta: EscrowMetaView,
    client_amount: i128,
    freelancer_amount: i128,
    token: Address,
    account: Address,
)
    requires
        client_amount >= 0,
        freelancer_amount >= 0,
    ensures
        ({
            let t = c.paying_shares(id, meta, client_amount, freelancer_amount);
            &&& accounts::received(c, t, token, account) == (if token == meta.token {
                accounts::paid(c.contract, meta.client, client_amount as int, account)
                    + accounts::paid(
                    c.contract,
                    meta.freelancer,
                    freelancer_amount as int,
                    account,
                )
            } else {
                0
            })
            &&& c.calls.len() < t.calls.len()
            &&& forall|i: int| 0 <= i < c.calls.len() ==> #[trigger] t.calls[i] == c.calls[i]
            &&& accounts::announced(
                c,
                t,
                Event::DisputeResolved { escrow_id: id, client_amount, freelancer_amount },
            )
        }),
{
    broadcast use crate::laws::books::lemma_flow_push;

    let t = c.paying_shares(id, meta, client_amount, freelancer_amount);
    assert(t.calls[t.calls.len() - 3] == HostCall::<Seq<u8>>::Publish(
        Event::DisputeResolved { escrow_id: id, client_amount, freelancer_amount },
    ));
}

/// A resolved dispute pays each party the share that was awarded to it, out of the contract, and
/// nobody else anything; only the admin gets the rent that is owed. Together the shares are the
/// whole remaining balance.
pub proof fn law_shares_reach_their_owners(
    s: Ledger,
    caller: Address,
    id: u64,
    client_amount: i128,
    freelancer_amount: i128,
    token: Address,
    account: Address,
)
    requires
        s.well_kept(),
        s.resolve_dispute_refusal(caller, id, client_amount, freelancer_amount) is None,
    ensures
        ({
            let t = s.resolve_dispute_done(caller, id, client_amount, freelancer_amount);
            let meta = s.escrows[id];
            &&& accounts::received(s, t, token, account) == (if token == meta.token {
                accounts::paid(s.contract, meta.client, client_amount as int, account)
                    + accounts::paid(
                    s.contract,
                    meta.freelancer,
                    freelancer_amount as int,
                    account,
                ) + accounts::rent_paid(s, id, account)
            } else {
                0
            })
            &&& client_amount >= 0
            &&& freelancer_amount >= 0
            &&& client_amount + freelancer_amount == meta.remaining_balance
            &&& t.auths == s.auths.push(caller)
            &&& accounts::announced(
                s,
                t,
                Event::DisputeResolved { escrow_id: id, client_amount, freelancer_amount },
            )
        }),
{
    broadcast use crate::laws::books::lemma_flow_push;

    accounts::law_access(s, id, token, account);
    let meta = s.accessed_escrow(id);
    let c = s.demanding(caller).accessing(id).touching_for_judge(meta, caller);
    let t = s.resolve_dispute_done(caller, id, client_amount, freelancer_amount);
    assert(c.calls == s.accessing(id).calls);
    lemma_shares_received(c, id, meta, client_amount, freelancer_amount, token, account);
    let event = Event::<Seq<u8>>::DisputeResolved {
        escrow_id: id,
        client_amount,
        freelancer_amount,
    };
    let i = choose|i: int|
        c.calls.len() <= i < t.calls.len() && #[trigger] t.calls[i] == HostCall::Publish(event);
    assert(s.calls.len() <= i);
}

/// The oracle's payload gives the client so many ten-thousandths of the remaining balance,
/// rounded down, and the freelancer the rest. The host is asked to check the signature of the
/// payload before anything is paid, and with the key on record.
pub proof fn law_oracle_pays_by_basis_points(
    s: Ledger,
    id: u64,
    payload: OracleResolutionPayload,
    grace_period_seconds: u64,
    token: Address,
    account: Address,
)
    requires
        s.well_kept(),
        s.oracle_resolve_refusal(id, payload, grace_period_seconds) is None,
    ensures
        ({
            let t = s.oracle_resolve_done(id, payload);
            let meta = s.escrows[id];
            let client_amount = meta.remaining_balance * payload.client_bps / 10_000;
            let freelancer_amount = meta.remaining_balance - client_amount;
            &&& accounts::received(s, t, token, account) == (if token == meta.token {
                accounts::paid(s.contract, meta.client, client_amount, account) + accounts::paid(
                    s.contract,
                    meta.freelancer,
                    freelancer_amount,
                    account,
                ) + accounts::rent_paid(s, id, account)
            } else {
                0
            })
            &&& t.auths == s.auths
            &&& t.calls[s.accessing(id).calls.len() as int] == (HostCall::VerifySignature {
                public_key: s.trusted_oracle_key->0,
                message: crate::disputes::resolution_message(payload),
                signature: payload.signature,
            })
            &&& forall|i: int|
                0 <= i < s.accessing(id).calls.len() ==> #[trigger] t.calls[i]
                    == s.accessing(id).calls[i]
            &&& accounts::announced(
                s,
                t,
                Event::DisputeResolved {
                    escrow_id: id,
                    client_amount: client_amount as i128,
                    freelancer_amount: freelancer_amount as i128,
                },
            )
        }),
{
    broadcast use crate::laws::books::lemma_flow_push;

    accounts::law_access(s, id, token, account);
    assert(s.keeps(id));
    let meta = s.accessed_escrow(id);
    let balance = meta.remaining_balance as int;
    assert(balance * payload.client_bps >= 0) by (nonlinear_arith)
        requires
            balance >= 0,
    ;
    crate::disputes::lemma_client_share(meta.remaining_balance, payload.client_bps);
    let share = crate::disputes::client_share(meta.remaining_balance, payload.client_bps);
    let rest = (meta.remaining_balance - share) as i128;
    let c = s.accessing(id).calling(
        HostCall::VerifySignature {
            public_key: payload.oracle_pubkey,
            message: crate::disputes::resolution_message(payload),
            signature: payload.signature,
        },
    );
    let t = s.oracle_resolve_done(id, payload);
    lemma_shares_received(c, id, meta, share as i128, rest, token, account);
    let event = Event::<Seq<u8>>::DisputeResolved {
        escrow_id: id,
        client_amount: share as i128,
        freelancer_amount: rest,
    };
    let i = choose|i: int|
        c.calls.len() <= i < t.calls.len() && #[trigger] t.calls[i] == HostCall::Publish(event);
    assert(s.calls.len() <= i);
    let n = s.accessing(id).calls.len() as int;
    assert(c.calls[n] == t.calls[n]);
    assert forall|i: int| 0 <= i < s.accessing(id).calls.len() implies #[trigger] t.calls[i]
        == s.accessing(id).calls[i] by {
        assert(c.calls[i] == s.accessing(id).calls[i]);
    }
}

/// Whether `t` is `s` with the dispute over escrow `id` settled: the escrow is complete and
/// empty, each party has one more dispute and five points less, and nothing else is different.
pub open spec fn settles(s: Ledger, t: Ledger, id: u64) -> bool {
    let meta = s.escrows[id];
    &&& t.escrows == s.escrows.insert(
        id,
        EscrowMetaView {
            status: EscrowStatus::Completed,
            remaining_balance: 0,
            ..s.accessed_escrow(id)
        },
    )
    &&& forall|who: Address|
        who != meta.client && who != meta.freelancer ==> #[trigger] t.reputation_of(who)
            == s.reputation_of(who)
    &&& meta.client != meta.freelancer ==> forall|who: Address|
        #![trigger t.reputation_of(who)]
        (who == meta.client || who == meta.freelancer) && s.reputation_of(who).disputed_escrows
            < u32::MAX ==> t.reputation_of(who) == (ReputationRecord {
            total_score: points_off(s.reputation_of(who).total_score, 5) as u64,
            disputed_escrows: (s.reputation_of(who).disputed_escrows + 1) as u32,
            last_updated: s.now,
            ..s.reputation_of(who)
        })
    &&& meta.client == meta.freelancer && s.reputation_of(meta.client).disputed_escrows + 2
        <= u32::MAX ==> t.reputation_of(meta.client) == (ReputationRecord {
        total_score: points_off(s.reputation_of(meta.client).total_score, 10) as u64,
        disputed_escrows: (s.reputation_of(meta.client).disputed_escrows + 2) as u32,
        last_updated: s.now,
        ..s.reputation_of(meta.client)
    })
    &&& t == (Ledger {
        escrows: t.escrows,
        reputations: t.reputations,
        by_status: t.by_status,
        auths: t.auths,
        calls: t.calls,
        touched: t.touched,
        instance_touched: t.instance_touched,
        ..s
    })
}

/// What a dispute costs one account, whoever it is.
proof fn lemma_dispute_costs(
    c: Ledger,
    client: Address,
    freelancer: Address,
    client_amount: i128,
    freelancer_amount: i128,
    who: Address,
)
    requires
        c.records_kept(),
    ensures
        ({
            let t = c.updating_reputation(client, false, true, client_amount).updating_reputation(
                freelancer,
                false,
                true,
                freelancer_amount,
            );
            let before = c.reputation_of(who);
            &&& who != client && who != freelancer ==> t.reputation_of(who) == before
            &&& client != freelancer && (who == client || who == freelancer)
                && before.disputed_escrows < u32::MAX ==> t.reputation_of(who) == (
            ReputationRecord {
                total_score: points_off(before.total_score, 5) as u64,
                disputed_escrows: (before.disputed_escrows + 1) as u32,
                last_updated: c.now,
                ..before
            })
            &&& client == freelancer && who == client && before.disputed_escrows + 2 <= u32::MAX
                ==> t.reputation_of(who) == (ReputationRecord {
                total_score: points_off(before.total_score, 10) as u64,
                disputed_escrows: (before.disputed_escrows + 2) as u32,
                last_updated: c.now,
                ..before
            })
        }),
{
    let one = c.updating_reputation(client, false, true, client_amount);
    assert(c.reputation_of(client).address == client);
    assert(one.reputation_of(freelancer).address == freelancer);
}

/// Paying the shares of a dispute settles it.
proof fn lemma_settles(
    s: Ledger,
    c: Ledger,
    id: u64,
    client_amount: i128,
    freelancer_amount: i128,
)
    requires
        s.well_kept(),
        s.escrows.contains_key(id),
        c == (Ledger {
            escrows: s.escrows.insert(id, s.accessed_escrow(id)),
            auths: c.auths,
            calls: c.calls,
            touched: c.touched,
            instance_touched: c.instance_touched,
            ..s
        }),
    ensures
        settles(
            s,
            c.paying_shares(id, s.accessed_escrow(id), client_amount, freelancer_amount),
            id,
        ),
{
    assert(s.keeps(id));
    let meta = s.accessed_escrow(id);
    let t = c.paying_shares(id, meta, client_amount, freelancer_amount);
    assert(t.escrows =~= s.escrows.insert(id, t.escrows[id]));
    assert forall|who: Address| #[trigger] c.reputation_of(who) == s.reputation_of(who) by {}
    let d = c.with_escrow(
        EscrowMetaView { remaining_balance: 0, status: EscrowStatus::Completed, ..meta },
    );
    assert forall|who: Address| true implies #[trigger] t.reputation_of(who)
        == d.updating_reputation(
        meta.client,
        false,
        true,
        client_amount,
    ).updating_reputation(meta.freelancer, false, true, freelancer_amount).reputation_of(who) by {}
    assert forall|who: Address| #![trigger t.reputation_of(who)] true implies ({
        let before = s.reputation_of(who);
        &&& who != meta.client && who != meta.freelancer ==> t.reputation_of(who) == before
        &&& meta.client != meta.freelancer && (who == meta.client || who == meta.freelancer)
            && before.disputed_escrows < u32::MAX ==> t.reputation_of(who) == (ReputationRecord {
            total_score: points_off(before.total_score, 5) as u64,
            disputed_escrows: (before.disputed_escrows + 1) as u32,
            last_updated: s.now,
            ..before
        })
        &&& meta.client == meta.freelancer && who == meta.client && before.disputed_escrows + 2
            <= u32::MAX ==> t.reputation_of(who) == (ReputationRecord {
            total_score: points_off(before.total_score, 10) as u64,
            disputed_escrows: (before.disputed_escrows + 2) as u32,
            last_updated: s.now,
            ..before
        })
    }) by {
        lemma_dispute_costs(
            d,
            meta.client,
            meta.freelancer,
            client_amount,
            freelancer_amount,
            who,
        );
    }
}

/// A settled dispute leaves the escrow complete and empty, and costs each party five points.
pub proof fn law_dispute_is_settled(
    s: Ledger,
    caller: Address,
    id: u64,
    client_amount: i128,
    freelancer_amount: i128,
    payload: OracleResolutionPayload,
    grace_period_seconds: u64,
)
    requires
        s.well_kept(),
    ensures
        s.resolve_dispute_refusal(caller, id, client_amount, freelancer_amount) is None ==> settles(
            s,
            s.resolve_dispute_done(caller, id, client_amount, freelancer_amount),
            id,
        ),
        s.oracle_resolve_refusal(id, payload, grace_period_seconds) is None ==> settles(
            s,
            s.oracle_resolve_done(id, payload),
            id,
        ),
{
    let meta = s.accessed_escrow(id);
    if s.resolve_dispute_refusal(caller, id, client_amount, freelancer_amount) is None {
        accounts::law_access(s, id, caller, caller);
        let c = s.demanding(caller).accessing(id).touching_for_judge(meta, caller);
        lemma_settles(s, c, id, client_amount, freelancer_amount);
    }
    if s.oracle_resolve_refusal(id, payload, grace_period_seconds) is None {
        accounts::law_access(s, id, caller, caller);
        let c = s.accessing(id).calling(
            HostCall::VerifySignature {
                public_key: payload.oracle_pubkey,
                message: crate::disputes::resolution_message(payload),
                signature: payload.signature,
            },
        );
        let share = crate::disputes::client_share(meta.remaining_balance, payload.client_bps);
        lemma_settles(s, c, id, share as i128, (meta.remaining_balance - share) as i128);
    }
}

// ---------------------------------------------------------------------------
// Cancellations
// ---------------------------------------------------------------------------

/// An escrow that the client cancels outright is cancelled and empty, and the client gets all
/// that remained. Nobody's reputation changes.
pub proof fn law_cancelling_refunds(
    s: Ledger,
    caller: Address,
    id: u64,
    token: Address,
    account: Address,
)
    requires
        s.well_kept(),
        s.cancel_escrow_refusal(caller, id) is None,
    ensures
        ({
            let t = s.cancel_escrow_done(caller, id);
            let meta = s.escrows[id];
            &&& accounts::received(s, t, token, account) == (if token == meta.token {
                accounts::paid(s.contract, meta.client, meta.remaining_balance as int, account)
                    + accounts::rent_paid(s, id, account)
            } else {
                0
            })
            &&& t.escrows == s.escrows.insert(
                id,
                EscrowMetaView {
                    status: EscrowStatus::Cancelled,
                    remaining_balance: 0,
                    ..s.accessed_escrow(id)
                },
            )
            &&& caller == meta.client
            &&& t.auths == s.auths.push(caller)
            &&& accounts::announced(
                s,
                t,
                Event::EscrowCancelled { escrow_id: id, returned: meta.remaining_balance },
            )
            &&& t == (Ledger {
                escrows: t.escrows,
                by_status: t.by_status,
                auths: t.auths,
                calls: t.calls,
                touched: t.touched,
                ..s
            })
        }),
{
    broadcast use crate::laws::books::lemma_flow_push;

    accounts::law_access(s, id, token, account);
    assert(s.keeps(id));
    let t = s.cancel_escrow_done(caller, id);
    assert(t.escrows =~= s.escrows.insert(id, t.escrows[id]));
    assert(t.calls[t.calls.len() - 1] == t.calls.last());
}

/// A request to cancel is open to dispute for 120 960 seconds. The requester pays thirty units
/// for its storage, and the escrow waits.
pub proof fn law_cancellation_is_requested(
    s: Ledger,
    caller: Address,
    id: u64,
    reason: Seq<u8>,
    token: Address,
    account: Address,
)
    requires
        s.well_kept(),
        s.request_cancellation_refusal(caller, id) is None,
        s.now + 120_960 <= u64::MAX,
    ensures
        ({
            let t = s.request_cancellation_done(caller, id, reason);
            let meta = s.escrows[id];
            let deadline = (s.now + 120_960) as u64;
            &&& accounts::received(s, t, token, account) == (if token == meta.token {
                accounts::paid(caller, s.contract, 30, account) + accounts::rent_paid(
                    s,
                    id,
                    account,
                )
            } else {
                0
            })
            &&& t.escrows == s.escrows.insert(
                id,
                EscrowMetaView {
                    status: EscrowStatus::CancellationPending,
                    rent_balance: (s.accessed_escrow(id).rent_balance + 30) as i128,
                    ..s.accessed_escrow(id)
                },
            )
            &&& t.cancellations == s.cancellations.insert(
                id,
                CancellationRequestView {
                    escrow_id: id,
                    requester: caller,
                    reason,
                    requested_at: s.now,
                    dispute_deadline: deadline,
                    disputed: false,
                },
            )
            &&& caller == meta.client || caller == meta.freelancer
            &&& t.auths == s.auths.push(caller)
            &&& accounts::announced(
                s,
                t,
                Event::CancellationRequested { escrow_id: id, requester: caller, reason, deadline },
            )
            &&& t == (Ledger {
                escrows: t.escrows,
                cancellations: t.cancellations,
                by_status: t.by_status,
                cancellations_by_requester: t.cancellations_by_requester,
                auths: t.auths,
                calls: t.calls,
                touched: t.touched,
                instance_touched: t.instance_touched,
                ..s
            })
        }),
{
    broadcast use crate::laws::books::lemma_flow_push;

    accounts::law_access(s, id, token, account);
    assert(s.keeps(id));
    let t = s.request_cancellation_done(caller, id, reason);
    assert(t.escrows =~= s.escrows.insert(id, t.escrows[id]));
    assert(t.calls[t.calls.len() - 1] == t.calls.last());
}

/// An executed cancellation returns nine tenths of the remaining balance to the one who asked
/// for it, and holds the last tenth, rounded down, for the other party. It leaves the escrow
/// cancelled and empty, and the request is gone.
pub proof fn law_cancellation_is_executed(s: Ledger, id: u64, token: Address, account: Address)
    requires
        s.well_kept(),
        s.execute_cancellation_refusal(id) is None,
    ensures
        ({
            let t = s.execute_cancellation_done(id);
            let meta = s.escrows[id];
            let requester = s.cancellations[id].requester;
            let other = if requester == meta.client {
                meta.freelancer
            } else {
                meta.client
            };
            let slash = meta.remaining_balance as int / 10;
            let returned = meta.remaining_balance - slash;
            &&& accounts::received(s, t, token, account) == (if token == meta.token {
                accounts::paid(s.contract, requester, returned, account) + accounts::rent_paid(
                    s,
                    id,
                    account,
                )
            } else {
                0
            })
            &&& t.escrows == s.escrows.insert(
                id,
                EscrowMetaView {
                    status: EscrowStatus::Cancelled,
                    remaining_balance: 0,
                    ..s.accessed_escrow(id)
                },
            )
            &&& t.cancellations == s.cancellations.remove(id)
            &&& t.slashes.contains_key(id)
            &&& t.slashes[id] == (SlashRecordView {
                escrow_id: id,
                slashed_user: requester,
                recipient: other,
                amount: slash as i128,
                reason: crate::cancellation::cancellation_reason(),
                slashed_at: s.now,
                disputed: false,
            })
            &&& t.slashes == s.slashes.insert(id, t.slashes[id])
            &&& t.auths == s.auths
            &&& accounts::announced(
                s,
                t,
                Event::SlashApplied {
                    escrow_id: id,
                    slashed_user: requester,
                    recipient: other,
                    amount: slash as i128,
                    reason: crate::cancellation::cancellation_reason(),
                },
            )
            &&& accounts::announced(
                s,
                t,
                Event::CancellationExecuted {
                    escrow_id: id,
                    returned: returned as i128,
                    slashed: slash as i128,
                },
            )
            &&& t == (Ledger {
                escrows: t.escrows,
                cancellations: t.cancellations,
                slashes: t.slashes,
                reputations: t.reputations,
                by_status: t.by_status,
                cancellations_by_requester: t.cancellations_by_requester,
                slashes_by_address: t.slashes_by_address,
                calls: t.calls,
                touched: t.touched,
                instance_touched: t.instance_touched,
                ..s
            })
        }),
{
    broadcast use crate::laws::books::lemma_flow_push;

    accounts::law_access(s, id, token, account);
    assert(s.keeps(id));
    let balance = s.escrows[id].remaining_balance as int;
    assert(balance * 10 / 100 == balance / 10) by (nonlinear_arith)
        requires
            balance >= 0,
    ;
    let t = s.execute_cancellation_done(id);
    assert(t.escrows =~= s.escrows.insert(id, t.escrows[id]));
    assert(t.slashes =~= s.slashes.insert(id, t.slashes[id]));
    assert(t.calls[t.calls.len() - 1] == t.calls.last());
    let slash = t.slashes[id];
    assert(t.calls[s.accessing(id).calls.len() as int] == HostCall::<Seq<u8>>::Publish(
        Event::SlashApplied {
            escrow_id: id,
            slashed_user: slash.slashed_user,
            recipient: slash.recipient,
            amount: slash.amount,
            reason: slash.reason,
        },
    ));
}

/// An executed cancellation costs the one who asked for it ten points, or as many as there are,
/// and shows as one more slash of a tenth of the balance. It costs nobody else anything.
pub proof fn law_cancellation_costs_points(s: Ledger, id: u64, who: Address)
    requires
        s.well_kept(),
        s.execute_cancellation_refusal(id) is None,
        ({
            let record = s.reputation_of(s.cancellations[id].requester);
            &&& record.slash_count < u32::MAX
            &&& record.total_slashed + s.escrows[id].remaining_balance as int / 10 <= i128::MAX
        }),
    ensures
        ({
            let t = s.execute_cancellation_done(id);
            let before = s.reputation_of(who);
            let after = t.reputation_of(who);
            let slash = s.escrows[id].remaining_balance as int / 10;
            &&& who != s.cancellations[id].requester ==> after == before
            &&& who == s.cancellations[id].requester ==> {
                &&& before.total_score >= 10 ==> after.total_score == before.total_score - 10
                &&& before.total_score < 10 ==> after.total_score == 0
                &&& after.slash_count == before.slash_count + 1
                &&& after.total_slashed == before.total_slashed + slash
                &&& after.last_updated == s.now
                &&& after == (ReputationRecord {
                    total_score: after.total_score,
                    slash_count: after.slash_count,
                    total_slashed: after.total_slashed,
                    last_updated: after.last_updated,
                    ..before
                })
            }
        }),
{
    accounts::law_access(s, id, who, who);
    assert(s.keeps(id));
    let balance = s.escrows[id].remaining_balance as int;
    assert(balance * 10 / 100 == balance / 10) by (nonlinear_arith)
        requires
            balance >= 0,
    ;
}

/// A disputed request stays on record as disputed, and the escrow is disputed from now on.
/// Nothing is paid but rent.
pub proof fn law_cancellation_is_disputed(
    s: Ledger,
    caller: Address,
    id: u64,
    token: Address,
    account: Address,
)
    requires
        s.well_kept(),
        s.dispute_cancellation_refusal(caller, id) is None,
    ensures
        ({
            let t = s.dispute_cancellation_done(caller, id);
            let meta = s.escrows[id];
            &&& accounts::received(s, t, token, account) == (if token == meta.token {
                accounts::rent_paid(s, id, account)
            } else {
                0
            })
            &&& t.escrows == s.escrows.insert(
                id,
                EscrowMetaView {
                    status: EscrowStatus::Disputed,
                    dispute_start_ledger: Some(s.now),
                    ..s.accessed_escrow(id)
                },
            )
            &&& t.cancellations == s.cancellations.insert(
                id,
                CancellationRequestView { disputed: true, ..s.cancellations[id] },
            )
            &&& caller != s.cancellations[id].requester
            &&& caller == meta.client || caller == meta.freelancer
            &&& t.auths == s.auths.push(caller)
            &&& accounts::announced(s, t, Event::DisputeRaised { escrow_id: id, by: caller })
            &&& t == (Ledger {
                escrows: t.escrows,
                cancellations: t.cancellations,
                by_status: t.by_status,
                auths: t.auths,
                calls: t.calls,
                touched: t.touched,
                instance_touched: t.instance_touched,
                ..s
            })
        }),
{
    broadcast use crate::laws::books::lemma_flow_push;

    accounts::law_access(s, id, token, account);
    assert(s.keeps(id));
    assert(s.cancellations[id].escrow_id == id);
    let t = s.dispute_cancellation_done(caller, id);
    assert(t.escrows =~= s.escrows.insert(id, t.escrows[id]));
    assert(t.calls[t.calls.len() - 1] == t.calls.last());
}

// ---------------------------------------------------------------------------
// Slashes
// ---------------------------------------------------------------------------

/// A finalized slash goes to its recipient, in full and in the escrow's token, and its record
/// goes.
pub proof fn law_slash_is_finalized(s: Ledger, id: u64, token: Address, account: Address)
    requires
        s.well_kept(),
        s.finalize_slash_refusal(id) is None,
    ensures
        ({
            let t = s.finalize_slash_done(id);
            let record = s.slashes[id];
            &&& accounts::received(s, t, token, account) == (if token == s.escrows[id].token {
                accounts::paid(s.contract, record.recipient, record.amount as int, account)
            } else {
                0
            })
            &&& !record.disputed
            &&& s.now >= record.slashed_at + 51_840
            &&& t.slashes == s.slashes.remove(id)
            &&& t.auths == s.auths
            &&& accounts::announced(
                s,
                t,
                Event::SlashApplied {
                    escrow_id: id,
                    slashed_user: record.slashed_user,
                    recipient: record.recipient,
                    amount: record.amount,
                    reason: record.reason,
                },
            )
            &&& t == (Ledger {
                slashes: t.slashes,
                calls: t.calls,
                touched: t.touched,
                instance_touched: t.instance_touched,
                ..s
            })
        }),
{
    broadcast use crate::laws::books::lemma_flow_push;

    let t = s.finalize_slash_done(id);
    assert(t.calls[t.calls.len() - 1] == t.calls.last());
}

/// The slashed user can put a slash in dispute for 51 840 seconds. It is then held on, and
/// nothing is paid but rent.
pub proof fn law_slash_is_disputed(
    s: Ledger,
    caller: Address,
    id: u64,
    token: Address,
    account: Address,
)
    requires
        s.well_kept(),
        s.dispute_slash_refusal(caller, id) is None,
    ensures
        ({
            let t = s.dispute_slash_done(caller, id);
            let record = s.slashes[id];
            &&& accounts::received(s, t, token, account) == (if token == s.escrows[id].token {
                accounts::rent_paid(s, id, account)
            } else {
                0
            })
            &&& caller == record.slashed_user
            &&& s.now < record.slashed_at + 51_840
            &&& t.slashes == s.slashes.insert(id, SlashRecordView { disputed: true, ..record })
            &&& t.escrows == s.escrows.insert(id, s.accessed_escrow(id))
            &&& t.auths == s.auths.push(caller)
            &&& accounts::announced(
                s,
                t,
                Event::SlashDisputed { escrow_id: id, by: caller, amount: record.amount },
            )
            &&& t == (Ledger {
                escrows: t.escrows,
                slashes: t.slashes,
                auths: t.auths,
                calls: t.calls,
                touched: t.touched,
                ..s
            })
        }),
{
    broadcast use crate::laws::books::lemma_flow_push;

    accounts::law_access(s, id, token, account);
    assert(s.keeps(id));
    assert(s.slashes[id].escrow_id == id);
    let t = s.dispute_slash_done(caller, id);
    assert(t.escrows =~= s.escrows.insert(id, t.escrows[id]));
    assert(t.calls[t.calls.len() - 1] == t.calls.last());
}

/// A slash that is upheld goes to its recipient; one that is reversed goes back to the slashed
/// user, who also gets ten points back and has one slash less. Either way its record goes.
pub proof fn law_slash_dispute_is_resolved(
    s: Ledger,
    caller: Address,
    id: u64,
    upheld: bool,
    token: Address,
    account: Address,
)
    requires
        s.well_kept(),
        s.resolve_slash_refusal(caller, id) is None,
    ensures
        ({
            let t = s.resolve_slash_done(caller, id, upheld);
            let record = s.slashes[id];
            let before = s.reputation_of(record.slashed_user);
            let after = t.reputation_of(record.slashed_user);
            let winner = if upheld {
                record.recipient
            } else {
                record.slashed_user
            };
            &&& accounts::received(s, t, token, account) == (if token == s.escrows[id].token {
                accounts::paid(s.contract, winner, record.amount as int, account)
                    + accounts::rent_paid(s, id, account)
            } else {
                0
            })
            &&& record.disputed
            &&& t.slashes == s.slashes.remove(id)
            &&& t.escrows == s.escrows.insert(id, s.accessed_escrow(id))
            &&& t.auths == s.auths.push(caller)
            &&& forall|who: Address|
                who != record.slashed_user ==> #[trigger] t.reputation_of(who)
                    == s.reputation_of(who)
            &&& upheld ==> after == before
            &&& !upheld ==> {
                &&& before.total_score + 10 <= u64::MAX ==> after.total_score
                    == before.total_score + 10
                &&& before.total_score + 10 > u64::MAX ==> after.total_score == u64::MAX
                &&& before.slash_count > 0 ==> after.slash_count == before.slash_count - 1
                &&& before.slash_count == 0 ==> after.slash_count == 0
                &&& i128::MIN <= before.total_slashed - record.amount <= i128::MAX
                    ==> after.total_slashed == before.total_slashed - record.amount
                &&& before.total_slashed - record.amount > i128::MAX ==> after.total_slashed
                    == i128::MAX
                &&& before.total_slashed - record.amount < i128::MIN ==> after.total_slashed
                    == i128::MIN
                &&& after.last_updated == s.now
                &&& after == (ReputationRecord {
                    total_score: after.total_score,
                    slash_count: after.slash_count,
                    total_slashed: after.total_slashed,
                    last_updated: after.last_updated,
                    ..before
                })
            }
            &&& accounts::announced(
                s,
                t,
                Event::SlashDisputeResolved { escrow_id: id, upheld, amount: record.amount },
            )
            &&& t == (Ledger {
                escrows: t.escrows,
                slashes: t.slashes,
                reputations: t.reputations,
                auths: t.auths,
                calls: t.calls,
                touched: t.touched,
                instance_touched: t.instance_touched,
                ..s
            })
        }),
{
    broadcast use crate::laws::books::lemma_flow_push;

    accounts::law_access(s, id, token, account);
    assert(s.keeps(id));
    let t = s.resolve_slash_done(caller, id, upheld);
    assert(t.escrows =~= s.escrows.insert(id, t.escrows[id]));
    assert(t.calls[t.calls.len() - 1] == t.calls.last());
}

} // verus!
