//! The requests that are not about single milestones keep the ledger well kept, too.
use vstd::prelude::*;

use crate::ledger::{HostCall, Ledger};
use crate::types::{
    Address, BridgeProtocol, CancellationRequestView, EscrowMetaView, EscrowStatus, MilestoneView,
    MultisigConfigView, OracleResolutionPayload, RecurringInterval, RecurringPaymentConfig,
    ReputationRecord, SlashRecordView, WrappedTokenInfoView, MS_APPROVED, MS_RELEASED, MS_SUBMITTED,
};

verus! {

// ---------------------------------------------------------------------------
// The beginning
// ---------------------------------------------------------------------------

/// Setting the contract up keeps the ledger well kept; before that, there are no escrows.
pub proof fn law_initialize_keeps(s: Ledger, admin: Address)
    requires
        s.well_kept(),
        s.admin is None,
    ensures
        s.initialize_done(admin).well_kept(),
        forall|id: u64| !(#[trigger] s.escrows.contains_key(id)),
{
    assert forall|id: u64| !(#[trigger] s.escrows.contains_key(id)) by {
        if s.escrows.contains_key(id) {
            assert(s.keeps(id));
        }
    }
    let t = s.initialize_done(admin);
    assert forall|id: u64| #[trigger] t.escrows.contains_key(id) implies t.keeps(id) by {
        assert(s.escrows.contains_key(id));
    }
}

/// A ledger on which nothing is kept is well kept, and its lists are exact.
pub proof fn law_empty_ledger(s: Ledger)
    requires
        s.escrows == Map::<u64, EscrowMetaView>::empty(),
        s.milestones == Map::<(u64, u32), MilestoneView>::empty(),
        s.recurring == Map::<u64, RecurringPaymentConfig>::empty(),
        s.cancellations == Map::<u64, CancellationRequestView>::empty(),
        s.slashes == Map::<u64, SlashRecordView>::empty(),
        s.reputations == Map::<Address, ReputationRecord>::empty(),
        s.by_status == Map::<EscrowStatus, Seq<u64>>::empty(),
        s.by_participant == Map::<Address, Seq<u64>>::empty(),
        s.cancellations_by_requester == Map::<Address, Seq<u64>>::empty(),
    ensures
        s.well_kept(),
        s.listed(),
{
}

/// The admin's settings, an upgrade, and updates of reputations and of bridged transfers have
/// nothing to do with escrows: the ledger stays well kept, and its lists exact.
pub proof fn law_settings_keep(
    s: Ledger,
    caller: Address,
    other: Address,
    paused: bool,
    bytes: [u8; 32],
    info: WrappedTokenInfoView,
    transfer_id: Seq<u8>,
    bridge: BridgeProtocol,
    confirmations: u32,
    required: u32,
    completed: bool,
    disputed: bool,
    volume: i128,
)
    requires
        s.well_kept(),
    ensures
        s.pause_done(caller, paused).well_kept(),
        s.upgrade_done(caller, bytes).well_kept(),
        s.register_token_done(caller, info).well_kept(),
        s.confirm_bridge_done(transfer_id, bridge, confirmations, required).well_kept(),
        s.updating_reputation(caller, completed, disputed, volume).well_kept(),
        (Ledger { oracle: Some(other), ..s }).well_kept(),
        (Ledger { fallback_oracle: Some(other), ..s }).well_kept(),
        (Ledger { wormhole_bridge: Some(other), ..s }).well_kept(),
        (Ledger { trusted_oracle_key: Some(bytes), ..s }).well_kept(),
{
    lemma_same_escrows(s, s.pause_done(caller, paused));
    lemma_same_escrows(s, s.upgrade_done(caller, bytes));
    lemma_same_escrows(s, s.register_token_done(caller, info));
    lemma_same_escrows(
        s,
        s.confirm_bridge_done(transfer_id, bridge, confirmations, required),
    );
    lemma_same_escrows(s, s.updating_reputation(caller, completed, disputed, volume));
    lemma_same_escrows(s, Ledger { oracle: Some(other), ..s });
    lemma_same_escrows(s, Ledger { fallback_oracle: Some(other), ..s });
    lemma_same_escrows(s, Ledger { wormhole_bridge: Some(other), ..s });
    lemma_same_escrows(s, Ledger { trusted_oracle_key: Some(bytes), ..s });
}

/// Whether a ledger is well kept depends on what is kept for escrows, and on where reputations
/// are kept.
proof fn lemma_same_escrows(s: Ledger, t: Ledger)
    requires
        s.well_kept(),
        t.escrows == s.escrows,
        t.milestones == s.milestones,
        t.recurring == s.recurring,
        t.cancellations == s.cancellations,
        t.slashes == s.slashes,
        t.admin == s.admin,
        t.escrow_counter == s.escrow_counter,
        t.records_kept(),
    ensures
        t.well_kept(),
{
    assert forall|id: u64| #[trigger] t.escrows.contains_key(id) implies t.keeps(id) by {
        assert(s.escrows.contains_key(id));
        assert(s.keeps(id));
    }
    assert forall|id: u64, mid: u32| #[trigger]
        t.milestones.contains_key((id, mid)) implies t.escrows.contains_key(id) by {
        assert(s.milestones.contains_key((id, mid)));
    }
}

/// A look at an escrow keeps the ledger well kept and changes nothing but its rent.
pub proof fn law_views_keep(s: Ledger, id: u64, count: u32)
    requires
        s.well_kept(),
        s.access_refusal(id) is None,
    ensures
        s.accessing(id).well_kept(),
        s.accessing(id).touching_milestones(id, count).well_kept(),
        s.same_elsewhere(s.accessing(id), id),
        s.accessing(id).milestones == s.milestones,
        s.accessing(id).escrows[id] == (EscrowMetaView {
            rent_balance: s.accessed_escrow(id).rent_balance,
            last_rent_collection_at: s.accessed_escrow(id).last_rent_collection_at,
            ..s.escrows[id]
        }),
{
    crate::laws::keeping::lemma_access_keeps(s, id);
    lemma_touching_milestones(s.accessing(id), id, count);
    lemma_same_escrows(s.accessing(id), s.accessing(id).touching_milestones(id, count));
}

/// Keeping milestones alive changes nothing else.
proof fn lemma_touching_milestones(s: Ledger, id: u64, count: u32)
    ensures
        s.touching_milestones(id, count) == (Ledger {
            touched: s.touching_milestones(id, count).touched,
            ..s
        }),
    decreases count,
{
    if count > 0 {
        lemma_touching_milestones(s, id, (count - 1) as u32);
    }
}

/// A ledger with one new escrow, which has neither milestones nor anything else.
proof fn lemma_created(s: Ledger, t: Ledger, meta: EscrowMetaView)
    requires
        s.well_kept(),
        s.admin is Some,
        s.next_escrow_id() < u64::MAX,
        meta.escrow_id == s.next_escrow_id(),
        meta.milestone_count == 0,
        meta.submitted_count == 0,
        meta.approved_count == 0,
        meta.released_count == 0,
        meta.allocated_amount == 0,
        meta.rent_balance >= 0,
        meta.remaining_balance >= 0,
        meta.status == EscrowStatus::Active,
        t.recurring.contains_key(meta.escrow_id) ==> s.recurring.contains_key(meta.escrow_id)
            || t.recurring[meta.escrow_id].payment_amount > 0,
        t.escrows == s.escrows.insert(meta.escrow_id, meta),
        t.milestones == s.milestones,
        t.cancellations == s.cancellations,
        t.slashes == s.slashes,
        s.same_elsewhere(t, meta.escrow_id),
        t.escrow_counter == Some((s.next_escrow_id() + 1) as u64),
        t.records_kept(),
    ensures
        !s.escrows.contains_key(s.next_escrow_id()),
        t.well_kept(),
{
    let id = s.next_escrow_id();
    if s.escrows.contains_key(id) {
        assert(s.keeps(id));
    }
    assert forall|mid: u32| #[trigger] t.milestones.contains_key((id, mid)) <==> mid < 0 by {
        if s.milestones.contains_key((id, mid)) {
            assert(s.escrows.contains_key(id));
        }
    }
    if s.recurring.contains_key(id) {
        assert(s.escrows.contains_key(id));
    }
    if t.cancellations.contains_key(id) {
        assert(s.cancellations.contains_key(id));
    }
    if t.slashes.contains_key(id) {
        assert(s.slashes.contains_key(id));
    }
    assert(t.keeps(id));
    crate::laws::keeping::lemma_one_escrow(s, t, id);
}

/// Creating an escrow keeps the ledger well kept. The new escrow gets a number that no escrow
/// had, and nothing that was there before is overwritten.
pub proof fn law_create_escrow_keeps(
    s: Ledger,
    client: Address,
    freelancer: Address,
    token: Address,
    total_amount: i128,
    brief_hash: [u8; 32],
    arbiter: Option<Address>,
    deadline: Option<u64>,
    lock_time: Option<u64>,
    signers: Seq<Address>,
    multisig: MultisigConfigView,
)
    requires
        s.well_kept(),
        s.create_escrow_refusal(token, total_amount, deadline, lock_time) is None,
        s.next_escrow_id() < u64::MAX,
    ensures
        ({
            let t = s.create_escrow_done(
                client,
                freelancer,
                token,
                total_amount,
                brief_hash,
                arbiter,
                deadline,
                lock_time,
                signers,
                multisig,
            );
            let id = s.next_escrow_id();
            &&& t.well_kept()
            &&& s.same_elsewhere(t, id)
            &&& !s.escrows.contains_key(id)
            &&& t.escrows.contains_key(id)
            &&& t.next_escrow_id() == id + 1
        }),
{
    let t = s.create_escrow_done(
        client,
        freelancer,
        token,
        total_amount,
        brief_hash,
        arbiter,
        deadline,
        lock_time,
        signers,
        multisig,
    );
    lemma_created(s, t, t.escrows[s.next_escrow_id()]);
}

/// Creating a recurring escrow keeps the ledger well kept. The new escrow gets a number that no
/// escrow had.
pub proof fn law_create_recurring_keeps(
    s: Ledger,
    client: Address,
    freelancer: Address,
    token: Address,
    payment_amount: i128,
    interval: RecurringInterval,
    start_time: u64,
    end_date: Option<u64>,
    number_of_payments: Option<u32>,
    brief_hash: [u8; 32],
)
    requires
        s.well_kept(),
        s.create_recurring_refusal(
            payment_amount,
            interval,
            start_time,
            end_date,
            number_of_payments,
        ) is None,
        s.next_escrow_id() < u64::MAX,
    ensures
        ({
            let t = s.create_recurring_done(
                client,
                freelancer,
                token,
                payment_amount,
                interval,
                start_time,
                end_date,
                number_of_payments,
                brief_hash,
            );
            let id = s.next_escrow_id();
            &&& t.well_kept()
            &&& s.same_elsewhere(t, id)
            &&& !s.escrows.contains_key(id)
            &&& t.escrows.contains_key(id)
            &&& t.recurring.contains_key(id)
            &&& t.next_escrow_id() == id + 1
        }),
{
    let t = s.create_recurring_done(
        client,
        freelancer,
        token,
        payment_amount,
        interval,
        start_time,
        end_date,
        number_of_payments,
        brief_hash,
    );
    lemma_created(s, t, t.escrows[s.next_escrow_id()]);
}

/// A new escrow reads back as it was created: it is in reach, active, holds its whole amount,
/// and has no milestones yet.
pub proof fn law_created_escrow_reads_back(
    s: Ledger,
    client: Address,
    freelancer: Address,
    token: Address,
    total_amount: i128,
    brief_hash: [u8; 32],
    arbiter: Option<Address>,
    deadline: Option<u64>,
    lock_time: Option<u64>,
    signers: Seq<Address>,
    multisig: MultisigConfigView,
)
    requires
        s.well_kept(),
        s.create_escrow_refusal(token, total_amount, deadline, lock_time) is None,
        s.next_escrow_id() < u64::MAX,
    ensures
        ({
            let t = s.create_escrow_done(
                client,
                freelancer,
                token,
                total_amount,
                brief_hash,
                arbiter,
                deadline,
                lock_time,
                signers,
                multisig,
            );
            let id = s.next_escrow_id();
            let state = crate::views::state_of(t.milestones, id, t.accessed_escrow(id));
            &&& t.get_escrow_refusal(id) is None
            &&& state.escrow_id == id
            &&& state.client == client
            &&& state.freelancer == freelancer
            &&& state.token == token
            &&& state.total_amount == total_amount
            &&& state.remaining_balance == total_amount
            &&& state.status == EscrowStatus::Active
            &&& state.milestones.len() == 0
            &&& state.arbiter == arbiter
            &&& state.deadline == deadline
            &&& state.lock_time == lock_time
            &&& state.brief_hash == brief_hash
            &&& state.created_at == s.now
            &&& state.buyer_signers.contains(client)
            &&& forall|who: Address| #[trigger]
                signers.contains(who) ==> state.buyer_signers.contains(who)
        }),
{
    let all = crate::creation::signers_with(signers, client);
    assert forall|who: Address| #[trigger] signers.contains(who) implies all.contains(who) by {
        let i = choose|i: int| 0 <= i < signers.len() && signers[i] == who;
        assert(all[i] == who);
    }
    if !signers.contains(client) {
        assert(all[signers.len() as int] == client);
    }
}

/// A new milestone reads back as it was added, and its escrow is still in reach.
pub proof fn law_added_milestone_reads_back(
    s: Ledger,
    caller: Address,
    id: u64,
    title: Seq<u8>,
    description_hash: [u8; 32],
    amount: i128,
)
    requires
        s.well_kept(),
        s.add_milestone_refusal(caller, id, amount) is None,
    ensures
        ({
            let t = s.add_milestone_done(caller, id, title, description_hash, amount);
            let mid = s.escrows[id].milestone_count;
            &&& t.access_refusal(id) is None
            &&& t.milestones.contains_key((id, mid))
            &&& t.milestones[(id, mid)] == crate::milestones::new_milestone(
                mid,
                title,
                description_hash,
                amount,
            )
        }),
{
    crate::laws::keeping::lemma_access_keeps(s, id);
    assert(s.keeps(id));
    crate::laws::upkeep::law_rent_is_settled_once(s, s.escrows[id]);
    let t = s.add_milestone_done(caller, id, title, description_hash, amount);
    assert(t.escrows[id].last_rent_collection_at == s.accessed_escrow(id).last_rent_collection_at);
    assert(t.rent_periods(t.escrows[id]) == 0);
}

// ---------------------------------------------------------------------------
// Changes of the header alone
// ---------------------------------------------------------------------------

/// A request that touches no milestone, and leaves the header's number, counters and rent
/// reserve in order, keeps the ledger well kept.
proof fn lemma_header_change(s: Ledger, t: Ledger, id: u64)
    requires
        s.well_kept(),
        s.escrows.contains_key(id),
        s.same_elsewhere(t, id),
        s.next_escrow_id() <= t.next_escrow_id(),
        t.milestones == s.milestones,
        t.escrows.contains_key(id),
        ({
            let before = s.escrows[id];
            let after = t.escrows[id];
            &&& after.escrow_id == before.escrow_id
            &&& after.milestone_count == before.milestone_count
            &&& after.approved_count == before.approved_count
            &&& after.released_count == before.released_count
            &&& after.submitted_count == before.submitted_count
            &&& after.allocated_amount == before.allocated_amount
            &&& after.rent_balance >= 0
            &&& after.remaining_balance >= 0
            &&& after.status == EscrowStatus::Completed || after.status == EscrowStatus::Cancelled
                ==> after.remaining_balance == 0
            &&& t.slashes.contains_key(id) ==> after.status == EscrowStatus::Cancelled
                && !t.cancellations.contains_key(id)
            &&& t.recurring.contains_key(id) ==> t.recurring[id].payment_amount > 0
        }),
        t.cancellations.contains_key(id) ==> t.cancellations[id].escrow_id == id,
        t.slashes.contains_key(id) ==> t.slashes[id].escrow_id == id,
        t.records_kept(),
    ensures
        t.well_kept(),
{
    assert(s.keeps(id));
    assert(t.keeps(id));
    crate::laws::keeping::lemma_one_escrow(s, t, id);
}

/// Locking funds keeps the ledger well kept.
pub proof fn law_locks_keep(s: Ledger, caller: Address, id: u64, time: u64)
    requires
        s.well_kept(),
    ensures
        s.start_timelock_refusal(caller, id, time) is None ==> {
            let t = s.start_timelock_done(caller, id, time);
            t.well_kept() && s.same_elsewhere(t, id)
        },
        s.extend_lock_refusal(caller, id, time) is None ==> {
            let t = s.extend_lock_done(caller, id, time);
            t.well_kept() && s.same_elsewhere(t, id)
        },
{
    if s.start_timelock_refusal(caller, id, time) is None {
        crate::laws::keeping::lemma_access_keeps(s, id);
        assert(s.keeps(id));
        lemma_header_change(s, s.start_timelock_done(caller, id, time), id);
    }
    if s.extend_lock_refusal(caller, id, time) is None {
        crate::laws::keeping::lemma_access_keeps(s, id);
        assert(s.keeps(id));
        lemma_header_change(s, s.extend_lock_done(caller, id, time), id);
    }
}

/// Topping up the rent keeps the ledger well kept.
pub proof fn law_top_up_keeps(s: Ledger, caller: Address, id: u64, periods: u64)
    requires
        s.well_kept(),
        s.top_up_refusal(caller, id, periods) is None,
    ensures
        s.top_up_done(caller, id, periods).well_kept(),
        s.same_elsewhere(s.top_up_done(caller, id, periods), id),
{
    crate::laws::keeping::lemma_access_keeps(s, id);
    assert(s.keeps(id));
    let rate = s.rent_due_per_period(s.accessed_escrow(id));
    assert(rate * periods >= 0) by (nonlinear_arith)
        requires
            rate >= 0,
            periods >= 0,
    ;
    lemma_header_change(s, s.top_up_done(caller, id, periods), id);
}

/// Pausing, resuming and cancelling a schedule keeps the ledger well kept.
pub proof fn law_schedule_changes_keep(s: Ledger, caller: Address, id: u64)
    requires
        s.well_kept(),
    ensures
        s.schedule_refusal(caller, id) is None ==> {
            &&& s.pause_recurring_done(caller, id).well_kept()
            &&& s.same_elsewhere(s.pause_recurring_done(caller, id), id)
            &&& s.resume_recurring_done(caller, id).well_kept()
            &&& s.same_elsewhere(s.resume_recurring_done(caller, id), id)
        },
        s.cancel_recurring_refusal(caller, id) is None ==> {
            &&& s.cancel_recurring_done(caller, id).well_kept()
            &&& s.same_elsewhere(s.cancel_recurring_done(caller, id), id)
        },
{
    if s.schedule_refusal(caller, id) is None {
        crate::laws::keeping::lemma_access_keeps(s, id);
        assert(s.keeps(id));
        lemma_header_change(s, s.pause_recurring_done(caller, id), id);
        lemma_header_change(s, s.resume_recurring_done(caller, id), id);
    }
    if s.cancel_recurring_refusal(caller, id) is None {
        crate::laws::keeping::lemma_access_keeps(s, id);
        assert(s.keeps(id));
        lemma_header_change(s, s.cancel_recurring_done(caller, id), id);
    }
}

/// Cancelling an escrow, requesting that, executing or disputing the request keeps the ledger
/// well kept.
pub proof fn law_cancellations_keep(s: Ledger, caller: Address, id: u64, reason: Seq<u8>)
    requires
        s.well_kept(),
    ensures
        s.cancel_escrow_refusal(caller, id) is None ==> {
            let t = s.cancel_escrow_done(caller, id);
            t.well_kept() && s.same_elsewhere(t, id)
        },
        s.request_cancellation_refusal(caller, id) is None ==> {
            let t = s.request_cancellation_done(caller, id, reason);
            t.well_kept() && s.same_elsewhere(t, id)
        },
        s.execute_cancellation_refusal(id) is None ==> {
            let t = s.execute_cancellation_done(id);
            t.well_kept() && s.same_elsewhere(t, id)
        },
        s.dispute_cancellation_refusal(caller, id) is None ==> {
            let t = s.dispute_cancellation_done(caller, id);
            t.well_kept() && s.same_elsewhere(t, id)
        },
{
    if s.access_refusal(id) is None {
        crate::laws::keeping::lemma_access_keeps(s, id);
        assert(s.keeps(id));
        if s.cancellations.contains_key(id) {
            assert(s.cancellations[id].escrow_id == id);
        }
        if s.slashes.contains_key(id) {
            assert(s.slashes[id].escrow_id == id);
        }
    }
    if s.cancel_escrow_refusal(caller, id) is None {
        lemma_header_change(s, s.cancel_escrow_done(caller, id), id);
    }
    if s.request_cancellation_refusal(caller, id) is None {
        lemma_header_change(s, s.request_cancellation_done(caller, id, reason), id);
    }
    if s.execute_cancellation_refusal(id) is None {
        lemma_header_change(s, s.execute_cancellation_done(id), id);
    }
    if s.dispute_cancellation_refusal(caller, id) is None {
        lemma_header_change(s, s.dispute_cancellation_done(caller, id), id);
    }
}

/// Finalizing a slash, disputing it or resolving that dispute keeps the ledger well kept.
pub proof fn law_slashes_keep(s: Ledger, caller: Address, id: u64, upheld: bool)
    requires
        s.well_kept(),
    ensures
        s.finalize_slash_refusal(id) is None ==> {
            let t = s.finalize_slash_done(id);
            t.well_kept() && s.same_elsewhere(t, id)
        },
        s.dispute_slash_refusal(caller, id) is None ==> {
            let t = s.dispute_slash_done(caller, id);
            t.well_kept() && s.same_elsewhere(t, id)
        },
        s.resolve_slash_refusal(caller, id) is None ==> {
            let t = s.resolve_slash_done(caller, id, upheld);
            t.well_kept() && s.same_elsewhere(t, id)
        },
{
    if s.slashes.contains_key(id) {
        assert(s.slashes[id].escrow_id == id);
        assert(s.keeps(id));
    }
    if s.access_refusal(id) is None {
        crate::laws::keeping::lemma_access_keeps(s, id);
        if s.cancellations.contains_key(id) {
            assert(s.cancellations[id].escrow_id == id);
        }
    }
    if s.finalize_slash_refusal(id) is None {
        lemma_header_change(s, s.finalize_slash_done(id), id);
    }
    if s.dispute_slash_refusal(caller, id) is None {
        lemma_header_change(s, s.dispute_slash_done(caller, id), id);
    }
    if s.resolve_slash_refusal(caller, id) is None {
        lemma_header_change(s, s.resolve_slash_done(caller, id, upheld), id);
    }
}

/// Resolving a dispute keeps the ledger well kept.
pub proof fn law_resolve_dispute_keeps(
    s: Ledger,
    caller: Address,
    id: u64,
    client_amount: i128,
    freelancer_amount: i128,
)
    requires
        s.well_kept(),
        s.resolve_dispute_refusal(caller, id, client_amount, freelancer_amount) is None,
    ensures
        s.resolve_dispute_done(caller, id, client_amount, freelancer_amount).well_kept(),
        s.same_elsewhere(
            s.resolve_dispute_done(caller, id, client_amount, freelancer_amount),
            id,
        ),
{
    crate::laws::keeping::lemma_access_keeps(s, id);
    assert(s.keeps(id));
    let a = s.demanding(caller).accessing(id).touching_for_judge(s.accessed_escrow(id), caller);
    let t = s.resolve_dispute_done(caller, id, client_amount, freelancer_amount);
    lemma_shares(a, id, s.accessed_escrow(id), client_amount, freelancer_amount);
    lemma_header_change(s, t, id);
}

/// Resolving a dispute by the oracle's payload keeps the ledger well kept.
pub proof fn law_oracle_resolve_keeps(
    s: Ledger,
    id: u64,
    payload: OracleResolutionPayload,
    grace_period_seconds: u64,
)
    requires
        s.well_kept(),
        s.oracle_resolve_refusal(id, payload, grace_period_seconds) is None,
    ensures
        s.oracle_resolve_done(id, payload).well_kept(),
        s.same_elsewhere(s.oracle_resolve_done(id, payload), id),
{
    crate::laws::keeping::lemma_access_keeps(s, id);
    assert(s.keeps(id));
    let meta = s.accessed_escrow(id);
    let share = crate::disputes::client_share(meta.remaining_balance, payload.client_bps);
    let a = s.accessing(id).calling(
        HostCall::VerifySignature {
            public_key: payload.oracle_pubkey,
            message: crate::disputes::resolution_message(payload),
            signature: payload.signature,
        },
    );
    lemma_shares(a, id, meta, share as i128, (meta.remaining_balance - share) as i128);
    lemma_header_change(s, s.oracle_resolve_done(id, payload), id);
}

/// What paying the shares of a dispute leaves as it was.
pub proof fn lemma_shares(
    a: Ledger,
    id: u64,
    meta: EscrowMetaView,
    client_amount: i128,
    freelancer_amount: i128,
)
    requires
        meta.escrow_id == id,
    ensures
        ({
            let t = a.paying_shares(id, meta, client_amount, freelancer_amount);
            &&& t == (Ledger {
                escrows: a.escrows.insert(
                    id,
                    EscrowMetaView {
                        remaining_balance: 0,
                        status: EscrowStatus::Completed,
                        ..meta
                    },
                ),
                by_status: t.by_status,
                reputations: t.reputations,
                calls: t.calls,
                touched: t.touched,
                ..a
            })
        }),
{
}

/// Raising a dispute keeps the ledger well kept, whether or not it names a milestone.
pub proof fn law_raise_dispute_keeps(
    s: Ledger,
    caller: Address,
    id: u64,
    milestone_id: Option<u32>,
)
    requires
        s.well_kept(),
        s.raise_dispute_refusal(caller, id, milestone_id) is None,
    ensures
        s.raise_dispute_done(caller, id, milestone_id).well_kept(),
        s.same_elsewhere(s.raise_dispute_done(caller, id, milestone_id), id),
{
    crate::laws::keeping::lemma_access_keeps(s, id);
    assert(s.keeps(id));
    let raised = s.raise_dispute_done(caller, id, None);
    lemma_header_change(s, raised, id);
    if let Some(mid) = milestone_id {
        let t = s.raise_dispute_done(caller, id, milestone_id);
        assert(s.milestones.contains_key((id, mid)));
        assert(s.milestones[(id, mid)].id == mid);
        assert(raised.keeps(id));
        let m = raised.milestones[(id, mid)];
        if m.status == MS_SUBMITTED || m.status == crate::types::MS_PENDING {
            crate::laws::keeping::lemma_tallies_change(
                raised.milestones,
                id,
                s.escrows[id].milestone_count,
                mid,
                t.milestones[(id, mid)],
            );
        }
        assert(t.keeps(id));
        crate::laws::keeping::lemma_one_escrow(s, t, id);
    }
}

// ---------------------------------------------------------------------------
// Recurring payments
// ---------------------------------------------------------------------------

/// Each payment is a released milestone of its own.
pub proof fn lemma_paying(
    c: Ledger,
    id: u64,
    meta: EscrowMetaView,
    config: RecurringPaymentConfig,
    k: nat,
)
    requires
        meta.milestone_count + k <= u32::MAX,
        config.payment_amount > 0,
        crate::laws::keeping::numbered(c.milestones, id, meta.milestone_count),
    ensures
        ({
            let t = c.making_payments(id, meta, config, k);
            let n = meta.milestone_count as nat;
            &&& t == (Ledger {
                milestones: t.milestones,
                calls: t.calls,
                touched: t.touched,
                ..c
            })
            &&& c.same_elsewhere(t, id)
            &&& crate::laws::keeping::numbered(t.milestones, id, (n + k) as u32)
            &&& crate::laws::keeping::counted(t.milestones, id, n + k, MS_SUBMITTED)
                == crate::laws::keeping::counted(c.milestones, id, n, MS_SUBMITTED)
            &&& crate::laws::keeping::counted(t.milestones, id, n + k, MS_APPROVED)
                == crate::laws::keeping::counted(c.milestones, id, n, MS_APPROVED)
            &&& crate::laws::keeping::counted(t.milestones, id, n + k, MS_RELEASED)
                == crate::laws::keeping::counted(c.milestones, id, n, MS_RELEASED) + k
            &&& crate::laws::keeping::allocated(t.milestones, id, n + k)
                == crate::laws::keeping::allocated(c.milestones, id, n) + k * config.payment_amount
        }),
    decreases k,
{
    let amount = config.payment_amount as int;
    if k > 0 {
        let j = (k - 1) as nat;
        lemma_paying(c, id, meta, config, j);
        let before = c.making_payments(id, meta, config, j);
        let m = crate::recurring::payment_milestone(meta, config, c.now, k - 1);
        crate::laws::keeping::lemma_tallies_grow(
            before.milestones,
            id,
            (meta.milestone_count + j) as u32,
            m,
        );
        assert(k * amount == j * amount + amount) by (nonlinear_arith)
            requires
                k == j + 1,
        ;
    } else {
        assert(0 * amount == 0);
    }
}

/// Processing recurring payments keeps the ledger well kept.
pub proof fn law_process_recurring_keeps(s: Ledger, id: u64)
    requires
        s.well_kept(),
        s.process_recurring_refusal(id) is None,
    ensures
        s.process_recurring_done(id).well_kept(),
        s.same_elsewhere(s.process_recurring_done(id), id),
{
    crate::laws::keeping::lemma_access_keeps(s, id);
    assert(s.keeps(id));
    let meta = s.accessed_escrow(id);
    let config = s.recurring[id];
    let n = crate::recurring::due_payments(config, s.now);
    crate::recurring::lemma_due(config, s.now, 0);
    crate::recurring::lemma_payments_accepted(meta, config, n, n);
    let c = s.opening_schedule(id);
    let t = s.process_recurring_done(id);
    lemma_paying(c, id, meta, config, n as nat);
    assert(t.keeps(id));
    crate::laws::keeping::lemma_one_escrow(s, t, id);
}

// ---------------------------------------------------------------------------
// Rent
// ---------------------------------------------------------------------------

/// Collecting rent keeps the ledger well kept, also where it winds an escrow up: then nothing is
/// kept for that escrow any more.
pub proof fn law_collect_rent_keeps(s: Ledger, id: u64)
    requires
        s.well_kept(),
        s.collect_refusal(id) is None,
    ensures
        s.collected(id).well_kept(),
        s.same_elsewhere(s.collected(id), id),
        s.rent_has_expired(s.after_rent(s.escrows[id])) ==> {
            let t = s.collected(id);
            &&& !t.escrows.contains_key(id)
            &&& forall|mid: u32| !(#[trigger] t.milestones.contains_key((id, mid)))
            &&& !t.recurring.contains_key(id)
            &&& !t.cancellations.contains_key(id)
            &&& !t.slashes.contains_key(id)
        },
{
    assert(s.keeps(id));
    let meta = s.escrows[id];
    crate::rent::lemma_rent(s, meta);
    let t = s.collected(id);
    if !s.rent_has_expired(s.after_rent(meta)) {
        lemma_header_change(s, t, id);
    } else {
        assert forall|mid: u32| !(#[trigger] t.milestones.contains_key((id, mid))) by {
            if t.milestones.contains_key((id, mid)) {
                assert(s.milestones.contains_key((id, mid)));
                assert(mid < meta.milestone_count);
            }
        }
        assert forall|x: u64, mid: u32| x != id implies #[trigger] t.milestones.contains_key(
            (x, mid),
        ) == s.milestones.contains_key((x, mid)) && (s.milestones.contains_key((x, mid))
            ==> t.milestones[(x, mid)] == s.milestones[(x, mid)]) by {
        }
        assert(s.same_elsewhere(t, id));
        assert forall|x: u64| #[trigger] t.escrows.contains_key(x) implies t.keeps(x) by {
            assert(s.escrows.contains_key(x));
            assert(s.keeps(x));
            crate::laws::keeping::lemma_numbered_same(s.milestones, t.milestones, x, s.escrows[x]);
        }
        assert forall|x: u64, mid: u32| #[trigger]
            t.milestones.contains_key((x, mid)) implies t.escrows.contains_key(x) by {
            assert(s.milestones.contains_key((x, mid)));
            assert(s.escrows.contains_key(x));
        }
        assert forall|x: u64| #[trigger] t.recurring.contains_key(x) implies t.escrows.contains_key(
            x,
        ) by {
            assert(s.recurring.contains_key(x));
            assert(s.escrows.contains_key(x));
        }
        assert forall|x: u64| #[trigger]
            t.cancellations.contains_key(x) implies t.escrows.contains_key(x)
            && t.cancellations[x].escrow_id == x by {
            assert(s.cancellations.contains_key(x));
        }
        assert forall|x: u64| #[trigger] t.slashes.contains_key(x) implies t.escrows.contains_key(
            x,
        ) && t.slashes[x].escrow_id == x by {
            assert(s.slashes.contains_key(x));
        }
    }
}

} // verus!
