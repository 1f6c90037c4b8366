//! Rent: what is due, what it buys, and when an escrow runs out of it.
use vstd::prelude::*;

use crate::errors::EscrowError;
use crate::ledger::Ledger;
use crate::rent::{RENT_PERIOD_SECONDS, RENT_RESERVE_PERIODS};
use crate::types::{Address, EscrowMetaView};

verus! {

/// In a well-kept ledger an escrow is out of reach only where it is not there or its rent has
/// run out.
pub proof fn law_access_refusal(s: Ledger, id: u64)
    requires
        s.well_kept(),
        s.access_refusal(id) is Some,
    ensures
        s.access_refusal(id) == Some(EscrowError::EscrowNotFound),
        s.escrows.contains_key(id) ==> s.rent_has_expired(s.escrows[id]),
{
    if s.escrows.contains_key(id) {
        assert(s.keeps(id));
    }
}

/// As long as the reserve lasts, rent is collected in full: one unit for each entry and each
/// period that has passed. The reserve pays it, and the checkpoint moves on by those periods.
pub proof fn law_rent_is_paid_in_full(s: Ledger, meta: EscrowMetaView)
    requires
        meta.rent_balance >= 0,
        !s.rent_has_expired(meta),
    ensures
        s.rent_collectable(meta) == s.rent_periods(meta) * s.active_storage_entries(meta),
        s.after_rent(meta).rent_balance == meta.rent_balance - s.rent_periods(meta)
            * s.active_storage_entries(meta),
        s.after_rent(meta).last_rent_collection_at == meta.last_rent_collection_at
            + s.rent_periods(meta) * RENT_PERIOD_SECONDS,
{
    let rate = s.rent_due_per_period(meta);
    let periods = s.rent_periods(meta);
    let balance = meta.rent_balance as int;
    crate::rent::lemma_rent(s, meta);
    if periods == 0 {
        assert(0 * rate == 0);
    } else {
        assert(periods * rate <= balance) by (nonlinear_arith)
            requires
                periods <= balance / rate,
                rate >= 1,
        ;
        let due = periods * rate;
        assert(due / rate == periods) by (nonlinear_arith)
            requires
                due == periods * rate,
                rate >= 1,
        ;
    }
}

/// Rent is not taken twice: right after a settlement nothing is due.
pub proof fn law_rent_is_settled_once(s: Ledger, meta: EscrowMetaView)
    requires
        meta.rent_balance >= 0,
        !s.rent_has_expired(meta),
    ensures
        s.rent_periods(s.after_rent(meta)) == 0,
        s.after_rent(s.after_rent(meta)) == s.after_rent(meta),
        !s.rent_has_expired(s.after_rent(meta)),
{
    law_rent_is_paid_in_full(s, meta);
    crate::rent::lemma_rent(s, meta);
}

/// Paying for some more periods buys exactly those periods.
pub proof fn law_top_up_buys_periods(s: Ledger, caller: Address, id: u64, periods: u64)
    requires
        s.well_kept(),
        s.top_up_refusal(caller, id, periods) is None,
    ensures
        ({
            let t = s.top_up_done(caller, id, periods);
            let before = s.accessed_escrow(id);
            let after = t.escrows[id];
            &&& t.rent_covered(after) == s.rent_covered(before) + periods
            &&& after.last_rent_collection_at == before.last_rent_collection_at
        }),
{
    crate::laws::keeping::lemma_access_keeps(s, id);
    assert(s.keeps(id));
    let meta = s.accessed_escrow(id);
    let t = s.top_up_done(caller, id, periods);
    let rate = s.rent_due_per_period(meta);
    let balance = meta.rent_balance as int;
    assert(rate >= 1);
    assert(rate * periods >= 0) by (nonlinear_arith)
        requires
            rate >= 0,
            periods >= 0,
    ;
    let k = periods as int;
    assert((balance + rate * k) / rate == balance / rate + k) by (nonlinear_arith)
        requires
            rate >= 1,
    ;
    assert(t.rent_due_per_period(t.escrows[id]) == rate);
    if periods == 0 {
        assert(rate * 0 == 0);
    }
}

/// A new escrow is paid for in advance: with no other entries, it lives for the whole reserve,
/// and expires one period after that.
pub proof fn law_new_escrow_is_covered(s: Ledger, meta: EscrowMetaView)
    requires
        meta.rent_balance == crate::rent::reserve_for(1),
        meta.milestone_count == 0,
        !s.recurring.contains_key(meta.escrow_id),
        !s.cancellations.contains_key(meta.escrow_id),
        !s.slashes.contains_key(meta.escrow_id),
    ensures
        s.rent_covered(meta) == RENT_RESERVE_PERIODS,
        s.rent_has_expired(meta) <==> s.now >= meta.last_rent_collection_at + (
        RENT_RESERVE_PERIODS + 1) * RENT_PERIOD_SECONDS,
        s.rent_expires_at(meta) == meta.last_rent_collection_at + (RENT_RESERVE_PERIODS + 1)
            * RENT_PERIOD_SECONDS,
{
    assert(s.rent_due_per_period(meta) == 1);
}

/// An escrow expires at the moment that is announced for it, and not before: as long as the
/// count of covered periods fits into 64 bits.
pub proof fn law_expiry_is_announced(s: Ledger, meta: EscrowMetaView)
    requires
        meta.rent_balance >= 0,
        s.rent_covered(meta) <= u64::MAX,
    ensures
        s.rent_has_expired(meta) <==> s.now >= s.rent_expires_at(meta),
{
    crate::rent::lemma_rent(s, meta);
}

/// Each new milestone, and each request to cancel, is paid for in advance like the rest.
pub proof fn law_entries_are_paid_for(
    s: Ledger,
    caller: Address,
    id: u64,
    title: Seq<u8>,
    description_hash: [u8; 32],
    amount: i128,
    reason: Seq<u8>,
)
    requires
        s.well_kept(),
    ensures
        s.add_milestone_refusal(caller, id, amount) is None ==> s.add_milestone_done(
            caller,
            id,
            title,
            description_hash,
            amount,
        ).escrows[id].rent_balance == s.accessed_escrow(id).rent_balance + crate::rent::reserve_for(
            1,
        ),
        s.request_cancellation_refusal(caller, id) is None ==> s.request_cancellation_done(
            caller,
            id,
            reason,
        ).escrows[id].rent_balance == s.accessed_escrow(id).rent_balance + crate::rent::reserve_for(
            1,
        ),
{
    if s.access_refusal(id) is None {
        crate::laws::keeping::lemma_access_keeps(s, id);
        assert(s.keeps(id));
    }
}

} // verus!
