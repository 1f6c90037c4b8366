//! What a request means to one account: how its holdings change, and what it hears of it. Every
//! access to an escrow settles its rent first, so that is here, too.
use vstd::prelude::*;

use crate::errors::EscrowError;
use crate::ledger::{Event, EventView, HostCall, Ledger};
use crate::types::{Address, EscrowMetaView};

verus! {

/// What a payment of `amount` means to `account`: more for the payee, less for the payer.
pub open spec fn paid(from: Address, to: Address, amount: int, account: Address) -> int {
    (if account == to {
        amount
    } else {
        0
    }) - (if account == from {
        amount
    } else {
        0
    })
}

/// What `account` receives in `token` from `s` to `t`, less what it pays.
pub open spec fn received(s: Ledger, t: Ledger, token: Address, account: Address) -> int {
    crate::laws::books::flow(t.calls, token, account) - crate::laws::books::flow(
        s.calls,
        token,
        account,
    )
}

/// Whether `event` is announced on the way from `s` to `t`.
pub open spec fn announced(s: Ledger, t: Ledger, event: EventView) -> bool {
    exists|i: int|
        s.calls.len() <= i < t.calls.len() && #[trigger] t.calls[i] == HostCall::Publish(event)
}

/// The number of whole days since the rent of escrow `id` was last collected.
pub open spec fn days_owed(s: Ledger, id: u64) -> int {
    let last = s.escrows[id].last_rent_collection_at;
    if s.now > last {
        (s.now - last) / 86_400
    } else {
        0
    }
}

/// The number of entries that are kept for escrow `id`.
pub open spec fn entries_of(s: Ledger, id: u64) -> int {
    1 + s.escrows[id].milestone_count + (if s.recurring.contains_key(id) {
        1int
    } else {
        0
    }) + (if s.cancellations.contains_key(id) {
        1int
    } else {
        0
    }) + (if s.slashes.contains_key(id) {
        1int
    } else {
        0
    })
}

/// The rent that escrow `id` owes: one unit for each entry and each day.
pub open spec fn rent_owed(s: Ledger, id: u64) -> int {
    days_owed(s, id) * entries_of(s, id)
}

/// What the rent of escrow `id`, as it is settled now, means to `account`.
pub open spec fn rent_paid(s: Ledger, id: u64, account: Address) -> int {
    paid(s.contract, s.admin->0, rent_owed(s, id), account)
}

/// An escrow is in reach as long as its reserve covers the rent that it owes.
pub proof fn law_reach(s: Ledger, id: u64)
    requires
        s.well_kept(),
    ensures
        s.access_refusal(id) is None <==> s.escrows.contains_key(id) && rent_owed(s, id)
            <= s.escrows[id].rent_balance,
        s.access_refusal(id) is Some ==> s.access_refusal(id) == Some(EscrowError::EscrowNotFound),
{
    if s.escrows.contains_key(id) {
        assert(s.keeps(id));
        let meta = s.escrows[id];
        let days = days_owed(s, id);
        let rate = entries_of(s, id);
        let balance = meta.rent_balance as int;
        crate::rent::lemma_rent(s, meta);
        assert(s.rent_periods(meta) == days);
        assert(s.rent_due_per_period(meta) == rate);
        assert(days * rate <= balance <==> days <= balance / rate) by (nonlinear_arith)
            requires
                rate >= 1,
        ;
        assert(0 <= balance / rate) by (nonlinear_arith)
            requires
                rate >= 1,
                balance >= 0,
        ;
    }
}

/// An access takes the rent that is owed out of the reserve and pays it to the admin, and moves
/// the checkpoint on by the days that are paid for. Nothing else in the header changes, and no
/// other account is concerned.
pub proof fn law_access(s: Ledger, id: u64, token: Address, account: Address)
    requires
        s.well_kept(),
        s.access_refusal(id) is None,
    ensures
        s.accessed_escrow(id) == (EscrowMetaView {
            rent_balance: (s.escrows[id].rent_balance - rent_owed(s, id)) as i128,
            last_rent_collection_at: (s.escrows[id].last_rent_collection_at + 86_400 * days_owed(
                s,
                id,
            )) as u64,
            ..s.escrows[id]
        }),
        0 <= rent_owed(s, id) <= s.escrows[id].rent_balance,
        s.escrows[id].last_rent_collection_at + 86_400 * days_owed(s, id) <= u64::MAX,
        s.accessing(id).escrows == s.escrows.insert(id, s.accessed_escrow(id)),
        received(s, s.accessing(id), token, account) == (if token == s.escrows[id].token {
            rent_paid(s, id, account)
        } else {
            0
        }),
        days_owed(s, id) == 0 ==> s.accessing(id).calls == s.calls,
        days_owed(s, id) > 0 ==> announced(
            s,
            s.accessing(id),
            Event::RentCollected {
                escrow_id: id,
                collected: rent_owed(s, id) as i128,
                balance: (s.escrows[id].rent_balance - rent_owed(s, id)) as i128,
                expires_at: s.rent_expires_at(s.accessed_escrow(id)) as u64,
            },
        ),
{
    broadcast use crate::laws::books::lemma_flow_push;

    assert(s.keeps(id));
    let meta = s.escrows[id];
    let days = days_owed(s, id);
    let rate = entries_of(s, id);
    crate::rent::lemma_rent(s, meta);
    crate::laws::upkeep::law_rent_is_paid_in_full(s, meta);
    assert(s.rent_periods(meta) == days);
    assert(s.active_storage_entries(meta) == rate);
    assert(days > 0 ==> days * rate > 0) by (nonlinear_arith)
        requires
            rate >= 1,
    ;
    assert(days == 0 ==> days * rate == 0) by (nonlinear_arith);
    law_reach(s, id);
    let t = s.accessing(id);
    assert(t.escrows =~= s.escrows.insert(id, s.accessed_escrow(id)));
    if days > 0 {
        assert(t.calls[t.calls.len() - 1] == t.calls.last());
    }
}

/// What is announced on the way is announced by the whole.
pub proof fn lemma_announced(s: Ledger, c: Ledger, t: Ledger, u: Ledger, event: EventView)
    requires
        announced(c, t, event),
        s.calls.len() <= c.calls.len(),
        t.calls.len() <= u.calls.len(),
        forall|i: int| 0 <= i < t.calls.len() ==> #[trigger] u.calls[i] == t.calls[i],
    ensures
        announced(s, u, event),
{
    let i = choose|i: int|
        c.calls.len() <= i < t.calls.len() && #[trigger] t.calls[i] == HostCall::Publish(event);
    assert(u.calls[i] == HostCall::Publish(event));
}

/// An escrow expires when the days are over that its reserve covers, and one more: as long as
/// their number fits into 64 bits.
pub proof fn law_expiry(s: Ledger, id: u64)
    requires
        s.well_kept(),
        s.escrows.contains_key(id),
        s.escrows[id].rent_balance as int / entries_of(s, id) <= u64::MAX,
    ensures
        s.rent_expires_at(s.escrows[id]) == s.escrows[id].last_rent_collection_at + 86_400 * (
        s.escrows[id].rent_balance as int / entries_of(s, id) + 1),
{
    assert(s.keeps(id));
    let balance = s.escrows[id].rent_balance as int;
    let rate = entries_of(s, id);
    assert(s.rent_due_per_period(s.escrows[id]) == rate);
    assert(balance / rate >= 0) by (nonlinear_arith)
        requires
            balance >= 0,
            rate >= 1,
    ;
}

} // verus!
