//! The books balance: what a request has the host move into or out of the contract is what the
//! contract then holds more or less for the escrow in question, to the last unit, and no other
//! token moves. Only a slash that is not final when its escrow is wound up stays off the books.
use vstd::prelude::*;

use crate::ledger::{HostCall, HostCallView, Ledger};
use crate::types::{
    Address, EscrowMetaView, MultisigConfigView, OracleResolutionPayload, RecurringInterval,
    RecurringPaymentConfig, Text,
};

verus! {

// ---------------------------------------------------------------------------
// Flows and holdings
// ---------------------------------------------------------------------------

/// What a host call moves into the holdings of `contract` in `token`.
pub open spec fn moved(call: HostCallView, token: Address, contract: Address) -> int {
    match call {
        HostCall::Transfer { token: t, from, to, amount } => if t != token {
            0
        } else {
            (if to == contract {
                amount as int
            } else {
                0
            }) - (if from == contract {
                amount as int
            } else {
                0
            })
        },
        _ => 0,
    }
}

/// What some host calls move into the holdings of `contract` in `token`, all in all.
pub open spec fn flow(calls: Seq<HostCallView>, token: Address, contract: Address) -> int
    decreases calls.len(),
{
    if calls.len() == 0 {
        0
    } else {
        flow(calls.drop_last(), token, contract) + moved(calls.last(), token, contract)
    }
}

/// One more call moves what it moves.
pub broadcast proof fn lemma_flow_push(
    calls: Seq<HostCallView>,
    call: HostCallView,
    token: Address,
    contract: Address,
)
    ensures
        #[trigger] flow(calls.push(call), token, contract) == flow(calls, token, contract) + moved(
            call,
            token,
            contract,
        ),
{
    assert(calls.push(call).drop_last() =~= calls);
}

impl Ledger {
    /// What the contract holds for escrow `id`: its remaining balance, its rent reserve, and the
    /// slash that its cancellation brought, if that is still held.
    pub open spec fn held(self, id: u64) -> int {
        (if self.escrows.contains_key(id) {
            self.escrows[id].remaining_balance + self.escrows[id].rent_balance
        } else {
            0
        }) + (if self.slashes.contains_key(id) {
            self.slashes[id].amount as int
        } else {
            0
        })
    }

    /// Nobody who is paid or pays on behalf of escrow `id` is the contract itself.
    pub open spec fn outsiders(self, id: u64) -> bool {
        let meta = self.escrows[id];
        &&& meta.client != self.contract
        &&& meta.freelancer != self.contract
        &&& self.admin != Some(self.contract)
        &&& self.cancellations.contains_key(id) ==> self.cancellations[id].requester
            != self.contract
        &&& self.slashes.contains_key(id) ==> self.slashes[id].recipient != self.contract
            && self.slashes[id].slashed_user != self.contract
    }

    /// Whether collecting the rent of escrow `id` winds it up while its slash is not final.
    pub open spec fn strands_slash(self, id: u64) -> bool {
        &&& self.rent_has_expired(self.after_rent(self.escrows[id]))
        &&& self.slashes.contains_key(id)
        &&& !self.slash_is_final(id)
    }

    /// From this ledger to `t`, what moves in `token` is what changes in the holdings for escrow
    /// `id`, where that is the escrow's token; nothing moves in another token.
    pub open spec fn balances(
        self,
        t: Ledger,
        id: u64,
        escrow_token: Address,
        token: Address,
    ) -> bool {
        flow(t.calls, token, self.contract) - flow(self.calls, token, self.contract) == (if token
            == escrow_token {
            t.held(id) - self.held(id)
        } else {
            0
        })
    }
}

/// Settling the rent of an escrow moves what it takes off the reserve.
pub proof fn lemma_access_balances(s: Ledger, id: u64, token: Address)
    requires
        s.well_kept(),
        s.access_refusal(id) is None,
        s.outsiders(id),
    ensures
        s.balances(s.accessing(id), id, s.escrows[id].token, token),
{
    broadcast use lemma_flow_push;

    assert(s.keeps(id));
    crate::rent::lemma_rent(s, s.escrows[id]);
}

// ---------------------------------------------------------------------------
// The laws
// ---------------------------------------------------------------------------

/// The books balance when an escrow is created: the client pays its whole amount and its rent
/// reserve in.
pub proof fn law_create_escrow_balances(
    s: Ledger,
    client: Address,
    freelancer: Address,
    token: Address,
    total_amount: i128,
    brief_hash: [u8; 32],
    arbiter: Option<Address>,
    deadline: Option<u64>,
    lock_time: Option<u64>,
    signers: Seq<Address>,
    multisig: MultisigConfigView,
    any_token: Address,
)
    requires
        s.well_kept(),
        s.create_escrow_refusal(token, total_amount, deadline, lock_time) is None,
        client != s.contract,
    ensures
        s.balances(
            s.create_escrow_done(
                client,
                freelancer,
                token,
                total_amount,
                brief_hash,
                arbiter,
                deadline,
                lock_time,
                signers,
                multisig,
            ),
            s.next_escrow_id(),
            token,
            any_token,
        ),
{
    broadcast use lemma_flow_push;

    let id = s.next_escrow_id();
    if s.escrows.contains_key(id) {
        assert(s.keeps(id));
    }
    if s.slashes.contains_key(id) {
        assert(s.escrows.contains_key(id));
    }
}

/// The books balance when a recurring escrow is created: the client pays all payments and the
/// rent reserve in.
pub proof fn law_create_recurring_balances(
    s: Ledger,
    client: Address,
    freelancer: Address,
    token: Address,
    payment_amount: i128,
    interval: RecurringInterval,
    start_time: u64,
    end_date: Option<u64>,
    number_of_payments: Option<u32>,
    brief_hash: [u8; 32],
    any_token: Address,
)
    requires
        s.well_kept(),
        s.create_recurring_refusal(
            payment_amount,
            interval,
            start_time,
            end_date,
            number_of_payments,
        ) is None,
        client != s.contract,
    ensures
        s.balances(
            s.create_recurring_done(
                client,
                freelancer,
                token,
                payment_amount,
                interval,
                start_time,
                end_date,
                number_of_payments,
                brief_hash,
            ),
            s.next_escrow_id(),
            token,
            any_token,
        ),
{
    broadcast use lemma_flow_push;

    let id = s.next_escrow_id();
    if s.escrows.contains_key(id) {
        assert(s.keeps(id));
    }
    if s.slashes.contains_key(id) {
        assert(s.escrows.contains_key(id));
    }
}

/// The books balance when a milestone is added: the client pays for its storage.
pub proof fn law_add_milestone_balances(
    s: Ledger,
    caller: Address,
    id: u64,
    title: Seq<u8>,
    description_hash: [u8; 32],
    amount: i128,
    token: Address,
)
    requires
        s.well_kept(),
        s.outsiders(id),
        s.add_milestone_refusal(caller, id, amount) is None,
    ensures
        s.balances(
            s.add_milestone_done(caller, id, title, description_hash, amount),
            id,
            s.escrows[id].token,
            token,
        ),
{
    broadcast use lemma_flow_push;

    lemma_access_balances(s, id, token);
    assert(s.keeps(id));
    crate::rent::lemma_rent(s, s.escrows[id]);
}

/// The books balance when a milestone is submitted.
pub proof fn law_submit_milestone_balances(
    s: Ledger,
    caller: Address,
    id: u64,
    mid: u32,
    token: Address,
)
    requires
        s.well_kept(),
        s.outsiders(id),
        s.submit_milestone_refusal(caller, id, mid) is None,
    ensures
        s.balances(s.submit_milestone_done(caller, id, mid), id, s.escrows[id].token, token),
{
    broadcast use lemma_flow_push;

    lemma_access_balances(s, id, token);
    assert(s.keeps(id));
    crate::rent::lemma_rent(s, s.escrows[id]);
}

/// The books balance when a milestone is approved: what the freelancer is paid is off the
/// remaining balance.
pub proof fn law_approve_milestone_balances(
    s: Ledger,
    caller: Address,
    id: u64,
    mid: u32,
    token: Address,
)
    requires
        s.well_kept(),
        s.outsiders(id),
        s.approve_milestone_refusal(caller, id, mid) is None,
    ensures
        s.balances(s.approve_milestone_done(caller, id, mid), id, s.escrows[id].token, token),
{
    broadcast use lemma_flow_push;

    lemma_access_balances(s, id, token);
    assert(s.keeps(id));
    crate::rent::lemma_rent(s, s.escrows[id]);
}

/// The books balance when a milestone is rejected.
pub proof fn law_reject_milestone_balances(
    s: Ledger,
    caller: Address,
    id: u64,
    mid: u32,
    token: Address,
)
    requires
        s.well_kept(),
        s.outsiders(id),
        s.reject_milestone_refusal(caller, id, mid) is None,
    ensures
        s.balances(s.reject_milestone_done(caller, id, mid), id, s.escrows[id].token, token),
{
    broadcast use lemma_flow_push;

    lemma_access_balances(s, id, token);
    assert(s.keeps(id));
    crate::rent::lemma_rent(s, s.escrows[id]);
}

/// The books balance when the funds of a milestone are released.
pub proof fn law_release_funds_balances(
    s: Ledger,
    caller: Address,
    id: u64,
    mid: u32,
    token: Address,
)
    requires
        s.well_kept(),
        s.outsiders(id),
        s.release_funds_refusal(caller, id, mid) is None,
    ensures
        s.balances(s.release_funds_done(caller, id, mid), id, s.escrows[id].token, token),
{
    broadcast use lemma_flow_push;

    lemma_access_balances(s, id, token);
    assert(s.keeps(id));
    crate::rent::lemma_rent(s, s.escrows[id]);
}

/// Storing a batch of milestones moves nothing.
proof fn lemma_adding_flow(
    c: Ledger,
    id: u64,
    first: u32,
    titles: Seq<Text>,
    hashes: Seq<[u8; 32]>,
    amounts: Seq<i128>,
    k: nat,
    token: Address,
)
    ensures
        ({
            let t = c.adding_milestones(id, first, titles, hashes, amounts, k);
            &&& flow(t.calls, token, c.contract) == flow(c.calls, token, c.contract)
            &&& t == (Ledger {
                milestones: t.milestones,
                calls: t.calls,
                touched: t.touched,
                ..c
            })
        }),
    decreases k,
{
    broadcast use lemma_flow_push;

    if k > 0 {
        lemma_adding_flow(c, id, first, titles, hashes, amounts, (k - 1) as nat, token);
    }
}

/// The books balance when a batch of milestones is added.
pub proof fn law_batch_add_balances(
    s: Ledger,
    caller: Address,
    id: u64,
    titles: Seq<Text>,
    hashes: Seq<[u8; 32]>,
    amounts: Seq<i128>,
    token: Address,
)
    requires
        s.well_kept(),
        s.outsiders(id),
        s.batch_add_refusal(caller, id, titles, hashes, amounts) is None,
    ensures
        s.balances(
            s.batch_add_done(caller, id, titles, hashes, amounts),
            id,
            s.escrows[id].token,
            token,
        ),
{
    broadcast use lemma_flow_push;

    lemma_access_balances(s, id, token);
    assert(s.keeps(id));
    crate::rent::lemma_rent(s, s.escrows[id]);
    let meta = s.accessed_escrow(id);
    let reserve = crate::rent::reserve_for(titles.len() as int) as i128;
    let c = s.demanding(caller).accessing(id).charging_reserve(meta.token, caller, reserve);
    lemma_adding_flow(c, id, meta.milestone_count, titles, hashes, amounts, titles.len(), token);
}

/// Marking milestones as approved moves nothing by itself.
pub proof fn lemma_approving_flow(
    c: Ledger,
    id: u64,
    meta: EscrowMetaView,
    who: Address,
    mids: Seq<u32>,
    open: bool,
    k: nat,
    token: Address,
    account: Address,
)
    ensures
        ({
            let t = c.approving_milestones(id, meta, who, mids, open, k);
            &&& flow(t.calls, token, account) == flow(c.calls, token, account)
            &&& t == (Ledger {
                milestones: t.milestones,
                calls: t.calls,
                touched: t.touched,
                ..c
            })
        }),
    decreases k,
{
    broadcast use lemma_flow_push;

    if k > 0 {
        lemma_approving_flow(c, id, meta, who, mids, open, (k - 1) as nat, token, account);
    }
}

/// The books balance when a batch of milestones is approved.
pub proof fn law_batch_approve_balances(
    s: Ledger,
    caller: Address,
    id: u64,
    mids: Seq<u32>,
    token: Address,
)
    requires
        s.well_kept(),
        s.outsiders(id),
        s.batch_approve_refusal(caller, id, mids) is None,
    ensures
        s.balances(s.batch_approve_done(caller, id, mids), id, s.escrows[id].token, token),
{
    broadcast use lemma_flow_push;

    lemma_access_balances(s, id, token);
    assert(s.keeps(id));
    crate::rent::lemma_rent(s, s.escrows[id]);
    let meta = s.accessed_escrow(id);
    let open = crate::storage::timelock_open(meta.timelock, s.now);
    let c = s.demanding(caller).accessing(id).announcing_lock(
        id,
        meta.lock_time,
    ).announcing_timelock(id, meta.timelock);
    crate::batch::lemma_selection_accepted(
        s.milestones,
        id,
        crate::batch::chosen(s.milestones, id, meta, caller, mids),
        crate::types::MS_SUBMITTED,
    );
    crate::laws::keeping::lemma_selected_positive(
        s.milestones,
        id,
        meta.milestone_count,
        crate::batch::chosen(s.milestones, id, meta, caller, mids),
    );
    lemma_approving_flow(c, id, meta, caller, mids, open, mids.len(), token, s.contract);
}

/// Marking milestones as released moves nothing by itself.
proof fn lemma_releasing_flow(
    c: Ledger,
    id: u64,
    to: Address,
    mids: Seq<u32>,
    k: nat,
    token: Address,
)
    ensures
        ({
            let t = c.releasing_milestones(id, to, mids, k);
            &&& flow(t.calls, token, c.contract) == flow(c.calls, token, c.contract)
            &&& t == (Ledger {
                milestones: t.milestones,
                calls: t.calls,
                touched: t.touched,
                ..c
            })
        }),
    decreases k,
{
    broadcast use lemma_flow_push;

    if k > 0 {
        lemma_releasing_flow(c, id, to, mids, (k - 1) as nat, token);
    }
}

/// The books balance when the funds of a batch of milestones are released.
pub proof fn law_batch_release_balances(
    s: Ledger,
    caller: Address,
    id: u64,
    mids: Seq<u32>,
    token: Address,
)
    requires
        s.well_kept(),
        s.outsiders(id),
        s.batch_release_refusal(caller, id, mids) is None,
    ensures
        s.balances(s.batch_release_done(caller, id, mids), id, s.escrows[id].token, token),
{
    broadcast use lemma_flow_push;

    lemma_access_balances(s, id, token);
    assert(s.keeps(id));
    crate::rent::lemma_rent(s, s.escrows[id]);
    let meta = s.accessed_escrow(id);
    let c = s.touching_instance().demanding(caller).accessing(id).announcing_lock(
        id,
        meta.lock_time,
    );
    crate::batch::lemma_selection_accepted(s.milestones, id, mids, crate::types::MS_APPROVED);
    lemma_releasing_flow(c, id, meta.freelancer, mids, mids.len(), token);
}

/// Each recurring payment moves its amount out.
proof fn lemma_paying_flow(
    c: Ledger,
    id: u64,
    meta: EscrowMetaView,
    config: RecurringPaymentConfig,
    k: nat,
    token: Address,
)
    requires
        meta.freelancer != c.contract,
    ensures
        ({
            let t = c.making_payments(id, meta, config, k);
            &&& flow(t.calls, token, c.contract) == flow(c.calls, token, c.contract) - (if token
                == meta.token {
                k * config.payment_amount
            } else {
                0
            })
            &&& t == (Ledger {
                milestones: t.milestones,
                calls: t.calls,
                touched: t.touched,
                ..c
            })
        }),
    decreases k,
{
    broadcast use lemma_flow_push;

    let amount = config.payment_amount as int;
    if k > 0 {
        let j = (k - 1) as nat;
        lemma_paying_flow(c, id, meta, config, j, token);
        assert(k * amount == j * amount + amount) by (nonlinear_arith)
            requires
                k == j + 1,
        ;
    } else {
        assert(0 * amount == 0);
    }
}

/// The books balance when recurring payments are made.
pub proof fn law_process_recurring_balances(
    s: Ledger,
    id: u64,
    token: Address,
)
    requires
        s.well_kept(),
        s.outsiders(id),
        s.process_recurring_refusal(id) is None,
    ensures
        s.balances(s.process_recurring_done(id), id, s.escrows[id].token, token),
{
    broadcast use lemma_flow_push;

    lemma_access_balances(s, id, token);
    assert(s.keeps(id));
    crate::rent::lemma_rent(s, s.escrows[id]);
    let meta = s.accessed_escrow(id);
    let config = s.recurring[id];
    let n = crate::recurring::due_payments(config, s.now);
    crate::recurring::lemma_due(config, s.now, 0);
    crate::recurring::lemma_payments_accepted(meta, config, n, n);
    let c = s.opening_schedule(id);
    lemma_paying_flow(c, id, meta, config, n as nat, token);
}

/// The books balance when a schedule is paused.
pub proof fn law_pause_recurring_balances(
    s: Ledger,
    caller: Address,
    id: u64,
    token: Address,
)
    requires
        s.well_kept(),
        s.outsiders(id),
        s.schedule_refusal(caller, id) is None,
    ensures
        s.balances(s.pause_recurring_done(caller, id), id, s.escrows[id].token, token),
{
    broadcast use lemma_flow_push;

    lemma_access_balances(s, id, token);
    assert(s.keeps(id));
    crate::rent::lemma_rent(s, s.escrows[id]);
}

/// The books balance when a schedule is resumed.
pub proof fn law_resume_recurring_balances(
    s: Ledger,
    caller: Address,
    id: u64,
    token: Address,
)
    requires
        s.well_kept(),
        s.outsiders(id),
        s.schedule_refusal(caller, id) is None,
    ensures
        s.balances(s.resume_recurring_done(caller, id), id, s.escrows[id].token, token),
{
    broadcast use lemma_flow_push;

    lemma_access_balances(s, id, token);
    assert(s.keeps(id));
    crate::rent::lemma_rent(s, s.escrows[id]);
}

/// The books balance when a recurring escrow is cancelled.
pub proof fn law_cancel_recurring_balances(
    s: Ledger,
    caller: Address,
    id: u64,
    token: Address,
)
    requires
        s.well_kept(),
        s.outsiders(id),
        s.cancel_recurring_refusal(caller, id) is None,
    ensures
        s.balances(s.cancel_recurring_done(caller, id), id, s.escrows[id].token, token),
{
    broadcast use lemma_flow_push;

    lemma_access_balances(s, id, token);
    assert(s.keeps(id));
    crate::rent::lemma_rent(s, s.escrows[id]);
}

/// The books balance when an escrow is cancelled: the client gets all of the remaining balance.
pub proof fn law_cancel_escrow_balances(
    s: Ledger,
    caller: Address,
    id: u64,
    token: Address,
)
    requires
        s.well_kept(),
        s.outsiders(id),
        s.cancel_escrow_refusal(caller, id) is None,
    ensures
        s.balances(s.cancel_escrow_done(caller, id), id, s.escrows[id].token, token),
{
    broadcast use lemma_flow_push;

    lemma_access_balances(s, id, token);
    assert(s.keeps(id));
    crate::rent::lemma_rent(s, s.escrows[id]);
}

/// The books balance when a cancellation is requested: the requester pays for the storage of the
/// request.
pub proof fn law_request_cancellation_balances(
    s: Ledger,
    caller: Address,
    id: u64,
    reason: Seq<u8>,
    token: Address,
)
    requires
        s.well_kept(),
        s.outsiders(id),
        s.request_cancellation_refusal(caller, id) is None,
    ensures
        s.balances(s.request_cancellation_done(caller, id, reason), id, s.escrows[id].token, token),
{
    broadcast use lemma_flow_push;

    lemma_access_balances(s, id, token);
    assert(s.keeps(id));
    crate::rent::lemma_rent(s, s.escrows[id]);
}

/// The books balance when a cancellation is executed: the requester gets what the slash leaves,
/// and the contract goes on holding the slash.
pub proof fn law_execute_cancellation_balances(
    s: Ledger,
    id: u64,
    token: Address,
)
    requires
        s.well_kept(),
        s.outsiders(id),
        s.execute_cancellation_refusal(id) is None,
    ensures
        s.balances(s.execute_cancellation_done(id), id, s.escrows[id].token, token),
{
    broadcast use lemma_flow_push;

    lemma_access_balances(s, id, token);
    assert(s.keeps(id));
    crate::rent::lemma_rent(s, s.escrows[id]);
    crate::cancellation::lemma_slash_amount(s.escrows[id].remaining_balance);
    assert(s.cancellations[id].escrow_id == id);
}

/// The books balance when a cancellation is disputed.
pub proof fn law_dispute_cancellation_balances(
    s: Ledger,
    caller: Address,
    id: u64,
    token: Address,
)
    requires
        s.well_kept(),
        s.outsiders(id),
        s.dispute_cancellation_refusal(caller, id) is None,
    ensures
        s.balances(s.dispute_cancellation_done(caller, id), id, s.escrows[id].token, token),
{
    broadcast use lemma_flow_push;

    lemma_access_balances(s, id, token);
    assert(s.keeps(id));
    crate::rent::lemma_rent(s, s.escrows[id]);
    assert(s.cancellations[id].escrow_id == id);
}

/// The books balance when a slash is finalized: its recipient gets all of it.
pub proof fn law_finalize_slash_balances(
    s: Ledger,
    id: u64,
    token: Address,
)
    requires
        s.well_kept(),
        s.outsiders(id),
        s.finalize_slash_refusal(id) is None,
    ensures
        s.balances(s.finalize_slash_done(id), id, s.escrows[id].token, token),
{
    broadcast use lemma_flow_push;

    assert(s.slashes[id].escrow_id == id);
}

/// The books balance when a slash is disputed.
pub proof fn law_dispute_slash_balances(
    s: Ledger,
    caller: Address,
    id: u64,
    token: Address,
)
    requires
        s.well_kept(),
        s.outsiders(id),
        s.dispute_slash_refusal(caller, id) is None,
    ensures
        s.balances(s.dispute_slash_done(caller, id), id, s.escrows[id].token, token),
{
    broadcast use lemma_flow_push;

    lemma_access_balances(s, id, token);
    assert(s.keeps(id));
    crate::rent::lemma_rent(s, s.escrows[id]);
    assert(s.slashes[id].escrow_id == id);
}

/// The books balance when a dispute over a slash is resolved: all of it goes to its recipient, or
/// back to the slashed user.
pub proof fn law_resolve_slash_balances(
    s: Ledger,
    caller: Address,
    id: u64,
    upheld: bool,
    token: Address,
)
    requires
        s.well_kept(),
        s.outsiders(id),
        s.resolve_slash_refusal(caller, id) is None,
    ensures
        s.balances(s.resolve_slash_done(caller, id, upheld), id, s.escrows[id].token, token),
{
    broadcast use lemma_flow_push;

    lemma_access_balances(s, id, token);
    assert(s.keeps(id));
    crate::rent::lemma_rent(s, s.escrows[id]);
    assert(s.slashes[id].escrow_id == id);
}

/// The books balance when a dispute is raised.
pub proof fn law_raise_dispute_balances(
    s: Ledger,
    caller: Address,
    id: u64,
    milestone_id: Option<u32>,
    token: Address,
)
    requires
        s.well_kept(),
        s.outsiders(id),
        s.raise_dispute_refusal(caller, id, milestone_id) is None,
    ensures
        s.balances(s.raise_dispute_done(caller, id, milestone_id), id, s.escrows[id].token, token),
{
    broadcast use lemma_flow_push;

    lemma_access_balances(s, id, token);
    assert(s.keeps(id));
    crate::rent::lemma_rent(s, s.escrows[id]);
}

/// The shares of a dispute are moved out.
proof fn lemma_shares_flow(
    a: Ledger,
    id: u64,
    meta: EscrowMetaView,
    client_amount: i128,
    freelancer_amount: i128,
    token: Address,
)
    requires
        meta.escrow_id == id,
        meta.client != a.contract,
        meta.freelancer != a.contract,
        client_amount >= 0,
        freelancer_amount >= 0,
    ensures
        ({
            let t = a.paying_shares(id, meta, client_amount, freelancer_amount);
            flow(t.calls, token, a.contract) == flow(a.calls, token, a.contract) - (if token
                == meta.token {
                client_amount + freelancer_amount
            } else {
                0
            })
        }),
{
    broadcast use lemma_flow_push;

}

/// The books balance when a dispute is resolved: the shares together are all of the remaining
/// balance.
pub proof fn law_resolve_dispute_balances(
    s: Ledger,
    caller: Address,
    id: u64,
    client_amount: i128,
    freelancer_amount: i128,
    token: Address,
)
    requires
        s.well_kept(),
        s.outsiders(id),
        s.resolve_dispute_refusal(caller, id, client_amount, freelancer_amount) is None,
    ensures
        s.balances(
            s.resolve_dispute_done(caller, id, client_amount, freelancer_amount),
            id,
            s.escrows[id].token,
            token,
        ),
{
    broadcast use lemma_flow_push;

    lemma_access_balances(s, id, token);
    assert(s.keeps(id));
    crate::rent::lemma_rent(s, s.escrows[id]);
    let a = s.demanding(caller).accessing(id).touching_for_judge(s.accessed_escrow(id), caller);
    lemma_shares_flow(
        a,
        id,
        s.accessed_escrow(id),
        client_amount,
        freelancer_amount,
        token,
    );
}

/// The books balance when a dispute is resolved by the oracle's payload.
pub proof fn law_oracle_resolve_balances(
    s: Ledger,
    id: u64,
    payload: OracleResolutionPayload,
    grace_period_seconds: u64,
    token: Address,
)
    requires
        s.well_kept(),
        s.outsiders(id),
        s.oracle_resolve_refusal(id, payload, grace_period_seconds) is None,
    ensures
        s.balances(s.oracle_resolve_done(id, payload), id, s.escrows[id].token, token),
{
    broadcast use lemma_flow_push;

    lemma_access_balances(s, id, token);
    assert(s.keeps(id));
    crate::rent::lemma_rent(s, s.escrows[id]);
    let meta = s.accessed_escrow(id);
    crate::disputes::lemma_client_share(meta.remaining_balance, payload.client_bps);
    let share = crate::disputes::client_share(meta.remaining_balance, payload.client_bps);
    let a = s.accessing(id).calling(
        HostCall::VerifySignature {
            public_key: payload.oracle_pubkey,
            message: crate::disputes::resolution_message(payload),
            signature: payload.signature,
        },
    );
    lemma_shares_flow(
        a,
        id,
        meta,
        share as i128,
        (meta.remaining_balance - share) as i128,
        token,
    );
}

/// The books balance when a timelock is started.
pub proof fn law_start_timelock_balances(
    s: Ledger,
    caller: Address,
    id: u64,
    duration: u64,
    token: Address,
)
    requires
        s.well_kept(),
        s.outsiders(id),
        s.start_timelock_refusal(caller, id, duration) is None,
    ensures
        s.balances(s.start_timelock_done(caller, id, duration), id, s.escrows[id].token, token),
{
    broadcast use lemma_flow_push;

    lemma_access_balances(s, id, token);
    assert(s.keeps(id));
    crate::rent::lemma_rent(s, s.escrows[id]);
}

/// The books balance when a lock time is moved.
pub proof fn law_extend_lock_balances(
    s: Ledger,
    caller: Address,
    id: u64,
    new_lock_time: u64,
    token: Address,
)
    requires
        s.well_kept(),
        s.outsiders(id),
        s.extend_lock_refusal(caller, id, new_lock_time) is None,
    ensures
        s.balances(s.extend_lock_done(caller, id, new_lock_time), id, s.escrows[id].token, token),
{
    broadcast use lemma_flow_push;

    lemma_access_balances(s, id, token);
    assert(s.keeps(id));
    crate::rent::lemma_rent(s, s.escrows[id]);
}

/// The books balance when the rent reserve is topped up.
pub proof fn law_top_up_balances(
    s: Ledger,
    caller: Address,
    id: u64,
    periods: u64,
    token: Address,
)
    requires
        s.well_kept(),
        s.outsiders(id),
        s.top_up_refusal(caller, id, periods) is None,
    ensures
        s.balances(s.top_up_done(caller, id, periods), id, s.escrows[id].token, token),
{
    broadcast use lemma_flow_push;

    lemma_access_balances(s, id, token);
    assert(s.keeps(id));
    crate::rent::lemma_rent(s, s.escrows[id]);
    let rate = s.rent_due_per_period(s.accessed_escrow(id));
    assert(rate * periods >= 0) by (nonlinear_arith)
        requires
            rate >= 0,
            periods >= 0,
    ;
}

/// The books balance when rent is collected. Where that winds the escrow up, the client gets all
/// that is left, and a slash that is final goes to its recipient. A slash that is not final then
/// stays behind in the contract, and is held for nobody: that much, and no more, is missing.
pub proof fn law_collect_rent_balances(
    s: Ledger,
    id: u64,
    token: Address,
)
    requires
        s.well_kept(),
        s.outsiders(id),
        s.collect_refusal(id) is None,
    ensures
        !s.strands_slash(id) ==> s.balances(s.collected(id), id, s.escrows[id].token, token),
        s.strands_slash(id) ==> flow(s.collected(id).calls, token, s.contract) - flow(
            s.calls,
            token,
            s.contract,
        ) == (if token == s.escrows[id].token {
            s.collected(id).held(id) - s.held(id) + s.slashes[id].amount
        } else {
            0
        }),
{
    broadcast use lemma_flow_push;

    assert(s.keeps(id));
    crate::rent::lemma_rent(s, s.escrows[id]);
}

} // verus!
