//! Milestones one at a time: adding, submitting, approving, rejecting and releasing.
use vstd::prelude::*;

use crate::contract::EscrowContract;
use crate::errors::EscrowError;
use crate::ledger::{EntryKey, Env, Event, Ledger};
use crate::storage::ContractStorage;
use crate::types::{
    lists_address, Address, ApprovalRecord, EscrowMeta, EscrowMetaView, EscrowStatus, Milestone,
    MilestoneView, MultisigConfig, MultisigConfigView, PackedDataKey, Text, MS_APPROVED,
    MS_PENDING, MS_REJECTED, MS_RELEASED, MS_SUBMITTED,
};

verus! {

/// The number of milestones that an escrow can hold.
pub const MAX_MILESTONES: u32 = 20;

// ---------------------------------------------------------------------------
// The model
// ---------------------------------------------------------------------------

/// One less, but never less than none.
pub open spec fn one_less(count: u32) -> u32 {
    if count == 0 {
        0
    } else {
        (count - 1) as u32
    }
}

/// A milestone as it is added.
pub open spec fn new_milestone(
    id: u32,
    title: Seq<u8>,
    description_hash: [u8; 32],
    amount: i128,
) -> MilestoneView {
    MilestoneView {
        id,
        title,
        description_hash,
        amount,
        status: MS_PENDING,
        submitted_at: None,
        resolved_at: None,
        approvals: Seq::empty(),
    }
}

// ---------------------------------------------------------------------------
// Who approves
// ---------------------------------------------------------------------------

/// The weight of `who` under a policy, looked up from approver `i` on.
pub open spec fn weight_from(policy: MultisigConfigView, who: Address, i: int) -> int
    decreases policy.approvers.len() - i,
{
    if i < 0 || i >= policy.approvers.len() {
        0
    } else if policy.approvers[i] == who {
        if i < policy.weights.len() {
            policy.weights[i] as int
        } else {
            0
        }
    } else {
        weight_from(policy, who, i + 1)
    }
}

/// The weight of `who` under a policy; nothing for one who is not an approver.
pub open spec fn weight_of(policy: MultisigConfigView, who: Address) -> int {
    weight_from(policy, who, 0)
}

/// The weight of some approvals under a policy.
pub open spec fn weight_of_all(policy: MultisigConfigView, approvals: Seq<ApprovalRecord>) -> int
    decreases approvals.len(),
{
    if approvals.len() == 0 {
        0
    } else {
        weight_of_all(policy, approvals.drop_last()) + weight_of(policy, approvals.last().signer)
    }
}

/// Whether a multisig policy governs the approvals of this escrow.
pub open spec fn has_policy(meta: EscrowMetaView) -> bool {
    meta.multisig.approvers.len() > 0
}

/// Whether `who` may approve milestones of this escrow: an approver of its policy, or without
/// one the client and the other buyer signers.
pub open spec fn may_approve(meta: EscrowMetaView, who: Address) -> bool {
    if has_policy(meta) {
        meta.multisig.approvers.contains(who)
    } else {
        who == meta.client || meta.buyer_signers.contains(who)
    }
}

/// Whether `who` may reject milestones of this escrow: the client, and the approvers of its
/// policy.
pub open spec fn may_reject(meta: EscrowMetaView, who: Address) -> bool {
    who == meta.client || meta.multisig.approvers.contains(who)
}

/// Whether the client is the only buyer signer.
pub open spec fn signs_alone(meta: EscrowMetaView) -> bool {
    forall|i: int|
        0 <= i < meta.buyer_signers.len() ==> #[trigger] meta.buyer_signers[i] == meta.client
}

/// Whether `who` has approved the milestone before.
pub open spec fn has_approved(m: MilestoneView, who: Address) -> bool {
    exists|i: int| 0 <= i < m.approvals.len() && (#[trigger] m.approvals[i]).signer == who
}

/// Whether an approval by `who`, on top of those before, is enough to approve the milestone.
/// Under a policy the weights have to reach its threshold. Without one, a client who signs
/// alone is enough, and otherwise it takes two.
pub open spec fn suffices(meta: EscrowMetaView, m: MilestoneView, who: Address) -> bool {
    if has_policy(meta) {
        weight_of_all(meta.multisig, m.approvals) + weight_of(meta.multisig, who)
            >= meta.multisig.threshold
    } else {
        signs_alone(meta) || m.approvals.len() >= 1
    }
}

/// The milestone with an approval by `who` on record.
pub open spec fn recorded(m: MilestoneView, who: Address, now: u64) -> MilestoneView {
    MilestoneView {
        approvals: m.approvals.push(ApprovalRecord { signer: who, approved_at: now }),
        ..m
    }
}

/// A submitted milestone after the approval that was still missing, by `who`. With an open
/// timelock its funds move at once.
pub open spec fn approved_milestone(
    m: MilestoneView,
    who: Address,
    now: u64,
    open: bool,
) -> MilestoneView {
    MilestoneView {
        status: if open {
            MS_RELEASED
        } else {
            MS_APPROVED
        },
        resolved_at: Some(now),
        ..recorded(m, who, now)
    }
}

// ---------------------------------------------------------------------------
// What is counted
// ---------------------------------------------------------------------------

/// The counters and the balance after a milestone of `amount` was approved.
pub open spec fn approved_counts(meta: EscrowMetaView, amount: i128, open: bool) -> EscrowMetaView {
    let counted = EscrowMetaView {
        approved_count: (meta.approved_count + 1) as u32,
        submitted_count: one_less(meta.submitted_count),
        ..meta
    };
    if open {
        released_counts(counted, amount)
    } else {
        counted
    }
}

/// The counter and the balance after `amount` was released for one milestone.
pub open spec fn released_counts(meta: EscrowMetaView, amount: i128) -> EscrowMetaView {
    EscrowMetaView {
        remaining_balance: (meta.remaining_balance - amount) as i128,
        released_count: (meta.released_count + 1) as u32,
        ..meta
    }
}

/// Whether every milestone of the escrow was released, and nothing remains.
pub open spec fn all_released(meta: EscrowMetaView) -> bool {
    meta.released_count == meta.milestone_count && meta.milestone_count > 0
        && meta.remaining_balance == 0
}

/// The header with the escrow marked complete where `complete` holds.
pub open spec fn completed_if(meta: EscrowMetaView, complete: bool) -> EscrowMetaView {
    if complete {
        EscrowMetaView { status: EscrowStatus::Completed, ..meta }
    } else {
        meta
    }
}

/// Whether a balance covers `amount`.
pub open spec fn deductible(balance: i128, amount: i128) -> bool {
    0 <= balance - amount <= i128::MAX
}

impl Ledger {
    /// Why a milestone cannot be added.
    pub open spec fn add_milestone_refusal(self, caller: Address, id: u64, amount: i128) -> Option<
        EscrowError,
    > {
        let meta = self.accessed_escrow(id);
        if self.is_paused() {
            Some(EscrowError::ContractPaused)
        } else if amount <= 0 {
            Some(EscrowError::InvalidMilestoneAmount)
        } else if self.access_refusal(id) is Some {
            self.access_refusal(id)
        } else if caller != meta.client {
            Some(EscrowError::ClientOnly)
        } else if meta.status != EscrowStatus::Active {
            Some(EscrowError::EscrowNotActive)
        } else if meta.allocated_amount + amount > meta.total_amount {
            Some(EscrowError::MilestoneAmountExceedsEscrow)
        } else if meta.milestone_count >= MAX_MILESTONES {
            Some(EscrowError::TooManyMilestones)
        } else {
            self.entry_rent_refusal(meta, 1)
        }
    }

    /// A milestone is added, and the client pays for its storage.
    pub open spec fn add_milestone_done(
        self,
        caller: Address,
        id: u64,
        title: Seq<u8>,
        description_hash: [u8; 32],
        amount: i128,
    ) -> Ledger {
        let meta = self.accessed_escrow(id);
        let mid = meta.milestone_count;
        let reserve = crate::rent::reserve_for(1);
        self.demanding(caller).accessing(id).charging_reserve(
            meta.token,
            caller,
            reserve as i128,
        ).with_milestone(id, new_milestone(mid, title, description_hash, amount)).with_escrow(
            EscrowMetaView {
                milestone_count: (mid + 1) as u32,
                allocated_amount: (meta.allocated_amount + amount) as i128,
                rent_balance: (meta.rent_balance + reserve) as i128,
                ..meta
            },
        ).publishing(Event::MilestoneAdded { escrow_id: id, milestone_id: mid, amount })
    }

    /// Why a milestone cannot be submitted.
    pub open spec fn submit_milestone_refusal(self, caller: Address, id: u64, mid: u32) -> Option<
        EscrowError,
    > {
        let meta = self.accessed_escrow(id);
        let m = self.milestones[(id, mid)];
        if self.is_paused() {
            Some(EscrowError::ContractPaused)
        } else if self.access_refusal(id) is Some {
            self.access_refusal(id)
        } else if caller != meta.freelancer {
            Some(EscrowError::FreelancerOnly)
        } else if !self.milestones.contains_key((id, mid)) {
            Some(EscrowError::MilestoneNotFound)
        } else if m.status != MS_PENDING && m.status != MS_REJECTED {
            Some(EscrowError::InvalidMilestoneState)
        } else if meta.submitted_count == u32::MAX {
            Some(EscrowError::AmountMismatch)
        } else {
            None
        }
    }

    /// A milestone is submitted.
    pub open spec fn submit_milestone_done(self, caller: Address, id: u64, mid: u32) -> Ledger {
        let meta = self.accessed_escrow(id);
        self.demanding(caller).accessing(id).touching_milestone(id, mid).with_milestone(
            id,
            MilestoneView {
                status: MS_SUBMITTED,
                submitted_at: Some(self.now),
                ..self.milestones[(id, mid)]
            },
        ).with_escrow(
            EscrowMetaView { submitted_count: (meta.submitted_count + 1) as u32, ..meta },
        ).publishing(Event::MilestoneSubmitted { escrow_id: id, milestone_id: mid, by: caller })
    }

    /// Why a milestone cannot be approved.
    pub open spec fn approve_milestone_refusal(self, caller: Address, id: u64, mid: u32) -> Option<
        EscrowError,
    > {
        let meta = self.accessed_escrow(id);
        let m = self.milestones[(id, mid)];
        if self.is_paused() {
            Some(EscrowError::ContractPaused)
        } else if self.access_refusal(id) is Some {
            self.access_refusal(id)
        } else if meta.status != EscrowStatus::Active {
            Some(EscrowError::EscrowNotActive)
        } else if self.lock_refusal(meta.lock_time) is Some {
            self.lock_refusal(meta.lock_time)
        } else if !may_approve(meta, caller) {
            Some(EscrowError::Unauthorized)
        } else if !self.milestones.contains_key((id, mid)) {
            Some(EscrowError::MilestoneNotFound)
        } else if m.status != MS_SUBMITTED || has_approved(m, caller) {
            Some(EscrowError::InvalidMilestoneState)
        } else if !suffices(meta, m, caller) {
            None
        } else if meta.approved_count == u32::MAX {
            Some(EscrowError::AmountMismatch)
        } else if crate::storage::timelock_open(meta.timelock, self.now) && (!deductible(
            meta.remaining_balance,
            m.amount,
        ) || meta.released_count == u32::MAX) {
            Some(EscrowError::AmountMismatch)
        } else {
            None
        }
    }

    /// The header after `caller` approved milestone `mid`.
    pub open spec fn approve_milestone_escrow(
        self,
        caller: Address,
        id: u64,
        mid: u32,
    ) -> EscrowMetaView {
        let meta = self.accessed_escrow(id);
        let m = self.milestones[(id, mid)];
        let counted = approved_counts(
            meta,
            m.amount,
            crate::storage::timelock_open(meta.timelock, self.now),
        );
        if suffices(meta, m, caller) {
            completed_if(
                counted,
                all_released(counted) && counted.approved_count == counted.milestone_count,
            )
        } else {
            meta
        }
    }

    /// `caller` approves a milestone. Where further approvals are needed, this one goes on
    /// record and nothing moves. Else, with an open timelock, the freelancer is paid at once,
    /// and the escrow is complete when that was the last milestone and nothing remains.
    pub open spec fn approve_milestone_done(self, caller: Address, id: u64, mid: u32) -> Ledger {
        let meta = self.accessed_escrow(id);
        let m = self.milestones[(id, mid)];
        let open = crate::storage::timelock_open(meta.timelock, self.now);
        let after = self.approve_milestone_escrow(caller, id, mid);
        let read = self.demanding(caller).accessing(id).announcing_lock(
            id,
            meta.lock_time,
        ).touching_milestone(id, mid);
        let checked = read.announcing_timelock(id, meta.timelock);
        let paid = if open {
            checked.transferring(
                meta.token,
                self.contract,
                meta.freelancer,
                m.amount,
            ).publishing(
                Event::FundsReleased { escrow_id: id, to: meta.freelancer, amount: m.amount },
            )
        } else {
            checked
        };
        let stored = paid.with_milestone(id, approved_milestone(m, caller, self.now, open));
        let listed = if after.status == EscrowStatus::Completed {
            stored.relisting(EscrowStatus::Active, EscrowStatus::Completed, id).publishing(
                Event::EscrowCompleted { escrow_id: id },
            )
        } else {
            stored
        };
        if !suffices(meta, m, caller) {
            read.with_milestone(id, recorded(m, caller, self.now))
        } else {
            listed.with_escrow(after).publishing(
                Event::MilestoneApproved { escrow_id: id, milestone_id: mid, amount: m.amount },
            )
        }
    }

    /// Why a milestone cannot be rejected.
    pub open spec fn reject_milestone_refusal(self, caller: Address, id: u64, mid: u32) -> Option<
        EscrowError,
    > {
        let meta = self.accessed_escrow(id);
        if self.is_paused() {
            Some(EscrowError::ContractPaused)
        } else if self.access_refusal(id) is Some {
            self.access_refusal(id)
        } else if !may_reject(meta, caller) {
            Some(EscrowError::ClientOnly)
        } else if meta.status != EscrowStatus::Active {
            Some(EscrowError::EscrowNotActive)
        } else if !self.milestones.contains_key((id, mid)) {
            Some(EscrowError::MilestoneNotFound)
        } else if self.milestones[(id, mid)].status != MS_SUBMITTED {
            Some(EscrowError::InvalidMilestoneState)
        } else {
            None
        }
    }

    /// A milestone is rejected; the freelancer may submit it again. Approvals that it had are
    /// void.
    pub open spec fn reject_milestone_done(self, caller: Address, id: u64, mid: u32) -> Ledger {
        let meta = self.accessed_escrow(id);
        self.demanding(caller).accessing(id).touching_milestone(id, mid).with_milestone(
            id,
            MilestoneView {
                status: MS_REJECTED,
                resolved_at: Some(self.now),
                approvals: Seq::empty(),
                ..self.milestones[(id, mid)]
            },
        ).with_escrow(
            EscrowMetaView { submitted_count: one_less(meta.submitted_count), ..meta },
        ).publishing(Event::MilestoneRejected { escrow_id: id, milestone_id: mid, by: caller })
    }

    /// Why the funds of an approved milestone cannot be released. The contract's set-up is
    /// checked before the caller's authorization is demanded, and so not here.
    pub open spec fn release_funds_refusal(self, caller: Address, id: u64, mid: u32) -> Option<
        EscrowError,
    > {
        let meta = self.accessed_escrow(id);
        let m = self.milestones[(id, mid)];
        if self.is_paused() {
            Some(EscrowError::ContractPaused)
        } else if self.admin_refusal(caller) is Some {
            self.admin_refusal(caller)
        } else if !self.milestones.contains_key((id, mid)) {
            Some(EscrowError::MilestoneNotFound)
        } else if m.status != MS_APPROVED {
            Some(EscrowError::InvalidMilestoneState)
        } else if self.access_refusal(id) is Some {
            self.access_refusal(id)
        } else if self.lock_refusal(meta.lock_time) is Some {
            self.lock_refusal(meta.lock_time)
        } else if !deductible(meta.remaining_balance, m.amount) || meta.released_count
            == u32::MAX {
            Some(EscrowError::AmountMismatch)
        } else if meta.status == EscrowStatus::Disputed {
            Some(EscrowError::EscrowNotActive)
        } else {
            None
        }
    }

    /// The header after the funds of milestone `mid` were released.
    pub open spec fn release_funds_escrow(self, id: u64, mid: u32) -> EscrowMetaView {
        let counted = released_counts(
            self.accessed_escrow(id),
            self.milestones[(id, mid)].amount,
        );
        completed_if(counted, all_released(counted))
    }

    /// The funds of an approved milestone are released.
    pub open spec fn release_funds_done(self, caller: Address, id: u64, mid: u32) -> Ledger {
        let meta = self.accessed_escrow(id);
        let m = self.milestones[(id, mid)];
        let after = self.release_funds_escrow(id, mid);
        let stored = self.touching_instance().demanding(caller).touching_milestone(
            id,
            mid,
        ).accessing(id).announcing_timelock(id, meta.timelock).announcing_lock(
            id,
            meta.lock_time,
        ).transferring(meta.token, self.contract, meta.freelancer, m.amount).with_milestone(
            id,
            MilestoneView { status: MS_RELEASED, ..m },
        );
        let listed = if all_released(after) {
            stored.relisting(meta.status, EscrowStatus::Completed, id).publishing(
                Event::EscrowCompleted { escrow_id: id },
            )
        } else {
            stored
        };
        listed.with_escrow(after).publishing(
            Event::FundsReleased { escrow_id: id, to: meta.freelancer, amount: m.amount },
        )
    }
}

// ---------------------------------------------------------------------------
// Checking approvals
// ---------------------------------------------------------------------------

/// The weight of `who` under a policy.
fn weight_under(policy: &MultisigConfig, who: &Address) -> (r: u32)
    ensures
        r == weight_of(policy@, *who),
{
    let mut i: usize = 0;
    while i < policy.approvers.len()
        invariant
            i <= policy.approvers.len(),
            weight_from(policy@, *who, i as int) == weight_of(policy@, *who),
        decreases policy.approvers.len() - i,
    {
        if policy.approvers[i].same(who) {
            return if i < policy.weights.len() {
                policy.weights[i]
            } else {
                0
            };
        }
        i = i + 1;
    }
    0
}

/// The weight of some approvals under a policy.
fn weight_under_all(policy: &MultisigConfig, approvals: &Vec<ApprovalRecord>) -> (r: u128)
    ensures
        r == weight_of_all(policy@, approvals@),
        r <= 0xffff_ffff_0000_0000_0000_0000,
{
    let mut sum: u128 = 0;
    let mut i: usize = 0;
    assert(approvals@.take(0).len() == 0);
    while i < approvals.len()
        invariant
            i <= approvals.len(),
            sum == weight_of_all(policy@, approvals@.take(i as int)),
            sum <= i * u32::MAX,
        decreases approvals.len() - i,
    {
        assert(approvals@.take(i + 1).drop_last() =~= approvals@.take(i as int));
        sum = sum + weight_under(policy, &approvals[i].signer) as u128;
        i = i + 1;
    }
    assert(approvals@.take(i as int) =~= approvals@);
    sum
}

/// Whether `who` may approve milestones of this escrow.
pub(crate) fn approver(meta: &EscrowMeta, who: &Address) -> (r: bool)
    ensures
        r == may_approve(meta@, *who),
{
    if meta.multisig.approvers.len() > 0 {
        lists_address(&meta.multisig.approvers, who)
    } else {
        who.same(&meta.client) || lists_address(&meta.buyer_signers, who)
    }
}

/// Whether a balance covers `amount`.
pub(crate) fn covers(balance: i128, amount: i128) -> (r: bool)
    ensures
        r == deductible(balance, amount),
{
    match balance.checked_sub(amount) {
        Some(rest) => rest >= 0,
        None => false,
    }
}

/// Whether the client is the only buyer signer.
fn client_signs_alone(meta: &EscrowMeta) -> (r: bool)
    ensures
        r == signs_alone(meta@),
{
    let mut i: usize = 0;
    while i < meta.buyer_signers.len()
        invariant
            i <= meta.buyer_signers.len(),
            forall|j: int| 0 <= j < i ==> #[trigger] meta@.buyer_signers[j] == meta@.client,
        decreases meta.buyer_signers.len() - i,
    {
        if !meta.buyer_signers[i].same(&meta.client) {
            assert(meta@.buyer_signers[i as int] != meta@.client);
            return false;
        }
        i = i + 1;
    }
    true
}

/// Whether `who` has approved the milestone before.
pub(crate) fn approved_before(milestone: &Milestone, who: &Address) -> (r: bool)
    ensures
        r == has_approved(milestone@, *who),
{
    let mut i: usize = 0;
    while i < milestone.approvals.len()
        invariant
            i <= milestone.approvals.len(),
            forall|j: int| 0 <= j < i ==> (#[trigger] milestone@.approvals[j]).signer != *who,
        decreases milestone.approvals.len() - i,
    {
        if milestone.approvals[i].signer.same(who) {
            assert(milestone@.approvals[i as int].signer == *who);
            return true;
        }
        i = i + 1;
    }
    false
}

/// Whether an approval by `who` is enough to approve the milestone.
pub(crate) fn enough(meta: &EscrowMeta, milestone: &Milestone, who: &Address) -> (r: bool)
    ensures
        r == suffices(meta@, milestone@, *who),
{
    if meta.multisig.approvers.len() > 0 {
        let before: u128 = weight_under_all(&meta.multisig, &milestone.approvals);
        let own: u128 = weight_under(&meta.multisig, who) as u128;
        before + own >= meta.multisig.threshold as u128
    } else {
        client_signs_alone(meta) || milestone.approvals.len() >= 1
    }
}

// ---------------------------------------------------------------------------
// The entry points
// ---------------------------------------------------------------------------

impl EscrowContract {
    /// Adds a milestone to an escrow and returns its number.
    pub fn add_milestone(
        env: &mut Env,
        caller: Address,
        escrow_id: u64,
        title: Text,
        description_hash: [u8; 32],
        amount: i128,
    ) -> (r: Result<u32, EscrowError>)
        requires
            old(env)@.rent_in_range(escrow_id),
        ensures
            match old(env)@.add_milestone_refusal(caller, escrow_id, amount) {
                Some(e) => r == Err::<u32, _>(e) && final(env)@ == old(env)@.demanding(caller),
                None => r == Ok::<_, EscrowError>(
                    old(env)@.accessed_escrow(escrow_id).milestone_count,
                ) && final(env)@ == old(env)@.add_milestone_done(
                    caller,
                    escrow_id,
                    title@,
                    description_hash,
                    amount,
                ),
            },
    {
        env.require_auth(&caller);
        ContractStorage::require_not_paused(env)?;
        if amount <= 0 {
            return Err(EscrowError::InvalidMilestoneAmount);
        }
        let mut meta: EscrowMeta = ContractStorage::load_escrow_meta_with_rent(env, escrow_id)?;
        if !caller.same(&meta.client) {
            return Err(EscrowError::ClientOnly);
        }
        if meta.status != EscrowStatus::Active {
            return Err(EscrowError::EscrowNotActive);
        }
        let next_allocated: i128 = match meta.allocated_amount.checked_add(amount) {
            Some(sum) => sum,
            None => {
                return Err(EscrowError::MilestoneAmountExceedsEscrow);
            },
        };
        if next_allocated > meta.total_amount {
            return Err(EscrowError::MilestoneAmountExceedsEscrow);
        }
        let milestone_id: u32 = meta.milestone_count;
        if milestone_id >= MAX_MILESTONES {
            return Err(EscrowError::TooManyMilestones);
        }
        ContractStorage::check_entry_rent(&meta, 1)?;

        ContractStorage::settle_rent_for_access(env, escrow_id);
        meta.milestone_count = milestone_id + 1;
        meta.allocated_amount = next_allocated;
        ContractStorage::charge_entry_rent(env, &mut meta, &caller, 1);
        ContractStorage::save_milestone(
            env,
            escrow_id,
            Milestone {
                id: milestone_id,
                title,
                description_hash,
                amount,
                status: MS_PENDING,
                submitted_at: None,
                resolved_at: None,
                approvals: Vec::new(),
            },
        );
        ContractStorage::save_escrow_meta(env, meta);
        env.publish(Event::MilestoneAdded { escrow_id, milestone_id, amount });
        Ok(milestone_id)
    }

    /// The freelancer submits work for a milestone.
    pub fn submit_milestone(
        env: &mut Env,
        caller: Address,
        escrow_id: u64,
        milestone_id: u32,
    ) -> (r: Result<(), EscrowError>)
        requires
            old(env)@.rent_in_range(escrow_id),
        ensures
            match old(env)@.submit_milestone_refusal(caller, escrow_id, milestone_id) {
                Some(e) => r == Err::<(), _>(e) && final(env)@ == old(env)@.demanding(caller),
                None => r == Ok::<_, EscrowError>(()) && final(env)@
                    == old(env)@.submit_milestone_done(caller, escrow_id, milestone_id),
            },
    {
        env.require_auth(&caller);
        ContractStorage::require_not_paused(env)?;
        let mut meta: EscrowMeta = ContractStorage::load_escrow_meta_with_rent(env, escrow_id)?;
        if !caller.same(&meta.freelancer) {
            return Err(EscrowError::FreelancerOnly);
        }
        let mut milestone: Milestone = ContractStorage::load_milestone(
            env,
            escrow_id,
            milestone_id,
        )?;
        if milestone.status != MS_PENDING && milestone.status != MS_REJECTED {
            return Err(EscrowError::InvalidMilestoneState);
        }
        let submitted_count: u32 = match meta.submitted_count.checked_add(1) {
            Some(count) => count,
            None => {
                return Err(EscrowError::AmountMismatch);
            },
        };

        ContractStorage::settle_rent_for_access(env, escrow_id);
        env.touch(EntryKey::Packed(PackedDataKey::Milestone(escrow_id, milestone_id)));
        milestone.status = MS_SUBMITTED;
        milestone.submitted_at = Some(env.timestamp);
        ContractStorage::save_milestone(env, escrow_id, milestone);
        meta.submitted_count = submitted_count;
        ContractStorage::save_escrow_meta(env, meta);
        env.publish(Event::MilestoneSubmitted { escrow_id, milestone_id, by: caller });
        Ok(())
    }

    /// The client, another buyer signer or an approver of the escrow's policy approves a
    /// submitted milestone. Where that is not enough yet, the approval goes on record and
    /// nothing else happens. Else the funds are released at once, unless a timelock still holds
    /// them back.
    pub fn approve_milestone(
        env: &mut Env,
        caller: Address,
        escrow_id: u64,
        milestone_id: u32,
    ) -> (r: Result<(), EscrowError>)
        requires
            old(env)@.rent_in_range(escrow_id),
        ensures
            match old(env)@.approve_milestone_refusal(caller, escrow_id, milestone_id) {
                Some(e) => r == Err::<(), _>(e) && final(env)@ == old(env)@.demanding(caller),
                None => r == Ok::<_, EscrowError>(()) && final(env)@
                    == old(env)@.approve_milestone_done(caller, escrow_id, milestone_id),
            },
    {
        env.require_auth(&caller);
        ContractStorage::require_not_paused(env)?;
        let mut meta: EscrowMeta = ContractStorage::load_escrow_meta_with_rent(env, escrow_id)?;
        if meta.status != EscrowStatus::Active {
            return Err(EscrowError::EscrowNotActive);
        }
        ContractStorage::check_lock_time_expired(env, meta.lock_time)?;
        if !approver(&meta, &caller) {
            return Err(EscrowError::Unauthorized);
        }
        let mut milestone: Milestone = ContractStorage::load_milestone(
            env,
            escrow_id,
            milestone_id,
        )?;
        if milestone.status != MS_SUBMITTED || approved_before(&milestone, &caller) {
            return Err(EscrowError::InvalidMilestoneState);
        }
        if !enough(&meta, &milestone, &caller) {
            ContractStorage::settle_rent_for_access(env, escrow_id);
            ContractStorage::announce_lock_time(env, escrow_id, meta.lock_time);
            env.touch(EntryKey::Packed(PackedDataKey::Milestone(escrow_id, milestone_id)));
            milestone.approvals.push(
                ApprovalRecord { signer: caller, approved_at: env.timestamp },
            );
            ContractStorage::save_milestone(env, escrow_id, milestone);
            return Ok(());
        }
        let amount: i128 = milestone.amount;
        let open: bool = ContractStorage::timelock_expired(env, meta.timelock);
        if meta.approved_count == u32::MAX {
            return Err(EscrowError::AmountMismatch);
        }
        if open && (meta.released_count == u32::MAX || !covers(meta.remaining_balance, amount)) {
            return Err(EscrowError::AmountMismatch);
        }

        ContractStorage::settle_rent_for_access(env, escrow_id);
        ContractStorage::announce_lock_time(env, escrow_id, meta.lock_time);
        env.touch(EntryKey::Packed(PackedDataKey::Milestone(escrow_id, milestone_id)));
        ContractStorage::announce_timelock(env, escrow_id, meta.timelock);
        meta.approved_count = meta.approved_count + 1;
        meta.submitted_count = meta.submitted_count.saturating_sub(1);
        milestone.status = MS_APPROVED;
        milestone.resolved_at = Some(env.timestamp);
        milestone.approvals.push(ApprovalRecord { signer: caller, approved_at: env.timestamp });
        if open {
            let contract: Address = env.contract;
            env.transfer(&meta.token, &contract, &meta.freelancer, amount);
            meta.remaining_balance = meta.remaining_balance - amount;
            meta.released_count = meta.released_count + 1;
            milestone.status = MS_RELEASED;
            env.publish(Event::FundsReleased { escrow_id, to: meta.freelancer, amount });
        }
        ContractStorage::save_milestone(env, escrow_id, milestone);
        if meta.approved_count == meta.milestone_count && meta.milestone_count > 0
            && meta.released_count == meta.milestone_count && meta.remaining_balance == 0 {
            meta.status = EscrowStatus::Completed;
            ContractStorage::relist(
                env,
                EscrowStatus::Active,
                EscrowStatus::Completed,
                escrow_id,
            );
            env.publish(Event::EscrowCompleted { escrow_id });
        }
        ContractStorage::save_escrow_meta(env, meta);
        env.publish(Event::MilestoneApproved { escrow_id, milestone_id, amount });
        Ok(())
    }

    /// The client, or an approver of the escrow's policy, rejects a submitted milestone.
    pub fn reject_milestone(
        env: &mut Env,
        caller: Address,
        escrow_id: u64,
        milestone_id: u32,
    ) -> (r: Result<(), EscrowError>)
        requires
            old(env)@.rent_in_range(escrow_id),
        ensures
            match old(env)@.reject_milestone_refusal(caller, escrow_id, milestone_id) {
                Some(e) => r == Err::<(), _>(e) && final(env)@ == old(env)@.demanding(caller),
                None => r == Ok::<_, EscrowError>(()) && final(env)@
                    == old(env)@.reject_milestone_done(caller, escrow_id, milestone_id),
            },
    {
        env.require_auth(&caller);
        ContractStorage::require_not_paused(env)?;
        let mut meta: EscrowMeta = ContractStorage::load_escrow_meta_with_rent(env, escrow_id)?;
        if !caller.same(&meta.client) && !lists_address(&meta.multisig.approvers, &caller) {
            return Err(EscrowError::ClientOnly);
        }
        if meta.status != EscrowStatus::Active {
            return Err(EscrowError::EscrowNotActive);
        }
        let mut milestone: Milestone = ContractStorage::load_milestone(
            env,
            escrow_id,
            milestone_id,
        )?;
        if milestone.status != MS_SUBMITTED {
            return Err(EscrowError::InvalidMilestoneState);
        }

        ContractStorage::settle_rent_for_access(env, escrow_id);
        env.touch(EntryKey::Packed(PackedDataKey::Milestone(escrow_id, milestone_id)));
        milestone.status = MS_REJECTED;
        milestone.resolved_at = Some(env.timestamp);
        milestone.approvals = Vec::new();
        ContractStorage::save_milestone(env, escrow_id, milestone);
        meta.submitted_count = meta.submitted_count.saturating_sub(1);
        ContractStorage::save_escrow_meta(env, meta);
        env.publish(Event::MilestoneRejected { escrow_id, milestone_id, by: caller });
        Ok(())
    }

    /// The admin releases the funds of an approved milestone: a fallback for edge cases, where
    /// the normal flow is `approve_milestone`. The milestone must be Approved, so that nothing
    /// is paid twice.
    pub fn release_funds(
        env: &mut Env,
        caller: Address,
        escrow_id: u64,
        milestone_id: u32,
    ) -> (r: Result<(), EscrowError>)
        requires
            old(env)@.rent_in_range(escrow_id),
        ensures
            old(env)@.uninitialized_refusal() is Some ==> r == Err::<(), _>(
                EscrowError::NotInitialized,
            ) && final(env)@ == old(env)@,
            old(env)@.uninitialized_refusal() is None ==> match old(env)@.release_funds_refusal(
                caller,
                escrow_id,
                milestone_id,
            ) {
                Some(e) => r == Err::<(), _>(e) && final(env)@ == old(env)@.demanding(caller),
                None => r == Ok::<_, EscrowError>(()) && final(env)@
                    == old(env)@.release_funds_done(caller, escrow_id, milestone_id),
            },
    {
        ContractStorage::require_initialized(env)?;
        env.require_auth(&caller);
        ContractStorage::require_not_paused(env)?;
        ContractStorage::require_admin(env, &caller)?;
        let mut milestone: Milestone = ContractStorage::load_milestone(
            env,
            escrow_id,
            milestone_id,
        )?;
        if milestone.status != MS_APPROVED {
            return Err(EscrowError::InvalidMilestoneState);
        }
        let mut meta: EscrowMeta = ContractStorage::load_escrow_meta_with_rent(env, escrow_id)?;
        ContractStorage::check_lock_time_expired(env, meta.lock_time)?;
        let amount: i128 = milestone.amount;
        if !covers(meta.remaining_balance, amount) {
            return Err(EscrowError::AmountMismatch);
        }
        let remaining_balance: i128 = meta.remaining_balance - amount;
        let released_count: u32 = match meta.released_count.checked_add(1) {
            Some(count) => count,
            None => {
                return Err(EscrowError::AmountMismatch);
            },
        };
        if meta.status == EscrowStatus::Disputed {
            return Err(EscrowError::EscrowNotActive);
        }

        env.touch_instance();
        env.touch(EntryKey::Packed(PackedDataKey::Milestone(escrow_id, milestone_id)));
        ContractStorage::settle_rent_for_access(env, escrow_id);
        ContractStorage::announce_timelock(env, escrow_id, meta.timelock);
        ContractStorage::announce_lock_time(env, escrow_id, meta.lock_time);
        let contract: Address = env.contract;
        env.transfer(&meta.token, &contract, &meta.freelancer, amount);
        milestone.status = MS_RELEASED;
        ContractStorage::save_milestone(env, escrow_id, milestone);
        meta.remaining_balance = remaining_balance;
        meta.released_count = released_count;
        if meta.released_count == meta.milestone_count && meta.milestone_count > 0
            && meta.remaining_balance == 0 {
            ContractStorage::relist(env, meta.status, EscrowStatus::Completed, escrow_id);
            meta.status = EscrowStatus::Completed;
            env.publish(Event::EscrowCompleted { escrow_id });
        }
        let to: Address = meta.freelancer;
        ContractStorage::save_escrow_meta(env, meta);
        env.publish(Event::FundsReleased { escrow_id, to, amount });
        Ok(())
    }
}

} // verus!
