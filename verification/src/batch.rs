//! Milestones many at a time: one header load, one header store and one transfer for a whole
//! batch.
use vstd::prelude::*;

use crate::contract::EscrowContract;
use crate::errors::EscrowError;
use crate::ledger::{EntryKey, Env, Event, Ledger};
use crate::milestones::{approved_before, approver, covers, enough, MAX_MILESTONES};
use crate::storage::ContractStorage;
use crate::types::{
    copy_list, Address, ApprovalRecord, EscrowMeta, EscrowMetaView, EscrowStatus, Milestone,
    MilestoneStatus, MilestoneView, PackedDataKey, Text, MS_APPROVED, MS_PENDING, MS_RELEASED,
    MS_SUBMITTED,
};

verus! {

// ---------------------------------------------------------------------------
// The model
// ---------------------------------------------------------------------------

/// The sum of some amounts.
pub open spec fn sum_of(amounts: Seq<i128>) -> int
    decreases amounts.len(),
{
    if amounts.len() == 0 {
        0
    } else {
        sum_of(amounts.drop_last()) + amounts.last()
    }
}

/// Why the amounts of new milestones are refused: the first of them that is not positive, or
/// that takes the sum out of range.
pub open spec fn amounts_refusal(amounts: Seq<i128>) -> Option<EscrowError>
    decreases amounts.len(),
{
    if amounts.len() == 0 {
        None
    } else if amounts_refusal(amounts.drop_last()) is Some {
        amounts_refusal(amounts.drop_last())
    } else if amounts.last() <= 0 {
        Some(EscrowError::InvalidMilestoneAmount)
    } else if sum_of(amounts) > i128::MAX {
        Some(EscrowError::MilestoneAmountExceedsEscrow)
    } else {
        None
    }
}

/// The sum of the amounts of the selected milestones of escrow `id`.
pub open spec fn selected_total(
    milestones: Map<(u64, u32), MilestoneView>,
    id: u64,
    mids: Seq<u32>,
) -> int
    decreases mids.len(),
{
    if mids.len() == 0 {
        0
    } else {
        selected_total(milestones, id, mids.drop_last()) + milestones[(id, mids.last())].amount
    }
}

/// Why the selected milestones of escrow `id`, taken one by one, are refused: the first of them
/// that is not there, is not in the state `status`, or takes the sum of the amounts out of range.
pub open spec fn listed_refusal(
    milestones: Map<(u64, u32), MilestoneView>,
    id: u64,
    mids: Seq<u32>,
    status: MilestoneStatus,
) -> Option<EscrowError>
    decreases mids.len(),
{
    if mids.len() == 0 {
        None
    } else if listed_refusal(milestones, id, mids.drop_last(), status) is Some {
        listed_refusal(milestones, id, mids.drop_last(), status)
    } else if !milestones.contains_key((id, mids.last())) {
        Some(EscrowError::MilestoneNotFound)
    } else if milestones[(id, mids.last())].status != status {
        Some(EscrowError::InvalidMilestoneState)
    } else if !(i128::MIN <= selected_total(milestones, id, mids) <= i128::MAX) {
        Some(EscrowError::AmountMismatch)
    } else {
        None
    }
}

/// Whether a milestone is selected twice.
pub open spec fn repeats(mids: Seq<u32>) -> bool {
    exists|i: int, j: int| 0 <= i < j < mids.len() && #[trigger] mids[i] == #[trigger] mids[j]
}

/// Why a selection of milestones of escrow `id` is refused: for one of them, or, where each of
/// them would do, because one is selected twice.
pub open spec fn selection_refusal(
    milestones: Map<(u64, u32), MilestoneView>,
    id: u64,
    mids: Seq<u32>,
    status: MilestoneStatus,
) -> Option<EscrowError> {
    if listed_refusal(milestones, id, mids, status) is Some {
        listed_refusal(milestones, id, mids, status)
    } else if repeats(mids) {
        Some(EscrowError::InvalidMilestoneState)
    } else {
        None
    }
}

/// Those of the selected milestones that an approval by `who` is enough for.
pub open spec fn chosen(
    milestones: Map<(u64, u32), MilestoneView>,
    id: u64,
    meta: EscrowMetaView,
    who: Address,
    mids: Seq<u32>,
) -> Seq<u32>
    decreases mids.len(),
{
    if mids.len() == 0 {
        Seq::empty()
    } else {
        let before = chosen(milestones, id, meta, who, mids.drop_last());
        if crate::milestones::suffices(meta, milestones[(id, mids.last())], who) {
            before.push(mids.last())
        } else {
            before
        }
    }
}

/// Whether `who` has approved one of the selected milestones before.
pub open spec fn any_approved(
    milestones: Map<(u64, u32), MilestoneView>,
    id: u64,
    who: Address,
    mids: Seq<u32>,
) -> bool {
    exists|i: int|
        0 <= i < mids.len() && crate::milestones::has_approved(
            milestones[(id, #[trigger] mids[i])],
            who,
        )
}

/// The counter less `n`, but never less than none.
pub open spec fn less(count: u32, n: nat) -> u32 {
    if count < n {
        0
    } else {
        (count - n) as u32
    }
}

/// The header after `n` milestones of `total` in all were approved together.
pub open spec fn batch_approved_counts(
    meta: EscrowMetaView,
    n: nat,
    total: i128,
    open: bool,
) -> EscrowMetaView {
    let counted = EscrowMetaView {
        approved_count: (meta.approved_count + n) as u32,
        submitted_count: less(meta.submitted_count, n),
        released_count: if open {
            (meta.released_count + n) as u32
        } else {
            meta.released_count
        },
        remaining_balance: if open && total > 0 {
            (meta.remaining_balance - total) as i128
        } else {
            meta.remaining_balance
        },
        ..meta
    };
    crate::milestones::completed_if(counted, crate::milestones::all_released(counted))
}

/// The header after the funds of `n` milestones, `total` in all, were released together.
pub open spec fn batch_released_counts(
    meta: EscrowMetaView,
    n: nat,
    total: i128,
) -> EscrowMetaView {
    let counted = EscrowMetaView {
        released_count: (meta.released_count + n) as u32,
        remaining_balance: (meta.remaining_balance - total) as i128,
        ..meta
    };
    crate::milestones::completed_if(counted, crate::milestones::all_released(counted))
}

impl Ledger {
    /// Why a batch of milestones cannot be added.
    pub open spec fn batch_add_refusal(
        self,
        caller: Address,
        id: u64,
        titles: Seq<Text>,
        hashes: Seq<[u8; 32]>,
        amounts: Seq<i128>,
    ) -> Option<EscrowError> {
        let meta = self.accessed_escrow(id);
        let n = titles.len();
        if self.is_paused() {
            Some(EscrowError::ContractPaused)
        } else if n == 0 || n != hashes.len() || n != amounts.len() {
            Some(EscrowError::InvalidMilestoneAmount)
        } else if self.access_refusal(id) is Some {
            self.access_refusal(id)
        } else if caller != meta.client {
            Some(EscrowError::ClientOnly)
        } else if meta.status != EscrowStatus::Active {
            Some(EscrowError::EscrowNotActive)
        } else if meta.milestone_count + n > MAX_MILESTONES {
            Some(EscrowError::TooManyMilestones)
        } else if amounts_refusal(amounts) is Some {
            amounts_refusal(amounts)
        } else if meta.allocated_amount + sum_of(amounts) > meta.total_amount {
            Some(EscrowError::MilestoneAmountExceedsEscrow)
        } else {
            self.entry_rent_refusal(meta, n as u32)
        }
    }

    /// The first `k` milestones of a batch are stored and announced, numbered from `first` on.
    pub open spec fn adding_milestones(
        self,
        id: u64,
        first: u32,
        titles: Seq<Text>,
        hashes: Seq<[u8; 32]>,
        amounts: Seq<i128>,
        k: nat,
    ) -> Ledger
        decreases k,
    {
        if k == 0 {
            self
        } else {
            let i = k - 1;
            let mid = (first + i) as u32;
            self.adding_milestones(id, first, titles, hashes, amounts, i as nat).with_milestone(
                id,
                crate::milestones::new_milestone(mid, titles[i]@, hashes[i], amounts[i]),
            ).publishing(
                Event::MilestoneAdded { escrow_id: id, milestone_id: mid, amount: amounts[i] },
            )
        }
    }

    /// A batch of milestones is added, and the client pays for their storage in one transfer.
    pub open spec fn batch_add_done(
        self,
        caller: Address,
        id: u64,
        titles: Seq<Text>,
        hashes: Seq<[u8; 32]>,
        amounts: Seq<i128>,
    ) -> Ledger {
        let meta = self.accessed_escrow(id);
        let n = titles.len();
        let reserve = crate::rent::reserve_for(n as int);
        self.demanding(caller).accessing(id).charging_reserve(
            meta.token,
            caller,
            reserve as i128,
        ).adding_milestones(id, meta.milestone_count, titles, hashes, amounts, n).with_escrow(
            EscrowMetaView {
                milestone_count: (meta.milestone_count + n) as u32,
                allocated_amount: (meta.allocated_amount + sum_of(amounts)) as i128,
                rent_balance: (meta.rent_balance + reserve) as i128,
                ..meta
            },
        )
    }

    /// Why a batch of milestones cannot be approved.
    pub open spec fn batch_approve_refusal(
        self,
        caller: Address,
        id: u64,
        mids: Seq<u32>,
    ) -> Option<EscrowError> {
        let meta = self.accessed_escrow(id);
        let open = crate::storage::timelock_open(meta.timelock, self.now);
        let approved = chosen(self.milestones, id, meta, caller, mids);
        let total = selected_total(self.milestones, id, approved);
        if self.is_paused() {
            Some(EscrowError::ContractPaused)
        } else if mids.len() == 0 {
            Some(EscrowError::InvalidMilestoneAmount)
        } else if self.access_refusal(id) is Some {
            self.access_refusal(id)
        } else if meta.status != EscrowStatus::Active {
            Some(EscrowError::EscrowNotActive)
        } else if self.lock_refusal(meta.lock_time) is Some {
            self.lock_refusal(meta.lock_time)
        } else if !crate::milestones::may_approve(meta, caller) {
            Some(EscrowError::Unauthorized)
        } else if selection_refusal(self.milestones, id, mids, MS_SUBMITTED) is Some {
            selection_refusal(self.milestones, id, mids, MS_SUBMITTED)
        } else if any_approved(self.milestones, id, caller, mids) {
            Some(EscrowError::InvalidMilestoneState)
        } else if selection_refusal(self.milestones, id, approved, MS_SUBMITTED) is Some {
            selection_refusal(self.milestones, id, approved, MS_SUBMITTED)
        } else if meta.approved_count + approved.len() > u32::MAX {
            Some(EscrowError::AmountMismatch)
        } else if open && (meta.released_count + approved.len() > u32::MAX || (total > 0
            && !crate::milestones::deductible(meta.remaining_balance, total as i128))) {
            Some(EscrowError::AmountMismatch)
        } else {
            None
        }
    }

    /// `who` approves the first `k` milestones of a selection: those that this is enough for
    /// are approved, and for the others it goes on record.
    pub open spec fn approving_milestones(
        self,
        id: u64,
        meta: EscrowMetaView,
        who: Address,
        mids: Seq<u32>,
        open: bool,
        k: nat,
    ) -> Ledger
        decreases k,
    {
        if k == 0 {
            self
        } else {
            let mid = mids[k - 1];
            let before = self.approving_milestones(id, meta, who, mids, open, (k - 1) as nat);
            let m = before.milestones[(id, mid)];
            let read = before.touching_milestone(id, mid);
            if crate::milestones::suffices(meta, m, who) {
                read.with_milestone(
                    id,
                    crate::milestones::approved_milestone(m, who, self.now, open),
                ).publishing(
                    Event::MilestoneApproved { escrow_id: id, milestone_id: mid, amount: m.amount },
                )
            } else {
                read.with_milestone(id, crate::milestones::recorded(m, who, self.now))
            }
        }
    }

    /// A batch of milestones is approved. With an open timelock the freelancer is paid for all
    /// of those that needed no further approval in one transfer.
    pub open spec fn batch_approve_done(self, caller: Address, id: u64, mids: Seq<u32>) -> Ledger {
        let meta = self.accessed_escrow(id);
        let open = crate::storage::timelock_open(meta.timelock, self.now);
        let approved = chosen(self.milestones, id, meta, caller, mids);
        let total = selected_total(self.milestones, id, approved) as i128;
        let after = batch_approved_counts(meta, approved.len(), total, open);
        let stored = self.demanding(caller).accessing(id).announcing_lock(
            id,
            meta.lock_time,
        ).announcing_timelock(id, meta.timelock).approving_milestones(
            id,
            meta,
            caller,
            mids,
            open,
            mids.len(),
        );
        let paid = if open && total > 0 {
            stored.transferring(meta.token, self.contract, meta.freelancer, total).publishing(
                Event::FundsReleased { escrow_id: id, to: meta.freelancer, amount: total },
            )
        } else {
            stored
        };
        let announced = if crate::milestones::all_released(after) {
            paid.relisting(meta.status, EscrowStatus::Completed, id).publishing(
                Event::EscrowCompleted { escrow_id: id },
            )
        } else {
            paid
        };
        announced.with_escrow(after)
    }

    /// Why the funds of a batch of milestones cannot be released. The contract's set-up is
    /// checked before the caller's authorization is demanded, and so not here.
    pub open spec fn batch_release_refusal(
        self,
        caller: Address,
        id: u64,
        mids: Seq<u32>,
    ) -> Option<EscrowError> {
        let meta = self.accessed_escrow(id);
        let total = selected_total(self.milestones, id, mids);
        if self.is_paused() {
            Some(EscrowError::ContractPaused)
        } else if self.admin_refusal(caller) is Some {
            self.admin_refusal(caller)
        } else if mids.len() == 0 {
            Some(EscrowError::InvalidMilestoneAmount)
        } else if self.access_refusal(id) is Some {
            self.access_refusal(id)
        } else if self.lock_refusal(meta.lock_time) is Some {
            self.lock_refusal(meta.lock_time)
        } else if selection_refusal(self.milestones, id, mids, MS_APPROVED) is Some {
            selection_refusal(self.milestones, id, mids, MS_APPROVED)
        } else if meta.released_count + mids.len() > u32::MAX || !crate::milestones::deductible(
            meta.remaining_balance,
            total as i128,
        ) {
            Some(EscrowError::AmountMismatch)
        } else if meta.status == EscrowStatus::Disputed {
            Some(EscrowError::EscrowNotActive)
        } else {
            None
        }
    }

    /// The first `k` milestones of a selection are marked as released, to the credit of `to`.
    pub open spec fn releasing_milestones(
        self,
        id: u64,
        to: Address,
        mids: Seq<u32>,
        k: nat,
    ) -> Ledger
        decreases k,
    {
        if k == 0 {
            self
        } else {
            let mid = mids[k - 1];
            let before = self.releasing_milestones(id, to, mids, (k - 1) as nat);
            let m = before.milestones[(id, mid)];
            before.touching_milestone(id, mid).with_milestone(
                id,
                MilestoneView { status: MS_RELEASED, ..m },
            ).publishing(Event::FundsReleased { escrow_id: id, to, amount: m.amount })
        }
    }

    /// The funds of a batch of milestones are released in one transfer.
    pub open spec fn batch_release_done(self, caller: Address, id: u64, mids: Seq<u32>) -> Ledger {
        let meta = self.accessed_escrow(id);
        let total = selected_total(self.milestones, id, mids) as i128;
        let after = batch_released_counts(meta, mids.len(), total);
        let paid = self.touching_instance().demanding(caller).accessing(id).announcing_lock(
            id,
            meta.lock_time,
        ).releasing_milestones(id, meta.freelancer, mids, mids.len()).transferring(
            meta.token,
            self.contract,
            meta.freelancer,
            total,
        );
        let announced = if crate::milestones::all_released(after) {
            paid.relisting(meta.status, EscrowStatus::Completed, id).publishing(
                Event::EscrowCompleted { escrow_id: id },
            )
        } else {
            paid
        };
        announced.with_escrow(after)
    }
}

/// A refusal of some first amounts is a refusal of them all.
proof fn lemma_amounts_refused(amounts: Seq<i128>, k: int)
    requires
        0 <= k <= amounts.len(),
        amounts_refusal(amounts.take(k)) is Some,
    ensures
        amounts_refusal(amounts) == amounts_refusal(amounts.take(k)),
    decreases amounts.len() - k,
{
    if k == amounts.len() {
        assert(amounts.take(k) =~= amounts);
    } else {
        assert(amounts.take(k + 1).drop_last() =~= amounts.take(k));
        lemma_amounts_refused(amounts, k + 1);
    }
}

/// A refusal of some first milestones of a selection is a refusal of them all.
proof fn lemma_listed_refused(
    milestones: Map<(u64, u32), MilestoneView>,
    id: u64,
    mids: Seq<u32>,
    status: MilestoneStatus,
    k: int,
)
    requires
        0 <= k <= mids.len(),
        listed_refusal(milestones, id, mids.take(k), status) is Some,
    ensures
        listed_refusal(milestones, id, mids, status) == listed_refusal(
            milestones,
            id,
            mids.take(k),
            status,
        ),
    decreases mids.len() - k,
{
    if k == mids.len() {
        assert(mids.take(k) =~= mids);
    } else {
        assert(mids.take(k + 1).drop_last() =~= mids.take(k));
        lemma_listed_refused(milestones, id, mids, status, k + 1);
    }
}

/// Amounts that are not refused are positive, and their sum is in range.
pub proof fn lemma_amounts_accepted(amounts: Seq<i128>)
    requires
        amounts_refusal(amounts) is None,
    ensures
        0 <= sum_of(amounts) <= i128::MAX,
        forall|i: int| 0 <= i < amounts.len() ==> #[trigger] amounts[i] > 0,
    decreases amounts.len(),
{
    if amounts.len() > 0 {
        lemma_amounts_accepted(amounts.drop_last());
        assert forall|i: int| 0 <= i < amounts.len() implies #[trigger] amounts[i] > 0 by {
            if i < amounts.len() - 1 {
                assert(amounts.drop_last()[i] == amounts[i]);
            }
        }
    }
}

/// Milestones that are not refused one by one are all there and in the right state.
proof fn lemma_listed_accepted(
    milestones: Map<(u64, u32), MilestoneView>,
    id: u64,
    mids: Seq<u32>,
    status: MilestoneStatus,
)
    requires
        listed_refusal(milestones, id, mids, status) is None,
    ensures
        i128::MIN <= selected_total(milestones, id, mids) <= i128::MAX,
        forall|i: int|
            0 <= i < mids.len() ==> milestones.contains_key((id, #[trigger] mids[i]))
                && milestones[(id, mids[i])].status == status,
    decreases mids.len(),
{
    if mids.len() > 0 {
        lemma_listed_accepted(milestones, id, mids.drop_last(), status);
        assert forall|i: int| 0 <= i < mids.len() implies milestones.contains_key(
            (id, #[trigger] mids[i]),
        ) && milestones[(id, mids[i])].status == status by {
            if i < mids.len() - 1 {
                assert(mids.drop_last()[i] == mids[i]);
            }
        }
    }
}

/// Every milestone of a selection that is not refused is there and in the right state, and none
/// is selected twice.
pub proof fn lemma_selection_accepted(
    milestones: Map<(u64, u32), MilestoneView>,
    id: u64,
    mids: Seq<u32>,
    status: MilestoneStatus,
)
    requires
        selection_refusal(milestones, id, mids, status) is None,
    ensures
        i128::MIN <= selected_total(milestones, id, mids) <= i128::MAX,
        mids.no_duplicates(),
        forall|i: int|
            0 <= i < mids.len() ==> milestones.contains_key((id, #[trigger] mids[i]))
                && milestones[(id, mids[i])].status == status,
{
    lemma_listed_accepted(milestones, id, mids, status);
    assert forall|i: int, j: int|
        0 <= i < mids.len() && 0 <= j < mids.len() && i != j implies mids[i] != mids[j] by {
        if mids[i] == mids[j] {
            assert(repeats(mids));
        }
    }
}

// ---------------------------------------------------------------------------
// The entry points
// ---------------------------------------------------------------------------

/// Checks the amounts of new milestones and adds them up.
fn check_amounts(amounts: &Vec<i128>) -> (r: Result<i128, EscrowError>)
    ensures
        match amounts_refusal(amounts@) {
            Some(e) => r == Err::<i128, _>(e),
            None => r is Ok && r->Ok_0 == sum_of(amounts@),
        },
{
    let mut total: i128 = 0;
    let mut i: usize = 0;
    while i < amounts.len()
        invariant
            i <= amounts.len(),
            amounts_refusal(amounts@.take(i as int)) is None,
            total == sum_of(amounts@.take(i as int)),
        decreases amounts.len() - i,
    {
        let ghost part = amounts@.take(i + 1);
        assert(part.drop_last() =~= amounts@.take(i as int));
        proof {
            if amounts_refusal(part) is Some {
                lemma_amounts_refused(amounts@, i + 1);
            }
            lemma_amounts_accepted(amounts@.take(i as int));
        }
        let amount: i128 = amounts[i];
        if amount <= 0 {
            return Err(EscrowError::InvalidMilestoneAmount);
        }
        total = match total.checked_add(amount) {
            Some(sum) => sum,
            None => {
                return Err(EscrowError::MilestoneAmountExceedsEscrow);
            },
        };
        i = i + 1;
    }
    assert(amounts@.take(i as int) =~= amounts@);
    Ok(total)
}

/// Whether a milestone is selected twice.
fn selects_twice(milestone_ids: &Vec<u32>) -> (r: bool)
    ensures
        r == repeats(milestone_ids@),
{
    let mut j: usize = 0;
    while j < milestone_ids.len()
        invariant
            j <= milestone_ids.len(),
            forall|a: int, b: int|
                0 <= a < b < j ==> #[trigger] milestone_ids@[a] != #[trigger] milestone_ids@[b],
        decreases milestone_ids.len() - j,
    {
        let mut i: usize = 0;
        while i < j
            invariant
                i <= j < milestone_ids.len(),
                forall|a: int|
                    0 <= a < i ==> #[trigger] milestone_ids@[a] != milestone_ids@[j as int],
            decreases j - i,
        {
            if milestone_ids[i] == milestone_ids[j] {
                assert(milestone_ids@[i as int] == milestone_ids@[j as int]);
                return true;
            }
            i = i + 1;
        }
        j = j + 1;
    }
    false
}

/// Checks that `who` has approved none of the selected milestones before.
fn check_approvals(env: &Env, escrow_id: u64, milestone_ids: &Vec<u32>, who: &Address) -> (r:
    Result<(), EscrowError>)
    requires
        forall|i: int|
            0 <= i < milestone_ids.len() ==> env@.milestones.contains_key(
                (escrow_id, #[trigger] milestone_ids@[i]),
            ),
    ensures
        r == (if any_approved(env@.milestones, escrow_id, *who, milestone_ids@) {
            Err(EscrowError::InvalidMilestoneState)
        } else {
            Ok(())
        }),
{
    let mut i: usize = 0;
    while i < milestone_ids.len()
        invariant
            i <= milestone_ids.len(),
            forall|j: int|
                0 <= j < milestone_ids.len() ==> env@.milestones.contains_key(
                    (escrow_id, #[trigger] milestone_ids@[j]),
                ),
            forall|j: int|
                0 <= j < i ==> !crate::milestones::has_approved(
                    env@.milestones[(escrow_id, #[trigger] milestone_ids@[j])],
                    *who,
                ),
        decreases milestone_ids.len() - i,
    {
        assert(env@.milestones.contains_key((escrow_id, milestone_ids@[i as int])));
        if let Ok(milestone) = ContractStorage::load_milestone(env, escrow_id, milestone_ids[i]) {
            if approved_before(&milestone, who) {
                return Err(EscrowError::InvalidMilestoneState);
            }
        }
        i = i + 1;
    }
    Ok(())
}

/// Those of the selected milestones that an approval by `who` is enough for.
fn choose_approved(
    env: &Env,
    escrow_id: u64,
    meta: &EscrowMeta,
    who: &Address,
    milestone_ids: &Vec<u32>,
) -> (r: Vec<u32>)
    requires
        forall|i: int|
            0 <= i < milestone_ids.len() ==> env@.milestones.contains_key(
                (escrow_id, #[trigger] milestone_ids@[i]),
            ),
    ensures
        r@ == chosen(env@.milestones, escrow_id, meta@, *who, milestone_ids@),
{
    let mut approved: Vec<u32> = Vec::new();
    let mut i: usize = 0;
    while i < milestone_ids.len()
        invariant
            i <= milestone_ids.len(),
            forall|j: int|
                0 <= j < milestone_ids.len() ==> env@.milestones.contains_key(
                    (escrow_id, #[trigger] milestone_ids@[j]),
                ),
            approved@ == chosen(
                env@.milestones,
                escrow_id,
                meta@,
                *who,
                milestone_ids@.take(i as int),
            ),
        decreases milestone_ids.len() - i,
    {
        assert(milestone_ids@.take(i + 1).drop_last() =~= milestone_ids@.take(i as int));
        assert(env@.milestones.contains_key((escrow_id, milestone_ids@[i as int])));
        if let Ok(milestone) = ContractStorage::load_milestone(env, escrow_id, milestone_ids[i]) {
            if enough(meta, &milestone, who) {
                approved.push(milestone_ids[i]);
            }
        }
        i = i + 1;
    }
    assert(milestone_ids@.take(i as int) =~= milestone_ids@);
    approved
}

/// Checks that the selected milestones are all in the state `status` and selected once, and
/// adds their amounts up.
fn check_selection(
    env: &Env,
    escrow_id: u64,
    milestone_ids: &Vec<u32>,
    status: MilestoneStatus,
) -> (r: Result<i128, EscrowError>)
    ensures
        match selection_refusal(env@.milestones, escrow_id, milestone_ids@, status) {
            Some(e) => r == Err::<i128, _>(e),
            None => r is Ok && r->Ok_0 == selected_total(
                env@.milestones,
                escrow_id,
                milestone_ids@,
            ),
        },
{
    let mut total: i128 = 0;
    let mut i: usize = 0;
    while i < milestone_ids.len()
        invariant
            i <= milestone_ids.len(),
            listed_refusal(
                env@.milestones,
                escrow_id,
                milestone_ids@.take(i as int),
                status,
            ) is None,
            total == selected_total(env@.milestones, escrow_id, milestone_ids@.take(i as int)),
        decreases milestone_ids.len() - i,
    {
        let ghost part = milestone_ids@.take(i + 1);
        assert(part.drop_last() =~= milestone_ids@.take(i as int));
        proof {
            if listed_refusal(env@.milestones, escrow_id, part, status) is Some {
                lemma_listed_refused(
                    env@.milestones,
                    escrow_id,
                    milestone_ids@,
                    status,
                    i + 1,
                );
            }
        }
        let milestone: Milestone = ContractStorage::load_milestone(
            env,
            escrow_id,
            milestone_ids[i],
        )?;
        if milestone.status != status {
            return Err(EscrowError::InvalidMilestoneState);
        }
        total = match total.checked_add(milestone.amount) {
            Some(sum) => sum,
            None => {
                return Err(EscrowError::AmountMismatch);
            },
        };
        i = i + 1;
    }
    assert(milestone_ids@.take(i as int) =~= milestone_ids@);
    if selects_twice(milestone_ids) {
        return Err(EscrowError::InvalidMilestoneState);
    }
    Ok(total)
}

/// The counter less `n`, but never less than none.
fn count_less(count: u32, n: usize) -> (r: u32)
    ensures
        r == less(count, n as nat),
{
    if (count as u64) < n as u64 {
        0
    } else {
        count - n as u32
    }
}

impl EscrowContract {
    /// Adds several milestones at once and returns the number of the first; the others follow
    /// in order. `titles`, `description_hashes` and `amounts` are parallel lists.
    pub fn batch_add_milestones(
        env: &mut Env,
        caller: Address,
        escrow_id: u64,
        titles: Vec<Text>,
        description_hashes: Vec<[u8; 32]>,
        amounts: Vec<i128>,
    ) -> (r: Result<u32, EscrowError>)
        requires
            old(env)@.rent_in_range(escrow_id),
        ensures
            match old(env)@.batch_add_refusal(
                caller,
                escrow_id,
                titles@,
                description_hashes@,
                amounts@,
            ) {
                Some(e) => r == Err::<u32, _>(e) && final(env)@ == old(env)@.demanding(caller),
                None => r == Ok::<_, EscrowError>(
                    old(env)@.accessed_escrow(escrow_id).milestone_count,
                ) && final(env)@ == old(env)@.batch_add_done(
                    caller,
                    escrow_id,
                    titles@,
                    description_hashes@,
                    amounts@,
                ),
            },
    {
        env.require_auth(&caller);
        ContractStorage::require_not_paused(env)?;
        let n: usize = titles.len();
        if n == 0 || n != description_hashes.len() || n != amounts.len() {
            return Err(EscrowError::InvalidMilestoneAmount);
        }
        let mut meta: EscrowMeta = ContractStorage::load_escrow_meta_with_rent(env, escrow_id)?;
        if !caller.same(&meta.client) {
            return Err(EscrowError::ClientOnly);
        }
        if meta.status != EscrowStatus::Active {
            return Err(EscrowError::EscrowNotActive);
        }
        if n > MAX_MILESTONES as usize || meta.milestone_count > MAX_MILESTONES - n as u32 {
            return Err(EscrowError::TooManyMilestones);
        }
        let first_id: u32 = meta.milestone_count;
        let total_new: i128 = check_amounts(&amounts)?;
        proof {
            lemma_amounts_accepted(amounts@);
        }
        let next_allocated: i128 = match meta.allocated_amount.checked_add(total_new) {
            Some(sum) => sum,
            None => {
                return Err(EscrowError::MilestoneAmountExceedsEscrow);
            },
        };
        if next_allocated > meta.total_amount {
            return Err(EscrowError::MilestoneAmountExceedsEscrow);
        }
        ContractStorage::check_entry_rent(&meta, n as u32)?;

        ContractStorage::settle_rent_for_access(env, escrow_id);
        ContractStorage::charge_entry_rent(env, &mut meta, &caller, n as u32);
        meta.allocated_amount = next_allocated;
        let ghost charged = env@;
        let mut i: usize = 0;
        while i < n
            invariant
                i <= n <= MAX_MILESTONES,
                n == titles.len() == description_hashes.len() == amounts.len(),
                first_id + n <= MAX_MILESTONES,
                env@ == charged.adding_milestones(
                    escrow_id,
                    first_id,
                    titles@,
                    description_hashes@,
                    amounts@,
                    i as nat,
                ),
            decreases n - i,
        {
            let milestone_id: u32 = first_id + i as u32;
            ContractStorage::save_milestone(
                env,
                escrow_id,
                Milestone {
                    id: milestone_id,
                    title: copy_list(&titles[i]),
                    description_hash: description_hashes[i],
                    amount: amounts[i],
                    status: MS_PENDING,
                    submitted_at: None,
                    resolved_at: None,
                    approvals: Vec::new(),
                },
            );
            env.publish(Event::MilestoneAdded { escrow_id, milestone_id, amount: amounts[i] });
            i = i + 1;
        }
        meta.milestone_count = first_id + n as u32;
        ContractStorage::save_escrow_meta(env, meta);
        Ok(first_id)
    }

    /// Approves several submitted milestones at once and returns the sum of the amounts of those
    /// that are approved with it; the others need a further approval. Where one of them is
    /// missing, in another state or named twice, nothing happens.
    pub fn batch_approve_milestones(
        env: &mut Env,
        caller: Address,
        escrow_id: u64,
        milestone_ids: Vec<u32>,
    ) -> (r: Result<i128, EscrowError>)
        requires
            old(env)@.rent_in_range(escrow_id),
        ensures
            match old(env)@.batch_approve_refusal(caller, escrow_id, milestone_ids@) {
                Some(e) => r == Err::<i128, _>(e) && final(env)@ == old(env)@.demanding(caller),
                None => r is Ok && r->Ok_0 == selected_total(
                    old(env)@.milestones,
                    escrow_id,
                    chosen(
                        old(env)@.milestones,
                        escrow_id,
                        old(env)@.accessed_escrow(escrow_id),
                        caller,
                        milestone_ids@,
                    ),
                ) && final(env)@ == old(env)@.batch_approve_done(
                    caller,
                    escrow_id,
                    milestone_ids@,
                ),
            },
    {
        env.require_auth(&caller);
        ContractStorage::require_not_paused(env)?;
        if milestone_ids.len() == 0 {
            return Err(EscrowError::InvalidMilestoneAmount);
        }
        let mut meta: EscrowMeta = ContractStorage::load_escrow_meta_with_rent(env, escrow_id)?;
        if meta.status != EscrowStatus::Active {
            return Err(EscrowError::EscrowNotActive);
        }
        ContractStorage::check_lock_time_expired(env, meta.lock_time)?;
        if !approver(&meta, &caller) {
            return Err(EscrowError::Unauthorized);
        }
        let open: bool = ContractStorage::timelock_expired(env, meta.timelock);
        let _selected: i128 = check_selection(env, escrow_id, &milestone_ids, MS_SUBMITTED)?;
        proof {
            lemma_selection_accepted(env@.milestones, escrow_id, milestone_ids@, MS_SUBMITTED);
        }
        check_approvals(env, escrow_id, &milestone_ids, &caller)?;
        let approved: Vec<u32> = choose_approved(env, escrow_id, &meta, &caller, &milestone_ids);
        let total_amount: i128 = check_selection(env, escrow_id, &approved, MS_SUBMITTED)?;
        let n: usize = approved.len();
        if n as u64 > (u32::MAX - meta.approved_count) as u64 {
            return Err(EscrowError::AmountMismatch);
        }
        if open && (n as u64 > (u32::MAX - meta.released_count) as u64 || (total_amount > 0
            && !covers(meta.remaining_balance, total_amount))) {
            return Err(EscrowError::AmountMismatch);
        }

        ContractStorage::settle_rent_for_access(env, escrow_id);
        ContractStorage::announce_lock_time(env, escrow_id, meta.lock_time);
        ContractStorage::announce_timelock(env, escrow_id, meta.timelock);
        let ghost checked = env@;
        let ghost header = meta@;
        let mut i: usize = 0;
        while i < milestone_ids.len()
            invariant
                i <= milestone_ids.len(),
                meta@ == header,
                forall|j: int|
                    0 <= j < milestone_ids.len() ==> env@.milestones.contains_key(
                        (escrow_id, #[trigger] milestone_ids@[j]),
                    ),
                env@.now == checked.now,
                env@.contract == checked.contract,
                env@ == checked.approving_milestones(
                    escrow_id,
                    header,
                    caller,
                    milestone_ids@,
                    open,
                    i as nat,
                ),
            decreases milestone_ids.len() - i,
        {
            let milestone_id: u32 = milestone_ids[i];
            assert(env@.milestones.contains_key((escrow_id, milestone_ids@[i as int])));
            if let Ok(mut milestone) = ContractStorage::load_milestone(
                env,
                escrow_id,
                milestone_id,
            ) {
                let amount: i128 = milestone.amount;
                env.touch(EntryKey::Packed(PackedDataKey::Milestone(escrow_id, milestone_id)));
                let enough_now: bool = enough(&meta, &milestone, &caller);
                milestone.approvals.push(
                    ApprovalRecord { signer: caller, approved_at: env.timestamp },
                );
                if enough_now {
                    milestone.resolved_at = Some(env.timestamp);
                    milestone.status = if open { MS_RELEASED } else { MS_APPROVED };
                }
                ContractStorage::save_milestone(env, escrow_id, milestone);
                if enough_now {
                    env.publish(Event::MilestoneApproved { escrow_id, milestone_id, amount });
                }
            }
            i = i + 1;
        }
        meta.approved_count = meta.approved_count + n as u32;
        meta.submitted_count = count_less(meta.submitted_count, n);
        if open {
            meta.released_count = meta.released_count + n as u32;
        }
        if open && total_amount > 0 {
            meta.remaining_balance = meta.remaining_balance - total_amount;
            let contract: Address = env.contract;
            env.transfer(&meta.token, &contract, &meta.freelancer, total_amount);
            env.publish(
                Event::FundsReleased { escrow_id, to: meta.freelancer, amount: total_amount },
            );
        }
        if meta.released_count == meta.milestone_count && meta.milestone_count > 0
            && meta.remaining_balance == 0 {
            ContractStorage::relist(env, meta.status, EscrowStatus::Completed, escrow_id);
            meta.status = EscrowStatus::Completed;
            env.publish(Event::EscrowCompleted { escrow_id });
        }
        ContractStorage::save_escrow_meta(env, meta);
        Ok(total_amount)
    }

    /// The admin releases the funds of several approved milestones at once, and is told the
    /// sum of their amounts.
    pub fn batch_release_funds(
        env: &mut Env,
        caller: Address,
        escrow_id: u64,
        milestone_ids: Vec<u32>,
    ) -> (r: Result<i128, EscrowError>)
        requires
            old(env)@.rent_in_range(escrow_id),
        ensures
            old(env)@.uninitialized_refusal() is Some ==> r == Err::<i128, _>(
                EscrowError::NotInitialized,
            ) && final(env)@ == old(env)@,
            old(env)@.uninitialized_refusal() is None ==> match old(env)@.batch_release_refusal(
                caller,
                escrow_id,
                milestone_ids@,
            ) {
                Some(e) => r == Err::<i128, _>(e) && final(env)@ == old(env)@.demanding(caller),
                None => r is Ok && r->Ok_0 == selected_total(
                    old(env)@.milestones,
                    escrow_id,
                    milestone_ids@,
                ) && final(env)@ == old(env)@.batch_release_done(
                    caller,
                    escrow_id,
                    milestone_ids@,
                ),
            },
    {
        ContractStorage::require_initialized(env)?;
        env.require_auth(&caller);
        ContractStorage::require_not_paused(env)?;
        ContractStorage::require_admin(env, &caller)?;
        if milestone_ids.len() == 0 {
            return Err(EscrowError::InvalidMilestoneAmount);
        }
        let mut meta: EscrowMeta = ContractStorage::load_escrow_meta_with_rent(env, escrow_id)?;
        ContractStorage::check_lock_time_expired(env, meta.lock_time)?;
        let total_amount: i128 = check_selection(env, escrow_id, &milestone_ids, MS_APPROVED)?;
        proof {
            lemma_selection_accepted(env@.milestones, escrow_id, milestone_ids@, MS_APPROVED);
        }
        let n: usize = milestone_ids.len();
        if n as u64 > (u32::MAX - meta.released_count) as u64 {
            return Err(EscrowError::AmountMismatch);
        }
        if !covers(meta.remaining_balance, total_amount) {
            return Err(EscrowError::AmountMismatch);
        }
        if meta.status == EscrowStatus::Disputed {
            return Err(EscrowError::EscrowNotActive);
        }
        let remaining_balance: i128 = meta.remaining_balance - total_amount;

        env.touch_instance();
        ContractStorage::settle_rent_for_access(env, escrow_id);
        ContractStorage::announce_lock_time(env, escrow_id, meta.lock_time);
        let ghost checked = env@;
        let ghost to = meta.freelancer;
        let mut i: usize = 0;
        while i < n
            invariant
                i <= n == milestone_ids.len(),
                meta.freelancer == to,
                forall|j: int|
                    0 <= j < n ==> env@.milestones.contains_key(
                        (escrow_id, #[trigger] milestone_ids@[j]),
                    ),
                env@.contract == checked.contract,
                env@ == checked.releasing_milestones(escrow_id, to, milestone_ids@, i as nat),
            decreases n - i,
        {
            let milestone_id: u32 = milestone_ids[i];
            assert(env@.milestones.contains_key((escrow_id, milestone_ids@[i as int])));
            if let Ok(mut milestone) = ContractStorage::load_milestone(
                env,
                escrow_id,
                milestone_id,
            ) {
                let amount: i128 = milestone.amount;
                env.touch(EntryKey::Packed(PackedDataKey::Milestone(escrow_id, milestone_id)));
                milestone.status = MS_RELEASED;
                ContractStorage::save_milestone(env, escrow_id, milestone);
                env.publish(Event::FundsReleased { escrow_id, to: meta.freelancer, amount });
            }
            i = i + 1;
        }
        meta.released_count = meta.released_count + n as u32;
        meta.remaining_balance = remaining_balance;
        let contract: Address = env.contract;
        env.transfer(&meta.token, &contract, &meta.freelancer, total_amount);
        if meta.released_count == meta.milestone_count && meta.milestone_count > 0
            && meta.remaining_balance == 0 {
            ContractStorage::relist(env, meta.status, EscrowStatus::Completed, escrow_id);
            meta.status = EscrowStatus::Completed;
            env.publish(Event::EscrowCompleted { escrow_id });
        }
        ContractStorage::save_escrow_meta(env, meta);
        Ok(total_amount)
    }
}

} // verus!
