//! Reading the ledger. A look at an escrow settles its rent first.
use vstd::prelude::*;

use crate::contract::EscrowContract;
use crate::errors::EscrowError;
use crate::index::{ids_at, page};
use crate::ledger::{EntryKey, Env, Ledger};
use crate::storage::ContractStorage;
use crate::types::{
    copy_list, Address, CancellationRequest, DataKey, EscrowMeta, EscrowMetaView,
    EscrowState, EscrowStateView, EscrowStatus, Milestone, MilestoneView, PackedDataKey,
    RecurringPaymentConfig, ReputationRecord, SlashRecord, SlashRecordView,
};

verus! {

// ---------------------------------------------------------------------------
// The model
// ---------------------------------------------------------------------------

/// Whether escrow `id` has each of its first `count` milestones.
pub open spec fn has_milestones(
    milestones: Map<(u64, u32), MilestoneView>,
    id: u64,
    count: u32,
) -> bool {
    forall|mid: u32| mid < count ==> #[trigger] milestones.contains_key((id, mid))
}

/// An escrow as callers see it: its header together with its milestones in order.
pub open spec fn state_of(
    milestones: Map<(u64, u32), MilestoneView>,
    id: u64,
    meta: EscrowMetaView,
) -> EscrowStateView {
    EscrowStateView {
        escrow_id: meta.escrow_id,
        client: meta.client,
        freelancer: meta.freelancer,
        token: meta.token,
        total_amount: meta.total_amount,
        remaining_balance: meta.remaining_balance,
        status: meta.status,
        milestones: Seq::new(meta.milestone_count as nat, |i: int| milestones[(id, i as u32)]),
        arbiter: meta.arbiter,
        buyer_signers: meta.buyer_signers,
        created_at: meta.created_at,
        deadline: meta.deadline,
        lock_time: meta.lock_time,
        lock_time_extension: meta.lock_time_extension,
        timelock: meta.timelock,
        brief_hash: meta.brief_hash,
        multisig_approvers: if meta.multisig.approvers.len() > 0 {
            meta.multisig.approvers
        } else {
            meta.buyer_signers
        },
        multisig_weights: meta.multisig.weights,
        multisig_threshold: meta.multisig.threshold,
    }
}

/// The slash records of some escrows, of those that have one, in order.
pub open spec fn records_of(slashes: Map<u64, SlashRecordView>, ids: Seq<u64>) -> Seq<
    SlashRecordView,
>
    decreases ids.len(),
{
    if ids.len() == 0 {
        Seq::empty()
    } else {
        let before = records_of(slashes, ids.drop_last());
        if slashes.contains_key(ids.last()) {
            before.push(slashes[ids.last()])
        } else {
            before
        }
    }
}

impl Ledger {
    /// Why an escrow cannot be shown.
    pub open spec fn get_escrow_refusal(self, id: u64) -> Option<EscrowError> {
        if self.access_refusal(id) is Some {
            self.access_refusal(id)
        } else if !has_milestones(
            self.milestones,
            id,
            self.accessed_escrow(id).milestone_count,
        ) {
            Some(EscrowError::MilestoneNotFound)
        } else {
            None
        }
    }

    /// The first `count` milestones of escrow `id` are kept alive.
    pub open spec fn touching_milestones(self, id: u64, count: u32) -> Ledger
        decreases count,
    {
        if count == 0 {
            self
        } else {
            let last = (count - 1) as u32;
            self.touching_milestones(id, last).touching_milestone(id, last)
        }
    }

    /// The slash records of some escrows, of those that have one, are kept alive.
    pub open spec fn touching_slashes(self, ids: Seq<u64>) -> Ledger
        decreases ids.len(),
    {
        if ids.len() == 0 {
            self
        } else {
            let before = self.touching_slashes(ids.drop_last());
            if self.slashes.contains_key(ids.last()) {
                before.touching_slash(ids.last())
            } else {
                before
            }
        }
    }

    /// Why the reserve of an escrow cannot be topped up.
    pub open spec fn top_up_refusal(
        self,
        caller: Address,
        id: u64,
        additional_periods: u64,
    ) -> Option<EscrowError> {
        let meta = self.accessed_escrow(id);
        if self.admin is None {
            Some(EscrowError::NotInitialized)
        } else if self.is_paused() {
            Some(EscrowError::ContractPaused)
        } else if self.access_refusal(id) is Some {
            self.access_refusal(id)
        } else if caller != meta.client {
            Some(EscrowError::ClientOnly)
        } else if additional_periods > 0 && meta.rent_balance + self.top_up(
            id,
            additional_periods,
        ) > i128::MAX {
            Some(EscrowError::AmountMismatch)
        } else {
            None
        }
    }

    /// What some more periods of rent cost.
    pub open spec fn top_up(self, id: u64, additional_periods: u64) -> int {
        self.rent_due_per_period(self.accessed_escrow(id)) * additional_periods
    }

    /// The reserve of an escrow is topped up; nothing is paid for no periods.
    pub open spec fn top_up_done(
        self,
        caller: Address,
        id: u64,
        additional_periods: u64,
    ) -> Ledger {
        let meta = self.accessed_escrow(id);
        let top_up = self.top_up(id, additional_periods);
        let read = self.demanding(caller).touching_instance().accessing(id);
        if additional_periods == 0 {
            read
        } else {
            read.charging_reserve(meta.token, caller, top_up as i128).with_escrow(
                EscrowMetaView { rent_balance: (meta.rent_balance + top_up) as i128, ..meta },
            )
        }
    }
}

// ---------------------------------------------------------------------------
// The entry points
// ---------------------------------------------------------------------------

impl EscrowContract {
    /// An escrow together with its milestones.
    pub fn get_escrow(env: &mut Env, escrow_id: u64) -> (r: Result<EscrowState, EscrowError>)
        requires
            old(env)@.rent_in_range(escrow_id),
        ensures
            match old(env)@.get_escrow_refusal(escrow_id) {
                Some(e) => r == Err::<EscrowState, _>(e) && final(env)@ == old(env)@,
                None => {
                    let meta = old(env)@.accessed_escrow(escrow_id);
                    &&& r is Ok
                    &&& r->Ok_0@ == state_of(old(env)@.milestones, escrow_id, meta)
                    &&& final(env)@ == old(env)@.accessing(escrow_id).touching_milestones(
                        escrow_id,
                        meta.milestone_count,
                    )
                },
            },
    {
        let meta: EscrowMeta = ContractStorage::load_escrow_meta_with_rent(env, escrow_id)?;
        let ghost start = env@;
        let mut milestones: Vec<Milestone> = Vec::new();
        let mut mid: u32 = 0;
        while mid < meta.milestone_count
            invariant
                env@ == start,
                start == old(env)@,
                start.access_refusal(escrow_id) is None,
                meta@ == start.accessed_escrow(escrow_id),
                mid <= meta.milestone_count,
                milestones.len() == mid,
                has_milestones(start.milestones, escrow_id, mid),
                forall|i: int|
                    0 <= i < mid ==> (#[trigger] milestones@[i])@ == start.milestones[(
                        escrow_id,
                        i as u32,
                    )],
            decreases meta.milestone_count - mid,
        {
            let loaded: Result<Milestone, EscrowError> = ContractStorage::load_milestone(
                env,
                escrow_id,
                mid,
            );
            match loaded {
                Ok(milestone) => {
                    milestones.push(milestone);
                },
                Err(e) => {
                    assert(!start.milestones.contains_key((escrow_id, mid)));
                    return Err(e);
                },
            }
            mid = mid + 1;
        }

        ContractStorage::settle_rent_for_access(env, escrow_id);
        let ghost read = env@;
        mid = 0;
        while mid < meta.milestone_count
            invariant
                mid <= meta.milestone_count,
                env@ == read.touching_milestones(escrow_id, mid),
            decreases meta.milestone_count - mid,
        {
            env.touch(EntryKey::Packed(PackedDataKey::Milestone(escrow_id, mid)));
            mid = mid + 1;
        }
        let state: EscrowState = EscrowState {
            escrow_id: meta.escrow_id,
            client: meta.client,
            freelancer: meta.freelancer,
            token: meta.token,
            total_amount: meta.total_amount,
            remaining_balance: meta.remaining_balance,
            status: meta.status,
            milestones,
            arbiter: meta.arbiter,
            buyer_signers: copy_list(&meta.buyer_signers),
            created_at: meta.created_at,
            deadline: meta.deadline,
            lock_time: meta.lock_time,
            lock_time_extension: meta.lock_time_extension,
            timelock: meta.timelock,
            brief_hash: meta.brief_hash,
            multisig_approvers: if meta.multisig.approvers.len() > 0 {
                copy_list(&meta.multisig.approvers)
            } else {
                copy_list(&meta.buyer_signers)
            },
            multisig_weights: copy_list(&meta.multisig.weights),
            multisig_threshold: meta.multisig.threshold,
        };
        assert(state@ =~= state_of(start.milestones, escrow_id, meta@));
        Ok(state)
    }

    /// Collects the rent of an escrow, pays it to the admin and says how much it was. An escrow
    /// whose reserve has run out is wound up. Anyone may call this.
    pub fn collect_rent(env: &mut Env, escrow_id: u64) -> (r: Result<i128, EscrowError>)
        requires
            old(env)@.collect_in_range(escrow_id),
        ensures
            match old(env)@.collect_refusal(escrow_id) {
                Some(e) => r == Err::<i128, _>(e) && final(env)@ == old(env)@,
                None => {
                    let meta = old(env)@.escrows[escrow_id];
                    &&& r is Ok
                    &&& r->Ok_0 == (if old(env)@.rent_periods(meta) == 0 {
                        0
                    } else {
                        old(env)@.rent_collectable(meta)
                    })
                    &&& final(env)@ == old(env)@.collected(escrow_id)
                },
            },
    {
        ContractStorage::collect_rent(env, escrow_id)
    }

    /// The client pays rent for some more periods, and is told how much it was.
    pub fn top_up_rent(
        env: &mut Env,
        caller: Address,
        escrow_id: u64,
        additional_periods: u64,
    ) -> (r: Result<i128, EscrowError>)
        requires
            old(env)@.rent_in_range(escrow_id),
        ensures
            match old(env)@.top_up_refusal(caller, escrow_id, additional_periods) {
                Some(e) => r == Err::<i128, _>(e) && final(env)@ == old(env)@.demanding(caller),
                None => r is Ok && r->Ok_0 == old(env)@.top_up(escrow_id, additional_periods)
                    && final(env)@ == old(env)@.top_up_done(
                    caller,
                    escrow_id,
                    additional_periods,
                ),
            },
    {
        env.require_auth(&caller);
        ContractStorage::require_initialized(env)?;
        ContractStorage::require_not_paused(env)?;
        let mut meta: EscrowMeta = ContractStorage::load_escrow_meta_with_rent(env, escrow_id)?;
        if !caller.same(&meta.client) {
            return Err(EscrowError::ClientOnly);
        }
        let rate: i128 = ContractStorage::rent_due_per_period(env, &meta);
        let ghost cost = rate * additional_periods;
        assert(0 <= cost <= 0x2_0000_0000 * 0x1_0000_0000_0000_0000) by (nonlinear_arith)
            requires
                cost == rate * additional_periods,
                0 <= rate <= 0x2_0000_0000,
                0 <= additional_periods <= 0x1_0000_0000_0000_0000,
        ;
        if additional_periods == 0 {
            assert(cost == 0) by (nonlinear_arith)
                requires
                    cost == rate * additional_periods,
                    additional_periods == 0,
            ;
            env.touch_instance();
            ContractStorage::settle_rent_for_access(env, escrow_id);
            return Ok(0);
        }
        let top_up: i128 = rate * (additional_periods as i128);
        let rent_balance: i128 = match meta.rent_balance.checked_add(top_up) {
            Some(sum) => sum,
            None => {
                return Err(EscrowError::AmountMismatch);
            },
        };

        env.touch_instance();
        ContractStorage::settle_rent_for_access(env, escrow_id);
        ContractStorage::charge_rent_reserve(env, &meta.token, &caller, top_up);
        meta.rent_balance = rent_balance;
        ContractStorage::save_escrow_meta(env, meta);
        Ok(top_up)
    }

    /// The reputation of a user; an empty record where none is kept.
    pub fn get_reputation(env: &mut Env, address: Address) -> (r: Result<
        ReputationRecord,
        EscrowError,
    >)
        ensures
            r == Ok::<_, EscrowError>(old(env)@.reputation_of(address)),
            final(env)@ == old(env)@.touching_reputation(address),
    {
        let record: ReputationRecord = ContractStorage::load_reputation(env, &address);
        ContractStorage::touch_reputation(env, &address);
        Ok(record)
    }

    /// The schedule of a recurring escrow.
    pub fn get_recurring_config(env: &mut Env, escrow_id: u64) -> (r: Result<
        RecurringPaymentConfig,
        EscrowError,
    >)
        requires
            old(env)@.rent_in_range(escrow_id),
        ensures
            match old(env)@.access_refusal(escrow_id) {
                Some(e) => r == Err::<RecurringPaymentConfig, _>(e) && final(env)@ == old(env)@,
                None => if old(env)@.recurring.contains_key(escrow_id) {
                    &&& r == Ok::<_, EscrowError>(old(env)@.recurring[escrow_id])
                    &&& final(env)@ == old(env)@.accessing(escrow_id).touching_recurring(escrow_id)
                } else {
                    &&& r == Err::<RecurringPaymentConfig, _>(
                        EscrowError::RecurringConfigNotFound,
                    )
                    &&& final(env)@ == old(env)@
                },
            },
    {
        let _live: EscrowMeta = ContractStorage::load_escrow_meta_with_rent(env, escrow_id)?;
        let config: RecurringPaymentConfig = ContractStorage::load_recurring_config(
            env,
            escrow_id,
        )?;
        ContractStorage::settle_rent_for_access(env, escrow_id);
        env.touch(EntryKey::Packed(PackedDataKey::RecurringConfig(escrow_id)));
        Ok(config)
    }

    /// The number of escrows created so far.
    pub fn escrow_count(env: &mut Env) -> (r: u64)
        ensures
            r == old(env)@.next_escrow_id(),
            final(env)@ == (if old(env)@.admin is Some {
                old(env)@.touching_instance()
            } else {
                old(env)@
            }),
    {
        let count: u64 = ContractStorage::escrow_number(env);
        if env.admin.is_some() {
            env.touch_instance();
        }
        count
    }

    /// One milestone of an escrow.
    pub fn get_milestone(env: &mut Env, escrow_id: u64, milestone_id: u32) -> (r: Result<
        Milestone,
        EscrowError,
    >)
        requires
            old(env)@.rent_in_range(escrow_id),
        ensures
            match old(env)@.access_refusal(escrow_id) {
                Some(e) => r == Err::<Milestone, _>(e) && final(env)@ == old(env)@,
                None => if old(env)@.milestones.contains_key((escrow_id, milestone_id)) {
                    &&& r is Ok
                    &&& r->Ok_0@ == old(env)@.milestones[(escrow_id, milestone_id)]
                    &&& final(env)@ == old(env)@.accessing(escrow_id).touching_milestone(
                        escrow_id,
                        milestone_id,
                    )
                } else {
                    &&& r == Err::<Milestone, _>(EscrowError::MilestoneNotFound)
                    &&& final(env)@ == old(env)@
                },
            },
    {
        let _live: EscrowMeta = ContractStorage::load_escrow_meta_with_rent(env, escrow_id)?;
        let milestone: Milestone = ContractStorage::load_milestone(env, escrow_id, milestone_id)?;
        ContractStorage::settle_rent_for_access(env, escrow_id);
        env.touch(EntryKey::Packed(PackedDataKey::Milestone(escrow_id, milestone_id)));
        Ok(milestone)
    }

    /// The request to cancel an escrow.
    pub fn get_cancellation_request(env: &mut Env, escrow_id: u64) -> (r: Result<
        CancellationRequest,
        EscrowError,
    >)
        requires
            old(env)@.rent_in_range(escrow_id),
        ensures
            match old(env)@.access_refusal(escrow_id) {
                Some(e) => r == Err::<CancellationRequest, _>(e) && final(env)@ == old(env)@,
                None => if old(env)@.cancellations.contains_key(escrow_id) {
                    &&& r is Ok
                    &&& r->Ok_0@ == old(env)@.cancellations[escrow_id]
                    &&& final(env)@ == old(env)@.accessing(escrow_id).touching_cancellation(
                        escrow_id,
                    )
                } else {
                    &&& r == Err::<CancellationRequest, _>(EscrowError::CancellationNotFound)
                    &&& final(env)@ == old(env)@
                },
            },
    {
        let _live: EscrowMeta = ContractStorage::load_escrow_meta_with_rent(env, escrow_id)?;
        let request: CancellationRequest = ContractStorage::load_cancellation_request(
            env,
            escrow_id,
        )?;
        ContractStorage::settle_rent_for_access(env, escrow_id);
        env.touch(EntryKey::Data(DataKey::CancellationRequest(escrow_id)));
        Ok(request)
    }

    /// The slash that an escrow's cancellation brought.
    pub fn get_slash_record(env: &mut Env, escrow_id: u64) -> (r: Result<SlashRecord, EscrowError>)
        requires
            old(env)@.rent_in_range(escrow_id),
        ensures
            match old(env)@.access_refusal(escrow_id) {
                Some(e) => r == Err::<SlashRecord, _>(e) && final(env)@ == old(env)@,
                None => if old(env)@.slashes.contains_key(escrow_id) {
                    &&& r is Ok
                    &&& r->Ok_0@ == old(env)@.slashes[escrow_id]
                    &&& final(env)@ == old(env)@.accessing(escrow_id).touching_slash(escrow_id)
                } else {
                    &&& r == Err::<SlashRecord, _>(EscrowError::SlashNotFound)
                    &&& final(env)@ == old(env)@
                },
            },
    {
        let _live: EscrowMeta = ContractStorage::load_escrow_meta_with_rent(env, escrow_id)?;
        let record: SlashRecord = ContractStorage::load_slash_record(env, escrow_id)?;
        ContractStorage::settle_rent_for_access(env, escrow_id);
        env.touch(EntryKey::Data(DataKey::SlashRecord(escrow_id)));
        Ok(record)
    }

    /// The escrows that are listed under a participant, `limit` of them after the first
    /// `offset`, and never more than fifty.
    pub fn get_escrow_ids_by_participant(
        env: &Env,
        participant: Address,
        offset: u32,
        limit: u32,
    ) -> (r: Vec<u64>)
        ensures
            r@ == crate::index::page_of(
                crate::ledger::list_at(env@.by_participant, participant),
                offset,
                limit,
            ),
    {
        page(&ids_at(&env.by_participant, &participant), offset, limit)
    }

    /// The escrows that are listed under a status, `limit` of them after the first `offset`,
    /// and never more than fifty.
    pub fn get_escrow_ids_by_status(
        env: &Env,
        status: EscrowStatus,
        offset: u32,
        limit: u32,
    ) -> (r: Vec<u64>)
        ensures
            r@ == crate::index::page_of(
                crate::ledger::list_at(env@.by_status, status),
                offset,
                limit,
            ),
    {
        page(&ids_at(&env.by_status, &status), offset, limit)
    }

    /// The escrows whose cancellation `requester` asked for.
    pub fn list_cancellations_by_requester(env: &Env, requester: Address) -> (r: Vec<u64>)
        ensures
            r@ == crate::ledger::list_at(env@.cancellations_by_requester, requester),
    {
        ids_at(&env.cancellations_by_requester, &requester)
    }

    /// The records of the slashes that a user still suffers.
    pub fn get_slash_records_by_address(env: &mut Env, slashed_user: Address) -> (r: Vec<
        SlashRecord,
    >)
        ensures
            r@.map_values(|s: SlashRecord| s@) == records_of(
                old(env)@.slashes,
                crate::ledger::list_at(old(env)@.slashes_by_address, slashed_user),
            ),
            final(env)@ == old(env)@.touching_slashes(
                crate::ledger::list_at(old(env)@.slashes_by_address, slashed_user),
            ),
    {
        let ids: Vec<u64> = ids_at(&env.slashes_by_address, &slashed_user);
        let mut records: Vec<SlashRecord> = Vec::new();
        let mut i: usize = 0;
        assert(ids@.take(0) =~= Seq::empty());
        assert(records@.map_values(|s: SlashRecord| s@) =~= Seq::empty());
        while i < ids.len()
            invariant
                i <= ids.len(),
                env@.slashes == old(env)@.slashes,
                records@.map_values(|s: SlashRecord| s@) == records_of(
                    old(env)@.slashes,
                    ids@.take(i as int),
                ),
                env@ == old(env)@.touching_slashes(ids@.take(i as int)),
            decreases ids.len() - i,
        {
            let escrow_id: u64 = ids[i];
            assert(ids@.take(i + 1).drop_last() =~= ids@.take(i as int));
            let loaded: Result<SlashRecord, EscrowError> = ContractStorage::load_slash_record(
                env,
                escrow_id,
            );
            let ghost before = records@;
            if let Ok(record) = loaded {
                records.push(record);
                assert(records@.map_values(|s: SlashRecord| s@) =~= before.map_values(
                    |s: SlashRecord| s@,
                ).push(record@));
                env.touch(EntryKey::Data(DataKey::SlashRecord(escrow_id)));
            }
            i = i + 1;
        }
        assert(ids@.take(i as int) =~= ids@);
        records
    }
}

} // verus!
