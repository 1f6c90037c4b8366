//! Cancelling escrows, and the slash that a cancellation costs the one who asked for it.
use vstd::prelude::*;

use crate::contract::EscrowContract;
use crate::errors::EscrowError;
use crate::index::{append_to_vec_index, remove_from_vec_index};
use crate::ledger::{EntryKey, Env, Event, Ledger};
use crate::reputation::divide;
use crate::storage::ContractStorage;
use crate::types::{
    copy_list, Address, CancellationRequest, CancellationRequestView, DataKey, EscrowMeta,
    EscrowMetaView, EscrowStatus, PackedDataKey, ReputationRecord, SlashRecord, SlashRecordView,
    Text,
};

verus! {

/// How long a cancellation request can be disputed, in seconds.
pub const CANCELLATION_DISPUTE_PERIOD: u64 = 120_960;

/// How long a slash can be disputed, in seconds.
pub const SLASH_DISPUTE_PERIOD: u64 = 51_840;

/// The part of the remaining balance that a cancellation costs, in percent.
pub const SLASH_PERCENTAGE: u64 = 10;

// ---------------------------------------------------------------------------
// The model
// ---------------------------------------------------------------------------

/// The slash on a balance, rounded toward zero.
pub open spec fn slash_amount(balance: i128) -> int {
    crate::reputation::quotient(balance * SLASH_PERCENTAGE, 100)
}

/// The reason of the slash that a cancellation brings: the letters of "Escrow cancellation".
pub open spec fn cancellation_reason() -> Seq<u8> {
    seq![
        0x45u8, 0x73, 0x63, 0x72, 0x6f, 0x77, 0x20, 0x63, 0x61, 0x6e, 0x63, 0x65, 0x6c, 0x6c,
        0x61, 0x74, 0x69, 0x6f, 0x6e,
    ]
}

/// Who receives the slash: the party that did not ask for the cancellation.
pub open spec fn slash_recipient(meta: EscrowMetaView, requester: Address) -> Address {
    if requester == meta.client {
        meta.freelancer
    } else {
        meta.client
    }
}

/// A reputation after a slash of `amount` at `now`.
pub open spec fn slashed(record: ReputationRecord, amount: i128, now: u64) -> ReputationRecord {
    ReputationRecord {
        total_score: crate::reputation::clamped_score(record.total_score - 10),
        slash_count: (record.slash_count + 1) as u32,
        total_slashed: (record.total_slashed + amount) as i128,
        last_updated: now,
        ..record
    }
}

/// A reputation after a slash of `amount` was reversed at `now`.
pub open spec fn unslashed(record: ReputationRecord, amount: i128, now: u64) -> ReputationRecord {
    ReputationRecord {
        slash_count: crate::milestones::one_less(record.slash_count),
        total_slashed: crate::reputation::clamped(record.total_slashed - amount),
        total_score: crate::reputation::clamped_score(record.total_score + 10),
        last_updated: now,
        ..record
    }
}

impl Ledger {
    /// Why the client cannot cancel an escrow outright: among other things, because a milestone
    /// is submitted, or approved and not yet released.
    pub open spec fn cancel_escrow_refusal(self, caller: Address, id: u64) -> Option<EscrowError> {
        let meta = self.accessed_escrow(id);
        if self.is_paused() {
            Some(EscrowError::ContractPaused)
        } else if self.access_refusal(id) is Some {
            self.access_refusal(id)
        } else if caller != meta.client {
            Some(EscrowError::ClientOnly)
        } else if meta.status != EscrowStatus::Active {
            Some(EscrowError::EscrowNotActive)
        } else if meta.submitted_count > 0 || meta.approved_count > meta.released_count {
            Some(EscrowError::CannotCancelWithPendingFunds)
        } else {
            None
        }
    }

    /// An escrow is cancelled outright, and the client gets the remaining balance back.
    pub open spec fn cancel_escrow_done(self, caller: Address, id: u64) -> Ledger {
        let meta = self.accessed_escrow(id);
        self.demanding(caller).accessing(id).transferring(
            meta.token,
            self.contract,
            meta.client,
            meta.remaining_balance,
        ).with_escrow(
            EscrowMetaView { remaining_balance: 0, status: EscrowStatus::Cancelled, ..meta },
        ).relisting(EscrowStatus::Active, EscrowStatus::Cancelled, id).publishing(
            Event::EscrowCancelled { escrow_id: id, returned: meta.remaining_balance },
        )
    }

    /// Why `caller` cannot ask for the cancellation of an escrow.
    pub open spec fn requester_refusal(self, caller: Address, id: u64) -> Option<EscrowError> {
        let meta = self.accessed_escrow(id);
        if self.admin is None {
            Some(EscrowError::NotInitialized)
        } else if self.is_paused() {
            Some(EscrowError::ContractPaused)
        } else if self.access_refusal(id) is Some {
            self.access_refusal(id)
        } else if !crate::disputes::is_party(meta, caller) {
            Some(EscrowError::Unauthorized)
        } else if meta.status != EscrowStatus::Active {
            Some(EscrowError::EscrowNotActive)
        } else if self.cancellations.contains_key(id) {
            Some(EscrowError::CancellationAlreadyExists)
        } else {
            None
        }
    }

    /// Why a cancellation cannot be requested.
    pub open spec fn request_cancellation_refusal(self, caller: Address, id: u64) -> Option<
        EscrowError,
    > {
        if self.requester_refusal(caller, id) is Some {
            self.requester_refusal(caller, id)
        } else {
            self.entry_rent_refusal(self.accessed_escrow(id), 1)
        }
    }

    /// A cancellation is requested, and the requester pays for the storage of the request.
    pub open spec fn request_cancellation_done(
        self,
        caller: Address,
        id: u64,
        reason: Seq<u8>,
    ) -> Ledger {
        let meta = self.accessed_escrow(id);
        let reserve = crate::rent::reserve_for(1);
        let deadline = (self.now + CANCELLATION_DISPUTE_PERIOD) as u64;
        let stored = self.demanding(caller).touching_instance().accessing(id).charging_reserve(
            meta.token,
            caller,
            reserve as i128,
        ).with_cancellation(
            CancellationRequestView {
                escrow_id: id,
                requester: caller,
                reason,
                requested_at: self.now,
                dispute_deadline: deadline,
                disputed: false,
            },
        );
        Ledger {
            cancellations_by_requester: crate::ledger::index_added(
                stored.cancellations_by_requester,
                caller,
                id,
            ),
            ..stored
        }.with_escrow(
            EscrowMetaView {
                rent_balance: (meta.rent_balance + reserve) as i128,
                status: EscrowStatus::CancellationPending,
                ..meta
            },
        ).relisting(EscrowStatus::Active, EscrowStatus::CancellationPending, id).publishing(
            Event::CancellationRequested { escrow_id: id, requester: caller, reason, deadline },
        )
    }

    /// Why a requested cancellation cannot be executed.
    pub open spec fn execute_cancellation_refusal(self, id: u64) -> Option<EscrowError> {
        if self.admin is None {
            Some(EscrowError::NotInitialized)
        } else if self.is_paused() {
            Some(EscrowError::ContractPaused)
        } else if self.access_refusal(id) is Some {
            self.access_refusal(id)
        } else if !self.cancellations.contains_key(id) {
            Some(EscrowError::CancellationNotFound)
        } else if self.now < self.cancellations[id].dispute_deadline {
            Some(EscrowError::CancellationDisputePeriodActive)
        } else if self.cancellations[id].disputed {
            Some(EscrowError::CancellationDisputed)
        } else {
            None
        }
    }

    /// The slash can be computed, and the requester's reputation has room for it.
    pub open spec fn execution_in_range(self, id: u64) -> bool {
        let balance = self.accessed_escrow(id).remaining_balance;
        let record = self.reputation_of(self.cancellations[id].requester);
        self.execute_cancellation_refusal(id) is None ==> {
            &&& crate::recurring::is_amount(balance * SLASH_PERCENTAGE)
            &&& record.slash_count < u32::MAX
            &&& crate::recurring::is_amount(record.total_slashed + slash_amount(balance))
        }
    }

    /// A user is slashed: the slash shows in their reputation and is held by the contract.
    pub open spec fn applying_slash(
        self,
        slashed_user: Address,
        recipient: Address,
        amount: i128,
        reason: Seq<u8>,
        id: u64,
    ) -> Ledger {
        let stored = self.touching_reputation(slashed_user).with_reputation(
            slashed(self.reputation_of(slashed_user), amount, self.now),
        ).with_slash(
            SlashRecordView {
                escrow_id: id,
                slashed_user,
                recipient,
                amount,
                reason,
                slashed_at: self.now,
                disputed: false,
            },
        );
        Ledger {
            slashes_by_address: crate::ledger::index_added(
                stored.slashes_by_address,
                slashed_user,
                id,
            ),
            ..stored
        }.publishing(
            Event::SlashApplied { escrow_id: id, slashed_user, recipient, amount, reason },
        )
    }

    /// A requested cancellation is executed: the requester gets the remaining balance back less
    /// the slash, which the contract holds for the other party.
    pub open spec fn execute_cancellation_done(self, id: u64) -> Ledger {
        let meta = self.accessed_escrow(id);
        let requester = self.cancellations[id].requester;
        let slash = slash_amount(meta.remaining_balance) as i128;
        let returned = (meta.remaining_balance - slash) as i128;
        let held = self.touching_instance().accessing(id).touching_cancellation(
            id,
        ).applying_slash(
            requester,
            slash_recipient(meta, requester),
            slash,
            cancellation_reason(),
            id,
        );
        let paid = if returned > 0 {
            held.transferring(meta.token, self.contract, requester, returned)
        } else {
            held
        };
        let stored = paid.with_escrow(
            EscrowMetaView { status: EscrowStatus::Cancelled, remaining_balance: 0, ..meta },
        );
        Ledger {
            cancellations_by_requester: crate::ledger::index_dropped(
                stored.cancellations_by_requester,
                requester,
                id,
            ),
            cancellations: stored.cancellations.remove(id),
            ..stored
        }.relisting(
            meta.status,
            EscrowStatus::Cancelled,
            id,
        ).publishing(Event::CancellationExecuted { escrow_id: id, returned, slashed: slash })
    }

    /// Why a cancellation request cannot be disputed.
    pub open spec fn dispute_cancellation_refusal(self, caller: Address, id: u64) -> Option<
        EscrowError,
    > {
        let request = self.cancellations[id];
        if self.admin is None {
            Some(EscrowError::NotInitialized)
        } else if self.is_paused() {
            Some(EscrowError::ContractPaused)
        } else if self.access_refusal(id) is Some {
            self.access_refusal(id)
        } else if !self.cancellations.contains_key(id) {
            Some(EscrowError::CancellationNotFound)
        } else if caller == request.requester || !crate::disputes::is_party(
            self.accessed_escrow(id),
            caller,
        ) {
            Some(EscrowError::Unauthorized)
        } else if request.disputed {
            Some(EscrowError::CancellationAlreadyDisputed)
        } else if self.now >= request.dispute_deadline {
            Some(EscrowError::CancellationDisputeDeadlineExpired)
        } else {
            None
        }
    }

    /// A cancellation request is disputed, and with it the escrow.
    pub open spec fn dispute_cancellation_done(self, caller: Address, id: u64) -> Ledger {
        let meta = self.accessed_escrow(id);
        self.demanding(caller).touching_instance().accessing(id).touching_cancellation(
            id,
        ).with_cancellation(
            CancellationRequestView { disputed: true, ..self.cancellations[id] },
        ).with_escrow(
            EscrowMetaView {
                status: EscrowStatus::Disputed,
                dispute_start_ledger: Some(self.now),
                ..meta
            },
        ).relisting(
            meta.status,
            EscrowStatus::Disputed,
            id,
        ).publishing(Event::DisputeRaised { escrow_id: id, by: caller })
    }

    /// Why a slash cannot be finalized, whatever the time.
    pub open spec fn finalizer_refusal(self, id: u64) -> Option<EscrowError> {
        if self.admin is None {
            Some(EscrowError::NotInitialized)
        } else if self.is_paused() {
            Some(EscrowError::ContractPaused)
        } else if !self.slashes.contains_key(id) {
            Some(EscrowError::SlashNotFound)
        } else if self.slashes[id].disputed {
            Some(EscrowError::SlashAlreadyDisputed)
        } else {
            None
        }
    }

    /// Why a slash cannot be finalized.
    pub open spec fn finalize_slash_refusal(self, id: u64) -> Option<EscrowError> {
        if self.finalizer_refusal(id) is Some {
            self.finalizer_refusal(id)
        } else if self.now < self.slashes[id].slashed_at + SLASH_DISPUTE_PERIOD {
            Some(EscrowError::SlashDisputeDeadlineExpired)
        } else if !self.escrows.contains_key(id) {
            Some(EscrowError::EscrowNotFound)
        } else {
            None
        }
    }

    /// A held slash goes to its recipient.
    pub open spec fn finalize_slash_done(self, id: u64) -> Ledger {
        let record = self.slashes[id];
        let paid = self.touching_instance().touching_slash(id).touching_escrow(id).transferring(
            self.escrows[id].token,
            self.contract,
            record.recipient,
            record.amount,
        );
        Ledger { slashes: paid.slashes.remove(id), ..paid }.publishing(
            Event::SlashApplied {
                escrow_id: id,
                slashed_user: record.slashed_user,
                recipient: record.recipient,
                amount: record.amount,
                reason: record.reason,
            },
        )
    }

    /// Why `caller` cannot dispute a slash, whatever the time.
    pub open spec fn disputer_refusal(self, caller: Address, id: u64) -> Option<EscrowError> {
        if self.is_paused() {
            Some(EscrowError::ContractPaused)
        } else if self.access_refusal(id) is Some {
            self.access_refusal(id)
        } else if !self.slashes.contains_key(id) {
            Some(EscrowError::SlashNotFound)
        } else if caller != self.slashes[id].slashed_user {
            Some(EscrowError::Unauthorized)
        } else if self.slashes[id].disputed {
            Some(EscrowError::SlashAlreadyDisputed)
        } else {
            None
        }
    }

    /// Why a slash cannot be disputed.
    pub open spec fn dispute_slash_refusal(self, caller: Address, id: u64) -> Option<EscrowError> {
        if self.disputer_refusal(caller, id) is Some {
            self.disputer_refusal(caller, id)
        } else if self.now >= self.slashes[id].slashed_at + SLASH_DISPUTE_PERIOD {
            Some(EscrowError::SlashDisputeDeadlineExpired)
        } else {
            None
        }
    }

    /// A slash is disputed.
    pub open spec fn dispute_slash_done(self, caller: Address, id: u64) -> Ledger {
        let record = self.slashes[id];
        self.demanding(caller).accessing(id).touching_slash(id).with_slash(
            SlashRecordView { disputed: true, ..record },
        ).publishing(Event::SlashDisputed { escrow_id: id, by: caller, amount: record.amount })
    }

    /// Why a dispute over a slash cannot be resolved.
    pub open spec fn resolve_slash_refusal(self, caller: Address, id: u64) -> Option<EscrowError> {
        let meta = self.accessed_escrow(id);
        if self.is_paused() {
            Some(EscrowError::ContractPaused)
        } else if !self.slashes.contains_key(id) {
            Some(EscrowError::SlashNotFound)
        } else if self.access_refusal(id) is Some {
            self.access_refusal(id)
        } else if self.judge_refusal(meta, caller) is Some {
            self.judge_refusal(meta, caller)
        } else if !self.slashes[id].disputed {
            Some(EscrowError::SlashNotFound)
        } else {
            None
        }
    }

    /// A slash is reversed: the slashed user gets the amount and their standing back.
    pub open spec fn reversing_slash(self, meta: EscrowMetaView, record: SlashRecordView) -> Ledger {
        self.transferring(
            meta.token,
            self.contract,
            record.slashed_user,
            record.amount,
        ).touching_reputation(record.slashed_user).with_reputation(
            unslashed(self.reputation_of(record.slashed_user), record.amount, self.now),
        )
    }

    /// A dispute over a slash is resolved: the slash remains and goes to its recipient, or is
    /// reversed. Either way the record of it goes.
    pub open spec fn resolve_slash_done(self, caller: Address, id: u64, upheld: bool) -> Ledger {
        let meta = self.accessed_escrow(id);
        let record = self.slashes[id];
        let read = self.demanding(caller).touching_slash(id).accessing(id).touching_for_judge(
            meta,
            caller,
        );
        let settled = if upheld {
            read.transferring(meta.token, self.contract, record.recipient, record.amount)
        } else {
            read.reversing_slash(meta, record)
        };
        let announced = settled.publishing(
            Event::SlashDisputeResolved { escrow_id: id, upheld, amount: record.amount },
        );
        Ledger { slashes: announced.slashes.remove(id), ..announced }
    }
}

/// The slash lies between nothing and the balance.
pub proof fn lemma_slash_amount(balance: i128)
    ensures
        balance >= 0 ==> 0 <= slash_amount(balance) <= balance,
        balance <= 0 ==> balance <= slash_amount(balance) <= 0,
{
}

// ---------------------------------------------------------------------------
// The entry points
// ---------------------------------------------------------------------------

/// The reason of the slash that a cancellation brings.
fn reason_of_slash() -> (r: Text)
    ensures
        r@ == cancellation_reason(),
{
    let reason: Text = vec![
        0x45, 0x73, 0x63, 0x72, 0x6f, 0x77, 0x20, 0x63, 0x61, 0x6e, 0x63, 0x65, 0x6c, 0x6c, 0x61,
        0x74, 0x69, 0x6f, 0x6e,
    ];
    assert(reason@ =~= cancellation_reason());
    reason
}

impl EscrowContract {
    /// The client cancels an escrow and gets the remaining balance back.
    pub fn cancel_escrow(env: &mut Env, caller: Address, escrow_id: u64) -> (r: Result<
        (),
        EscrowError,
    >)
        requires
            old(env)@.rent_in_range(escrow_id),
        ensures
            match old(env)@.cancel_escrow_refusal(caller, escrow_id) {
                Some(e) => r == Err::<(), _>(e) && final(env)@ == old(env)@.demanding(caller),
                None => r == Ok::<_, EscrowError>(()) && final(env)@
                    == old(env)@.cancel_escrow_done(caller, escrow_id),
            },
    {
        env.require_auth(&caller);
        ContractStorage::require_not_paused(env)?;
        let mut meta: EscrowMeta = ContractStorage::load_escrow_meta_with_rent(env, escrow_id)?;
        if !caller.same(&meta.client) {
            return Err(EscrowError::ClientOnly);
        }
        if meta.status != EscrowStatus::Active {
            return Err(EscrowError::EscrowNotActive);
        }
        if meta.submitted_count > 0 || meta.approved_count > meta.released_count {
            return Err(EscrowError::CannotCancelWithPendingFunds);
        }

        ContractStorage::settle_rent_for_access(env, escrow_id);
        let returned: i128 = meta.remaining_balance;
        let contract: Address = env.contract;
        env.transfer(&meta.token, &contract, &meta.client, returned);
        meta.remaining_balance = 0;
        meta.status = EscrowStatus::Cancelled;
        ContractStorage::save_escrow_meta(env, meta);
        ContractStorage::relist(env, EscrowStatus::Active, EscrowStatus::Cancelled, escrow_id);
        env.publish(Event::EscrowCancelled { escrow_id, returned });
        Ok(())
    }

    /// The client or the freelancer asks for the cancellation of an escrow, which starts a
    /// period in which the other party can dispute it.
    pub fn request_cancellation(
        env: &mut Env,
        caller: Address,
        escrow_id: u64,
        reason: Text,
    ) -> (r: Result<(), EscrowError>)
        requires
            old(env)@.rent_in_range(escrow_id),
            old(env)@.requester_refusal(caller, escrow_id) is None ==> old(env)@.now
                + CANCELLATION_DISPUTE_PERIOD <= u64::MAX,
        ensures
            match old(env)@.request_cancellation_refusal(caller, escrow_id) {
                Some(e) => r == Err::<(), _>(e) && final(env)@ == old(env)@.demanding(caller),
                None => r == Ok::<_, EscrowError>(()) && final(env)@
                    == old(env)@.request_cancellation_done(caller, escrow_id, reason@),
            },
    {
        env.require_auth(&caller);
        let mut meta: EscrowMeta = Self::check_requester(env, &caller, escrow_id)?;
        let now: u64 = env.timestamp;
        let dispute_deadline: u64 = now + CANCELLATION_DISPUTE_PERIOD;
        ContractStorage::check_entry_rent(&meta, 1)?;

        env.touch_instance();
        ContractStorage::settle_rent_for_access(env, escrow_id);
        ContractStorage::charge_entry_rent(env, &mut meta, &caller, 1);
        ContractStorage::save_cancellation_request(
            env,
            CancellationRequest {
                escrow_id,
                requester: caller,
                reason: copy_list(&reason),
                requested_at: now,
                dispute_deadline,
                disputed: false,
            },
        );
        append_to_vec_index(&mut env.cancellations_by_requester, caller, escrow_id);
        meta.status = EscrowStatus::CancellationPending;
        ContractStorage::save_escrow_meta(env, meta);
        ContractStorage::relist(
            env,
            EscrowStatus::Active,
            EscrowStatus::CancellationPending,
            escrow_id,
        );
        env.publish(
            Event::CancellationRequested {
                escrow_id,
                requester: caller,
                reason,
                deadline: dispute_deadline,
            },
        );
        Ok(())
    }

    /// Checks that `caller` can request a cancellation, and finds the escrow it is about.
    fn check_requester(env: &Env, caller: &Address, escrow_id: u64) -> (r: Result<
        EscrowMeta,
        EscrowError,
    >)
        requires
            env@.rent_in_range(escrow_id),
        ensures
            match env@.requester_refusal(*caller, escrow_id) {
                Some(e) => r == Err::<EscrowMeta, _>(e),
                None => r is Ok && r->Ok_0@ == env@.accessed_escrow(escrow_id),
            },
    {
        ContractStorage::require_initialized(env)?;
        ContractStorage::require_not_paused(env)?;
        let meta: EscrowMeta = ContractStorage::load_escrow_meta_with_rent(env, escrow_id)?;
        if !caller.same(&meta.client) && !caller.same(&meta.freelancer) {
            return Err(EscrowError::Unauthorized);
        }
        if meta.status != EscrowStatus::Active {
            return Err(EscrowError::EscrowNotActive);
        }
        if ContractStorage::load_cancellation_request(env, escrow_id).is_ok() {
            return Err(EscrowError::CancellationAlreadyExists);
        }
        Ok(meta)
    }

    /// Whether the dispute period of a cancellation can be dated, where it can be requested.
    pub fn request_in_range(env: &Env, caller: &Address, escrow_id: u64) -> (r: bool)
        requires
            env@.rent_in_range(escrow_id),
        ensures
            r == (env@.requester_refusal(*caller, escrow_id) is None ==> env@.now
                + CANCELLATION_DISPUTE_PERIOD <= u64::MAX),
    {
        env.timestamp <= u64::MAX - CANCELLATION_DISPUTE_PERIOD || Self::check_requester(
            env,
            caller,
            escrow_id,
        ).is_err()
    }

    /// The slash on a balance.
    pub fn calculate_slash_amount(remaining_balance: i128) -> (r: i128)
        requires
            i128::MIN <= remaining_balance * SLASH_PERCENTAGE <= i128::MAX,
        ensures
            r == slash_amount(remaining_balance),
    {
        divide(remaining_balance * (SLASH_PERCENTAGE as i128), 100)
    }

    /// Slashes a user.
    fn apply_slash(
        env: &mut Env,
        slashed_user: &Address,
        recipient: &Address,
        amount: i128,
        reason: &Text,
        escrow_id: u64,
    )
        requires
            old(env)@.reputation_of(*slashed_user).slash_count < u32::MAX,
            i128::MIN <= old(env)@.reputation_of(*slashed_user).total_slashed + amount
                <= i128::MAX,
        ensures
            final(env)@ == old(env)@.applying_slash(
                *slashed_user,
                *recipient,
                amount,
                reason@,
                escrow_id,
            ),
    {
        let mut reputation: ReputationRecord = ContractStorage::load_reputation(
            env,
            slashed_user,
        );
        ContractStorage::touch_reputation(env, slashed_user);
        reputation.total_score = reputation.total_score.saturating_sub(10);
        reputation.slash_count = reputation.slash_count + 1;
        reputation.total_slashed = reputation.total_slashed + amount;
        reputation.last_updated = env.timestamp;
        ContractStorage::save_reputation(env, reputation);
        let slashed_at: u64 = env.timestamp;
        ContractStorage::save_slash_record(
            env,
            SlashRecord {
                escrow_id,
                slashed_user: *slashed_user,
                recipient: *recipient,
                amount,
                reason: copy_list(reason),
                slashed_at,
                disputed: false,
            },
        );
        append_to_vec_index(&mut env.slashes_by_address, *slashed_user, escrow_id);
        env.publish(
            Event::SlashApplied {
                escrow_id,
                slashed_user: *slashed_user,
                recipient: *recipient,
                amount,
                reason: copy_list(reason),
            },
        );
    }

    /// The header of escrow `escrow_id` and the request to cancel it, where that can be
    /// executed.
    fn cancellable_escrow(env: &Env, escrow_id: u64) -> (r: Result<
        (EscrowMeta, CancellationRequest),
        EscrowError,
    >)
        requires
            env@.rent_in_range(escrow_id),
        ensures
            match env@.execute_cancellation_refusal(escrow_id) {
                Some(e) => r == Err::<(EscrowMeta, CancellationRequest), _>(e),
                None => r is Ok && r->Ok_0.0@ == env@.accessed_escrow(escrow_id) && r->Ok_0.1@
                    == env@.cancellations[escrow_id],
            },
    {
        ContractStorage::require_initialized(env)?;
        ContractStorage::require_not_paused(env)?;
        let meta: EscrowMeta = ContractStorage::load_escrow_meta_with_rent(env, escrow_id)?;
        let request: CancellationRequest = ContractStorage::load_cancellation_request(
            env,
            escrow_id,
        )?;
        if env.timestamp < request.dispute_deadline {
            return Err(EscrowError::CancellationDisputePeriodActive);
        }
        if request.disputed {
            return Err(EscrowError::CancellationDisputed);
        }
        Ok((meta, request))
    }

    /// Whether the slash can be computed, and the requester's reputation has room for it.
    pub fn execution_in_range(env: &Env, escrow_id: u64) -> (r: bool)
        requires
            env@.rent_in_range(escrow_id),
        ensures
            r == env@.execution_in_range(escrow_id),
    {
        match Self::cancellable_escrow(env, escrow_id) {
            Err(_) => true,
            Ok((meta, request)) => {
                let record: ReputationRecord = ContractStorage::load_reputation(
                    env,
                    &request.requester,
                );
                if meta.remaining_balance.checked_mul(SLASH_PERCENTAGE as i128).is_none()
                    || record.slash_count == u32::MAX {
                    return false;
                }
                let slash: i128 = Self::calculate_slash_amount(meta.remaining_balance);
                record.total_slashed.checked_add(slash).is_some()
            },
        }
    }

    /// Executes a requested cancellation once it can no longer be disputed. Anyone may call
    /// this. The slash stays in the contract until `finalize_slash` releases it or
    /// `resolve_slash_dispute` reverses it.
    pub fn execute_cancellation(env: &mut Env, escrow_id: u64) -> (r: Result<(), EscrowError>)
        requires
            old(env)@.rent_in_range(escrow_id),
            old(env)@.execution_in_range(escrow_id),
        ensures
            match old(env)@.execute_cancellation_refusal(escrow_id) {
                Some(e) => r == Err::<(), _>(e) && final(env)@ == old(env)@,
                None => r == Ok::<_, EscrowError>(()) && final(env)@
                    == old(env)@.execute_cancellation_done(escrow_id),
            },
    {
        let (mut meta, request): (EscrowMeta, CancellationRequest) = Self::cancellable_escrow(
            env,
            escrow_id,
        )?;
        proof {
            lemma_slash_amount(meta@.remaining_balance);
        }
        let slash_amount: i128 = Self::calculate_slash_amount(meta.remaining_balance);
        let client_amount: i128 = meta.remaining_balance - slash_amount;
        let slash_recipient: Address = if request.requester.same(&meta.client) {
            meta.freelancer
        } else {
            meta.client
        };

        env.touch_instance();
        ContractStorage::settle_rent_for_access(env, escrow_id);
        env.touch(EntryKey::Data(DataKey::CancellationRequest(escrow_id)));
        Self::apply_slash(
            env,
            &request.requester,
            &slash_recipient,
            slash_amount,
            &reason_of_slash(),
            escrow_id,
        );
        if client_amount > 0 {
            let contract: Address = env.contract;
            env.transfer(&meta.token, &contract, &request.requester, client_amount);
        }
        let from: EscrowStatus = meta.status;
        meta.status = EscrowStatus::Cancelled;
        meta.remaining_balance = 0;
        ContractStorage::save_escrow_meta(env, meta);
        remove_from_vec_index(
            &mut env.cancellations_by_requester,
            request.requester,
            escrow_id,
        );
        env.cancellations.remove(&escrow_id);
        ContractStorage::relist(env, from, EscrowStatus::Cancelled, escrow_id);
        env.publish(
            Event::CancellationExecuted {
                escrow_id,
                returned: client_amount,
                slashed: slash_amount,
            },
        );
        Ok(())
    }

    /// The party that did not ask for a cancellation disputes it.
    pub fn dispute_cancellation(env: &mut Env, caller: Address, escrow_id: u64) -> (r: Result<
        (),
        EscrowError,
    >)
        requires
            old(env)@.rent_in_range(escrow_id),
        ensures
            match old(env)@.dispute_cancellation_refusal(caller, escrow_id) {
                Some(e) => r == Err::<(), _>(e) && final(env)@ == old(env)@.demanding(caller),
                None => r == Ok::<_, EscrowError>(()) && final(env)@
                    == old(env)@.dispute_cancellation_done(caller, escrow_id),
            },
    {
        env.require_auth(&caller);
        ContractStorage::require_initialized(env)?;
        ContractStorage::require_not_paused(env)?;
        let mut meta: EscrowMeta = ContractStorage::load_escrow_meta_with_rent(env, escrow_id)?;
        let mut request: CancellationRequest = ContractStorage::load_cancellation_request(
            env,
            escrow_id,
        )?;
        if caller.same(&request.requester) {
            return Err(EscrowError::Unauthorized);
        }
        if !caller.same(&meta.client) && !caller.same(&meta.freelancer) {
            return Err(EscrowError::Unauthorized);
        }
        if request.disputed {
            return Err(EscrowError::CancellationAlreadyDisputed);
        }
        if env.timestamp >= request.dispute_deadline {
            return Err(EscrowError::CancellationDisputeDeadlineExpired);
        }

        env.touch_instance();
        ContractStorage::settle_rent_for_access(env, escrow_id);
        env.touch(EntryKey::Data(DataKey::CancellationRequest(escrow_id)));
        request.disputed = true;
        ContractStorage::save_cancellation_request(env, request);
        let from: EscrowStatus = meta.status;
        meta.status = EscrowStatus::Disputed;
        meta.dispute_start_ledger = Some(env.timestamp);
        ContractStorage::save_escrow_meta(env, meta);
        ContractStorage::relist(env, from, EscrowStatus::Disputed, escrow_id);
        env.publish(Event::DisputeRaised { escrow_id, by: caller });
        Ok(())
    }

    /// Checks that the slash of an escrow could be finalized at some time, and finds it.
    fn check_finalizer(env: &Env, escrow_id: u64) -> (r: Result<SlashRecord, EscrowError>)
        ensures
            match env@.finalizer_refusal(escrow_id) {
                Some(e) => r == Err::<SlashRecord, _>(e),
                None => r is Ok && r->Ok_0@ == env@.slashes[escrow_id],
            },
    {
        ContractStorage::require_initialized(env)?;
        ContractStorage::require_not_paused(env)?;
        let record: SlashRecord = ContractStorage::load_slash_record(env, escrow_id)?;
        if record.disputed {
            return Err(EscrowError::SlashAlreadyDisputed);
        }
        Ok(record)
    }

    /// Whether the dispute period of a slash can be dated, where the slash could be finalized.
    pub fn finalizing_in_range(env: &Env, escrow_id: u64) -> (r: bool)
        ensures
            r == (env@.finalizer_refusal(escrow_id) is None ==> env@.slashes[escrow_id].slashed_at
                + SLASH_DISPUTE_PERIOD <= u64::MAX),
    {
        match Self::check_finalizer(env, escrow_id) {
            Ok(record) => record.slashed_at <= u64::MAX - SLASH_DISPUTE_PERIOD,
            Err(_) => true,
        }
    }

    /// Checks that `caller` could dispute the slash of an escrow at some time, and finds it.
    fn check_disputer(env: &Env, caller: &Address, escrow_id: u64) -> (r: Result<
        SlashRecord,
        EscrowError,
    >)
        requires
            env@.rent_in_range(escrow_id),
        ensures
            match env@.disputer_refusal(*caller, escrow_id) {
                Some(e) => r == Err::<SlashRecord, _>(e),
                None => r is Ok && r->Ok_0@ == env@.slashes[escrow_id],
            },
    {
        ContractStorage::require_not_paused(env)?;
        let _live: EscrowMeta = ContractStorage::load_escrow_meta_with_rent(env, escrow_id)?;
        let record: SlashRecord = ContractStorage::load_slash_record(env, escrow_id)?;
        if !caller.same(&record.slashed_user) {
            return Err(EscrowError::Unauthorized);
        }
        if record.disputed {
            return Err(EscrowError::SlashAlreadyDisputed);
        }
        Ok(record)
    }

    /// Whether the dispute period of a slash can be dated, where `caller` could dispute it.
    pub fn disputing_in_range(env: &Env, caller: &Address, escrow_id: u64) -> (r: bool)
        requires
            env@.rent_in_range(escrow_id),
        ensures
            r == (env@.disputer_refusal(*caller, escrow_id) is None
                ==> env@.slashes[escrow_id].slashed_at + SLASH_DISPUTE_PERIOD <= u64::MAX),
    {
        match Self::check_disputer(env, caller, escrow_id) {
            Ok(record) => record.slashed_at <= u64::MAX - SLASH_DISPUTE_PERIOD,
            Err(_) => true,
        }
    }

    /// Releases a held slash to its recipient, once it can no longer be disputed. Anyone may
    /// call this.
    pub fn finalize_slash(env: &mut Env, escrow_id: u64) -> (r: Result<(), EscrowError>)
        requires
            old(env)@.finalizer_refusal(escrow_id) is None
                ==> old(env)@.slashes[escrow_id].slashed_at + SLASH_DISPUTE_PERIOD <= u64::MAX,
        ensures
            match old(env)@.finalize_slash_refusal(escrow_id) {
                Some(e) => r == Err::<(), _>(e) && final(env)@ == old(env)@,
                None => r == Ok::<_, EscrowError>(()) && final(env)@
                    == old(env)@.finalize_slash_done(escrow_id),
            },
    {
        let record: SlashRecord = Self::check_finalizer(env, escrow_id)?;
        let dispute_deadline: u64 = record.slashed_at + SLASH_DISPUTE_PERIOD;
        if env.timestamp < dispute_deadline {
            return Err(EscrowError::SlashDisputeDeadlineExpired);
        }
        let meta: EscrowMeta = ContractStorage::load_escrow_meta(env, escrow_id)?;

        env.touch_instance();
        env.touch(EntryKey::Data(DataKey::SlashRecord(escrow_id)));
        env.touch(EntryKey::Packed(PackedDataKey::EscrowMeta(escrow_id)));
        let contract: Address = env.contract;
        env.transfer(&meta.token, &contract, &record.recipient, record.amount);
        env.slashes.remove(&escrow_id);
        env.publish(
            Event::SlashApplied {
                escrow_id,
                slashed_user: record.slashed_user,
                recipient: record.recipient,
                amount: record.amount,
                reason: record.reason,
            },
        );
        Ok(())
    }

    /// The slashed user disputes a slash.
    pub fn dispute_slash(env: &mut Env, caller: Address, escrow_id: u64) -> (r: Result<
        (),
        EscrowError,
    >)
        requires
            old(env)@.rent_in_range(escrow_id),
            old(env)@.disputer_refusal(caller, escrow_id) is None
                ==> old(env)@.slashes[escrow_id].slashed_at + SLASH_DISPUTE_PERIOD <= u64::MAX,
        ensures
            match old(env)@.dispute_slash_refusal(caller, escrow_id) {
                Some(e) => r == Err::<(), _>(e) && final(env)@ == old(env)@.demanding(caller),
                None => r == Ok::<_, EscrowError>(()) && final(env)@
                    == old(env)@.dispute_slash_done(caller, escrow_id),
            },
    {
        env.require_auth(&caller);
        let mut record: SlashRecord = Self::check_disputer(env, &caller, escrow_id)?;
        let dispute_deadline: u64 = record.slashed_at + SLASH_DISPUTE_PERIOD;
        if env.timestamp >= dispute_deadline {
            return Err(EscrowError::SlashDisputeDeadlineExpired);
        }

        ContractStorage::settle_rent_for_access(env, escrow_id);
        env.touch(EntryKey::Data(DataKey::SlashRecord(escrow_id)));
        let amount: i128 = record.amount;
        record.disputed = true;
        ContractStorage::save_slash_record(env, record);
        env.publish(Event::SlashDisputed { escrow_id, by: caller, amount });
        Ok(())
    }

    /// The arbiter or the admin resolves a dispute over a slash. Where it is upheld, the slash
    /// remains and its recipient gets the funds; else they are returned to the slashed user.
    pub fn resolve_slash_dispute(
        env: &mut Env,
        caller: Address,
        escrow_id: u64,
        upheld: bool,
    ) -> (r: Result<(), EscrowError>)
        requires
            old(env)@.rent_in_range(escrow_id),
        ensures
            match old(env)@.resolve_slash_refusal(caller, escrow_id) {
                Some(e) => r == Err::<(), _>(e) && final(env)@ == old(env)@.demanding(caller),
                None => r == Ok::<_, EscrowError>(()) && final(env)@
                    == old(env)@.resolve_slash_done(caller, escrow_id, upheld),
            },
    {
        env.require_auth(&caller);
        ContractStorage::require_not_paused(env)?;
        let record: SlashRecord = ContractStorage::load_slash_record(env, escrow_id)?;
        let meta: EscrowMeta = ContractStorage::load_escrow_meta_with_rent(env, escrow_id)?;
        let is_arbiter: bool = Self::require_judge(env, &meta, &caller)?;
        if !record.disputed {
            return Err(EscrowError::SlashNotFound);
        }

        env.touch(EntryKey::Data(DataKey::SlashRecord(escrow_id)));
        ContractStorage::settle_rent_for_access(env, escrow_id);
        if !is_arbiter {
            env.touch_instance();
        }
        let amount: i128 = record.amount;
        let contract: Address = env.contract;
        if upheld {
            env.transfer(&meta.token, &contract, &record.recipient, amount);
        } else {
            env.transfer(&meta.token, &contract, &record.slashed_user, amount);
            let mut reputation: ReputationRecord = ContractStorage::load_reputation(
                env,
                &record.slashed_user,
            );
            ContractStorage::touch_reputation(env, &record.slashed_user);
            reputation.slash_count = reputation.slash_count.saturating_sub(1);
            reputation.total_slashed = match reputation.total_slashed.checked_sub(amount) {
                Some(rest) => rest,
                None => if amount < 0 {
                    i128::MAX
                } else {
                    i128::MIN
                },
            };
            reputation.total_score = reputation.total_score.saturating_add(10);
            reputation.last_updated = env.timestamp;
            ContractStorage::save_reputation(env, reputation);
        }
        env.publish(Event::SlashDisputeResolved { escrow_id, upheld, amount });
        env.slashes.remove(&escrow_id);
        Ok(())
    }
}

} // verus!
