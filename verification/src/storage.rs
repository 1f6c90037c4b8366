//! Reading and writing the contract's entries, and the checks that many requests share.
use vstd::prelude::*;

use crate::errors::EscrowError;
use crate::index::{append_to_vec_index, remove_from_vec_index};
use crate::ledger::{EntryKey, Env, Event, HostCall, Ledger};
use crate::types::{
    Address, CancellationRequest, DataKey, EscrowMeta, EscrowStatus, Milestone,
    OptionalTimelock, PackedDataKey, RecurringPaymentConfig, ReputationRecord, SlashRecord,
};

verus! {

/// An instance whose remaining life is below this many ledgers is extended.
pub const INSTANCE_TTL_THRESHOLD: u32 = 5_000;

/// The number of ledgers that an instance is extended to.
pub const INSTANCE_TTL_EXTEND_TO: u32 = 50_000;

/// A persistent entry whose remaining life is below this many ledgers is extended.
pub const PERSISTENT_TTL_THRESHOLD: u32 = 5_000;

/// The number of ledgers that a persistent entry is extended to.
pub const PERSISTENT_TTL_EXTEND_TO: u32 = 50_000;

/// Whether funds under this timelock may move at time `now`.
pub open spec fn timelock_open(timelock: OptionalTimelock, now: u64) -> bool {
    match timelock {
        OptionalTimelock::Absent => true,
        OptionalTimelock::Present(t) => t.start_ledger + t.duration_ledger <= now,
    }
}

impl Ledger {
    /// Why a request that needs an initialized contract is refused.
    pub open spec fn uninitialized_refusal(self) -> Option<EscrowError> {
        if self.admin is None {
            Some(EscrowError::NotInitialized)
        } else {
            None
        }
    }

    /// Why a request that only the admin may make is refused.
    pub open spec fn admin_refusal(self, caller: Address) -> Option<EscrowError> {
        match self.admin {
            None => Some(EscrowError::NotInitialized),
            Some(admin) => if caller != admin {
                Some(EscrowError::AdminOnly)
            } else {
                None
            },
        }
    }

    /// Why a request is refused while the contract is paused.
    pub open spec fn paused_refusal(self) -> Option<EscrowError> {
        if self.is_paused() {
            Some(EscrowError::ContractPaused)
        } else {
            None
        }
    }

    /// Why funds under this lock time may not move yet.
    pub open spec fn lock_refusal(self, lock_time: Option<u64>) -> Option<EscrowError> {
        match lock_time {
            Some(t) if self.now < t => Some(EscrowError::LockTimeNotExpired),
            _ => None,
        }
    }

    /// Why funds under this timelock may not move yet.
    pub open spec fn timelock_refusal(self, timelock: OptionalTimelock) -> Option<EscrowError> {
        match timelock {
            OptionalTimelock::Absent => None,
            OptionalTimelock::Present(t) => if t.start_ledger + t.duration_ledger > u64::MAX {
                Some(EscrowError::InvalidTimelockDuration)
            } else if self.now < t.start_ledger + t.duration_ledger {
                Some(EscrowError::TimelockNotExpired)
            } else {
                None
            },
        }
    }

    /// The expiry of a lock time is announced, where there is one.
    pub open spec fn announcing_lock(self, id: u64, lock_time: Option<u64>) -> Ledger {
        match lock_time {
            Some(t) => self.publishing(Event::LockTimeExpired { escrow_id: id, lock_time: t }),
            None => self,
        }
    }

    /// The expiry of a timelock is announced, where there is one and it has expired.
    pub open spec fn announcing_timelock(self, id: u64, timelock: OptionalTimelock) -> Ledger {
        if timelock is Present && timelock_open(timelock, self.now) {
            self.publishing(Event::TimelockReleased { escrow_id: id, at: self.now })
        } else {
            self
        }
    }

    /// The reputation of `who`; an empty record where none is kept.
    pub open spec fn reputation_of(self, who: Address) -> ReputationRecord {
        if self.reputations.contains_key(who) {
            self.reputations[who]
        } else {
            ReputationRecord {
                address: who,
                total_score: 0,
                completed_escrows: 0,
                disputed_escrows: 0,
                disputes_won: 0,
                total_volume: 0,
                slash_count: 0,
                total_slashed: 0,
                last_updated: self.now,
            }
        }
    }

    /// The reputation record of `who` is kept alive, where there is one.
    pub open spec fn touching_reputation(self, who: Address) -> Ledger {
        if self.reputations.contains_key(who) {
            self.touching(EntryKey::Data(DataKey::Reputation(who)))
        } else {
            self
        }
    }
}

/// An open timelock is one whose check passes.
pub proof fn lemma_timelock_open(s: Ledger, timelock: OptionalTimelock)
    ensures
        timelock_open(timelock, s.now) == (s.timelock_refusal(timelock) is None),
{
}

/// The contract's storage: loads, stores and shared checks.
///
/// A check and a load read the ledger and leave it as it is; a store changes it. A request
/// does all of its checks before its first store, so a refused request changes nothing.
pub struct ContractStorage;

impl ContractStorage {
    /// Sets the contract up, once.
    pub fn initialize(env: &mut Env, admin: &Address) -> (r: Result<(), EscrowError>)
        ensures
            old(env)@.admin is Some ==> r == Err::<(), _>(EscrowError::AlreadyInitialized)
                && final(env)@ == old(env)@,
            old(env)@.admin is None ==> r == Ok::<_, EscrowError>(()) && final(env)@ == (Ledger {
                admin: Some(*admin),
                escrow_counter: Some(0),
                ..old(env)@
            }).calling(HostCall::InitStorageVersion).touching_instance(),
    {
        if env.admin.is_some() {
            return Err(EscrowError::AlreadyInitialized);
        }
        env.admin = Some(*admin);
        env.escrow_counter = Some(0);
        env.call(HostCall::InitStorageVersion);
        env.touch_instance();
        Ok(())
    }

    /// Checks that the contract was set up.
    pub fn require_initialized(env: &Env) -> (r: Result<(), EscrowError>)
        ensures
            match env@.uninitialized_refusal() {
                Some(e) => r == Err::<(), _>(e),
                None => r == Ok::<_, EscrowError>(()),
            },
    {
        if env.admin.is_none() {
            return Err(EscrowError::NotInitialized);
        }
        Ok(())
    }

    /// Checks that `caller` is the admin.
    pub fn require_admin(env: &Env, caller: &Address) -> (r: Result<(), EscrowError>)
        ensures
            match env@.admin_refusal(*caller) {
                Some(e) => r == Err::<(), _>(e),
                None => r == Ok::<_, EscrowError>(()),
            },
    {
        match env.admin {
            None => Err(EscrowError::NotInitialized),
            Some(admin) => if !caller.same(&admin) {
                Err(EscrowError::AdminOnly)
            } else {
                Ok(())
            },
        }
    }

    /// Whether the contract is paused.
    pub fn is_paused(env: &Env) -> (r: bool)
        ensures
            r == env@.is_paused(),
    {
        match env.paused {
            Some(paused) => paused,
            None => false,
        }
    }

    /// Pauses or resumes the contract.
    pub fn set_paused(env: &mut Env, paused: bool)
        ensures
            final(env)@ == (Ledger { paused: Some(paused), ..old(env)@ }).touching_instance(),
    {
        env.paused = Some(paused);
        env.touch_instance();
    }

    /// Checks that the contract is not paused.
    pub fn require_not_paused(env: &Env) -> (r: Result<(), EscrowError>)
        ensures
            match env@.paused_refusal() {
                Some(e) => r == Err::<(), _>(e),
                None => r == Ok::<_, EscrowError>(()),
            },
    {
        if Self::is_paused(env) {
            return Err(EscrowError::ContractPaused);
        }
        Ok(())
    }

    /// The number of the next escrow.
    pub fn escrow_number(env: &Env) -> (r: u64)
        ensures
            r == env@.next_escrow_id(),
    {
        match env.escrow_counter {
            Some(count) => count,
            None => 0,
        }
    }

    /// Takes the number of the next escrow.
    pub fn next_escrow_id(env: &mut Env) -> (r: u64)
        requires
            old(env)@.next_escrow_id() < u64::MAX,
        ensures
            r == old(env)@.next_escrow_id(),
            final(env)@ == old(env)@.taking_escrow_id(),
    {
        let id: u64 = Self::escrow_number(env);
        env.escrow_counter = Some(id + 1);
        id
    }

    /// The header of escrow `escrow_id`.
    pub fn load_escrow_meta(env: &Env, escrow_id: u64) -> (r: Result<EscrowMeta, EscrowError>)
        ensures
            env@.escrows.contains_key(escrow_id) ==> r is Ok && r->Ok_0@
                == env@.escrows[escrow_id],
            !env@.escrows.contains_key(escrow_id) ==> r == Err::<EscrowMeta, _>(
                EscrowError::EscrowNotFound,
            ),
    {
        match env.escrows.get(&escrow_id) {
            Some(meta) => Ok(meta.copied()),
            None => Err(EscrowError::EscrowNotFound),
        }
    }

    /// Stores the header of an escrow.
    pub fn save_escrow_meta(env: &mut Env, meta: EscrowMeta)
        ensures
            final(env)@ == old(env)@.with_escrow(meta@),
    {
        let id: u64 = meta.escrow_id;
        env.escrows.set(id, meta);
        env.touch(EntryKey::Packed(PackedDataKey::EscrowMeta(id)));
    }

    /// Milestone `milestone_id` of escrow `escrow_id`.
    pub fn load_milestone(env: &Env, escrow_id: u64, milestone_id: u32) -> (r: Result<
        Milestone,
        EscrowError,
    >)
        ensures
            env@.milestones.contains_key((escrow_id, milestone_id)) ==> r is Ok && r->Ok_0@
                == env@.milestones[(escrow_id, milestone_id)],
            !env@.milestones.contains_key((escrow_id, milestone_id)) ==> r == Err::<Milestone, _>(
                EscrowError::MilestoneNotFound,
            ),
    {
        match env.milestones.get(&(escrow_id, milestone_id)) {
            Some(m) => Ok(m.copied()),
            None => Err(EscrowError::MilestoneNotFound),
        }
    }

    /// Stores a milestone of escrow `escrow_id`.
    pub fn save_milestone(env: &mut Env, escrow_id: u64, milestone: Milestone)
        ensures
            final(env)@ == old(env)@.with_milestone(escrow_id, milestone@),
    {
        let id: u32 = milestone.id;
        env.milestones.set((escrow_id, id), milestone);
        env.touch(EntryKey::Packed(PackedDataKey::Milestone(escrow_id, id)));
    }

    /// The recurring schedule of escrow `escrow_id`.
    pub fn load_recurring_config(env: &Env, escrow_id: u64) -> (r: Result<
        RecurringPaymentConfig,
        EscrowError,
    >)
        ensures
            r == (if env@.recurring.contains_key(escrow_id) {
                Ok(env@.recurring[escrow_id])
            } else {
                Err(EscrowError::RecurringConfigNotFound)
            }),
    {
        match env.recurring.get(&escrow_id) {
            Some(config) => Ok(*config),
            None => Err(EscrowError::RecurringConfigNotFound),
        }
    }

    /// Stores the recurring schedule of escrow `escrow_id`.
    pub fn save_recurring_config(env: &mut Env, escrow_id: u64, config: RecurringPaymentConfig)
        ensures
            final(env)@ == old(env)@.with_recurring(escrow_id, config),
    {
        env.recurring.set(escrow_id, config);
        env.touch(EntryKey::Packed(PackedDataKey::RecurringConfig(escrow_id)));
    }

    /// The reputation of `address`; an empty record where none is kept.
    pub fn load_reputation(env: &Env, address: &Address) -> (r: ReputationRecord)
        ensures
            r == env@.reputation_of(*address),
    {
        match env.reputations.get(address) {
            Some(record) => *record,
            None => ReputationRecord {
                address: *address,
                total_score: 0,
                completed_escrows: 0,
                disputed_escrows: 0,
                disputes_won: 0,
                total_volume: 0,
                slash_count: 0,
                total_slashed: 0,
                last_updated: env.timestamp,
            },
        }
    }

    /// Keeps the reputation record of `address` alive, where there is one.
    pub fn touch_reputation(env: &mut Env, address: &Address)
        ensures
            final(env)@ == old(env)@.touching_reputation(*address),
    {
        if env.reputations.has(address) {
            env.touch(EntryKey::Data(DataKey::Reputation(*address)));
        }
    }

    /// Stores a reputation record.
    pub fn save_reputation(env: &mut Env, record: ReputationRecord)
        ensures
            final(env)@ == old(env)@.with_reputation(record),
    {
        env.reputations.set(record.address, record);
        env.touch(EntryKey::Data(DataKey::Reputation(record.address)));
    }

    /// The cancellation request of escrow `escrow_id`.
    pub fn load_cancellation_request(env: &Env, escrow_id: u64) -> (r: Result<
        CancellationRequest,
        EscrowError,
    >)
        ensures
            env@.cancellations.contains_key(escrow_id) ==> r is Ok && r->Ok_0@
                == env@.cancellations[escrow_id],
            !env@.cancellations.contains_key(escrow_id) ==> r == Err::<CancellationRequest, _>(
                EscrowError::CancellationNotFound,
            ),
    {
        match env.cancellations.get(&escrow_id) {
            Some(request) => Ok(request.copied()),
            None => Err(EscrowError::CancellationNotFound),
        }
    }

    /// Stores a cancellation request.
    pub fn save_cancellation_request(env: &mut Env, request: CancellationRequest)
        ensures
            final(env)@ == old(env)@.with_cancellation(request@),
    {
        let id: u64 = request.escrow_id;
        env.cancellations.set(id, request);
        env.touch(EntryKey::Data(DataKey::CancellationRequest(id)));
    }

    /// The slash record of escrow `escrow_id`.
    pub fn load_slash_record(env: &Env, escrow_id: u64) -> (r: Result<SlashRecord, EscrowError>)
        ensures
            env@.slashes.contains_key(escrow_id) ==> r is Ok && r->Ok_0@
                == env@.slashes[escrow_id],
            !env@.slashes.contains_key(escrow_id) ==> r == Err::<SlashRecord, _>(
                EscrowError::SlashNotFound,
            ),
    {
        match env.slashes.get(&escrow_id) {
            Some(record) => Ok(record.copied()),
            None => Err(EscrowError::SlashNotFound),
        }
    }

    /// Stores a slash record.
    pub fn save_slash_record(env: &mut Env, record: SlashRecord)
        ensures
            final(env)@ == old(env)@.with_slash(record@),
    {
        let id: u64 = record.escrow_id;
        env.slashes.set(id, record);
        env.touch(EntryKey::Data(DataKey::SlashRecord(id)));
    }

    /// Checks that the lock time, if there is one, has passed.
    pub fn check_lock_time_expired(env: &Env, lock_time: Option<u64>) -> (r: Result<
        (),
        EscrowError,
    >)
        ensures
            match env@.lock_refusal(lock_time) {
                Some(e) => r == Err::<(), _>(e),
                None => r == Ok::<_, EscrowError>(()),
            },
    {
        if let Some(t) = lock_time {
            if env.timestamp < t {
                return Err(EscrowError::LockTimeNotExpired);
            }
        }
        Ok(())
    }

    /// Announces the expiry of a lock time, where there is one.
    pub fn announce_lock_time(env: &mut Env, escrow_id: u64, lock_time: Option<u64>)
        ensures
            final(env)@ == old(env)@.announcing_lock(escrow_id, lock_time),
    {
        if let Some(t) = lock_time {
            env.publish(Event::LockTimeExpired { escrow_id, lock_time: t });
        }
    }

    /// Checks that the timelock, if there is one, has expired.
    pub fn check_timelock_expired(env: &Env, timelock: OptionalTimelock) -> (r: Result<
        (),
        EscrowError,
    >)
        ensures
            match env@.timelock_refusal(timelock) {
                Some(e) => r == Err::<(), _>(e),
                None => r == Ok::<_, EscrowError>(()),
            },
    {
        match timelock {
            OptionalTimelock::Absent => Ok(()),
            OptionalTimelock::Present(t) => {
                match t.start_ledger.checked_add(t.duration_ledger) {
                    None => Err(EscrowError::InvalidTimelockDuration),
                    Some(expiry) => if env.timestamp < expiry {
                        Err(EscrowError::TimelockNotExpired)
                    } else {
                        Ok(())
                    },
                }
            },
        }
    }

    /// Whether funds under this timelock may move now.
    pub fn timelock_expired(env: &Env, timelock: OptionalTimelock) -> (r: bool)
        ensures
            r == timelock_open(timelock, env@.now),
    {
        proof {
            lemma_timelock_open(env@, timelock);
        }
        Self::check_timelock_expired(env, timelock).is_ok()
    }

    /// Announces the expiry of a timelock, where there is one and it has expired.
    pub fn announce_timelock(env: &mut Env, escrow_id: u64, timelock: OptionalTimelock)
        ensures
            final(env)@ == old(env)@.announcing_timelock(escrow_id, timelock),
    {
        if let OptionalTimelock::Present(_) = timelock {
            if Self::timelock_expired(env, timelock) {
                let at: u64 = env.timestamp;
                env.publish(Event::TimelockReleased { escrow_id, at });
            }
        }
    }

    /// Lists escrow `escrow_id` under the participant `who`.
    pub fn list_participant(env: &mut Env, who: &Address, escrow_id: u64)
        ensures
            final(env)@ == old(env)@.listing_participant(*who, escrow_id),
    {
        append_to_vec_index(&mut env.by_participant, *who, escrow_id);
    }

    /// Lists escrow `escrow_id` under `status`.
    pub fn list_status(env: &mut Env, status: EscrowStatus, escrow_id: u64)
        ensures
            final(env)@ == old(env)@.listing_status(status, escrow_id),
    {
        append_to_vec_index(&mut env.by_status, status, escrow_id);
    }

    /// Moves escrow `escrow_id` from the list of `from` to the end of the list of `to`.
    pub fn relist(env: &mut Env, from: EscrowStatus, to: EscrowStatus, escrow_id: u64)
        ensures
            final(env)@ == old(env)@.relisting(from, to, escrow_id),
    {
        remove_from_vec_index(&mut env.by_status, from, escrow_id);
        append_to_vec_index(&mut env.by_status, to, escrow_id);
    }
}

impl Ledger {
    /// The number that the next escrow gets.
    pub open spec fn next_escrow_id(self) -> u64 {
        match self.escrow_counter {
            Some(count) => count,
            None => 0,
        }
    }

    /// The number of the next escrow is taken.
    pub open spec fn taking_escrow_id(self) -> Ledger {
        Ledger { escrow_counter: Some((self.next_escrow_id() + 1) as u64), ..self }
    }
}

} // verus!
