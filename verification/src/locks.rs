//! Holding funds back: the timelock and the lock time of an escrow.
use vstd::prelude::*;

use crate::contract::EscrowContract;
use crate::errors::EscrowError;
use crate::ledger::{Env, Event, Ledger};
use crate::storage::ContractStorage;
use crate::types::{
    Address, EscrowMeta, EscrowMetaView, EscrowStatus, OptionalTimelock, Timelock,
};

verus! {

/// The shortest duration of a timelock: one day, in seconds.
pub const MIN_TIMELOCK_SECONDS: u64 = 86_400;

/// The longest duration of a timelock: thirty days, in seconds.
pub const MAX_TIMELOCK_SECONDS: u64 = 2_592_000;

impl Ledger {
    /// Why a timelock cannot be started.
    pub open spec fn start_timelock_refusal(
        self,
        caller: Address,
        id: u64,
        duration: u64,
    ) -> Option<EscrowError> {
        let meta = self.accessed_escrow(id);
        if self.admin is None {
            Some(EscrowError::NotInitialized)
        } else if self.is_paused() {
            Some(EscrowError::ContractPaused)
        } else if duration < MIN_TIMELOCK_SECONDS || duration > MAX_TIMELOCK_SECONDS {
            Some(EscrowError::InvalidTimelockDuration)
        } else if self.access_refusal(id) is Some {
            self.access_refusal(id)
        } else if !crate::disputes::is_party(meta, caller) {
            Some(EscrowError::Unauthorized)
        } else if meta.status != EscrowStatus::Active {
            Some(EscrowError::EscrowNotActive)
        } else if meta.timelock is Present {
            Some(EscrowError::TimelockAlreadyActive)
        } else {
            None
        }
    }

    /// A timelock is started now.
    pub open spec fn start_timelock_done(self, caller: Address, id: u64, duration: u64) -> Ledger {
        self.demanding(caller).touching_instance().accessing(id).with_escrow(
            EscrowMetaView {
                timelock: OptionalTimelock::Present(
                    Timelock { duration_ledger: duration, start_ledger: self.now },
                ),
                ..self.accessed_escrow(id)
            },
        ).publishing(Event::TimelockStarted { escrow_id: id, duration, at: self.now })
    }

    /// Why the lock time cannot be moved.
    pub open spec fn extend_lock_refusal(
        self,
        caller: Address,
        id: u64,
        new_lock_time: u64,
    ) -> Option<EscrowError> {
        let meta = self.accessed_escrow(id);
        if self.is_paused() {
            Some(EscrowError::ContractPaused)
        } else if self.access_refusal(id) is Some {
            self.access_refusal(id)
        } else if caller != meta.client {
            Some(EscrowError::ClientOnly)
        } else if meta.status != EscrowStatus::Active {
            Some(EscrowError::EscrowNotActive)
        } else if new_lock_time <= self.now || (meta.lock_time_extension is Some && new_lock_time
            > meta.lock_time_extension->0) {
            Some(EscrowError::InvalidLockTimeExtension)
        } else {
            None
        }
    }

    /// The lock time is moved.
    pub open spec fn extend_lock_done(
        self,
        caller: Address,
        id: u64,
        new_lock_time: u64,
    ) -> Ledger {
        let meta = self.accessed_escrow(id);
        self.demanding(caller).accessing(id).with_escrow(
            EscrowMetaView { lock_time: Some(new_lock_time), ..meta },
        ).publishing(
            Event::LockTimeExtended {
                escrow_id: id,
                old_lock_time: match meta.lock_time {
                    Some(t) => t,
                    None => 0,
                },
                new_lock_time,
                by: caller,
            },
        )
    }
}

impl EscrowContract {
    /// The client or the freelancer starts a timelock of up to thirty days: what is approved
    /// before it expires stays in the contract until it is released.
    pub fn start_timelock(
        env: &mut Env,
        caller: Address,
        escrow_id: u64,
        duration_ledger: u64,
    ) -> (r: Result<(), EscrowError>)
        requires
            old(env)@.rent_in_range(escrow_id),
        ensures
            match old(env)@.start_timelock_refusal(caller, escrow_id, duration_ledger) {
                Some(e) => r == Err::<(), _>(e) && final(env)@ == old(env)@.demanding(caller),
                None => r == Ok::<_, EscrowError>(()) && final(env)@
                    == old(env)@.start_timelock_done(caller, escrow_id, duration_ledger),
            },
    {
        env.require_auth(&caller);
        ContractStorage::require_initialized(env)?;
        ContractStorage::require_not_paused(env)?;
        if duration_ledger < MIN_TIMELOCK_SECONDS || duration_ledger > MAX_TIMELOCK_SECONDS {
            return Err(EscrowError::InvalidTimelockDuration);
        }
        let mut meta: EscrowMeta = ContractStorage::load_escrow_meta_with_rent(env, escrow_id)?;
        if !caller.same(&meta.client) && !caller.same(&meta.freelancer) {
            return Err(EscrowError::Unauthorized);
        }
        if meta.status != EscrowStatus::Active {
            return Err(EscrowError::EscrowNotActive);
        }
        if let OptionalTimelock::Present(_) = meta.timelock {
            return Err(EscrowError::TimelockAlreadyActive);
        }

        env.touch_instance();
        ContractStorage::settle_rent_for_access(env, escrow_id);
        let now: u64 = env.timestamp;
        meta.timelock = OptionalTimelock::Present(
            Timelock { duration_ledger, start_ledger: now },
        );
        ContractStorage::save_escrow_meta(env, meta);
        env.publish(Event::TimelockStarted { escrow_id, duration: duration_ledger, at: now });
        Ok(())
    }

    /// The client moves the lock time of an escrow to a moment that is still to come.
    pub fn extend_lock_time(
        env: &mut Env,
        caller: Address,
        escrow_id: u64,
        new_lock_time: u64,
    ) -> (r: Result<(), EscrowError>)
        requires
            old(env)@.rent_in_range(escrow_id),
        ensures
            match old(env)@.extend_lock_refusal(caller, escrow_id, new_lock_time) {
                Some(e) => r == Err::<(), _>(e) && final(env)@ == old(env)@.demanding(caller),
                None => r == Ok::<_, EscrowError>(()) && final(env)@
                    == old(env)@.extend_lock_done(caller, escrow_id, new_lock_time),
            },
    {
        env.require_auth(&caller);
        ContractStorage::require_not_paused(env)?;
        let mut meta: EscrowMeta = ContractStorage::load_escrow_meta_with_rent(env, escrow_id)?;
        if !caller.same(&meta.client) {
            return Err(EscrowError::ClientOnly);
        }
        if meta.status != EscrowStatus::Active {
            return Err(EscrowError::EscrowNotActive);
        }
        if new_lock_time <= env.timestamp {
            return Err(EscrowError::InvalidLockTimeExtension);
        }
        let old_lock_time: u64 = match meta.lock_time {
            Some(t) => t,
            None => 0,
        };
        if let Some(latest) = meta.lock_time_extension {
            if new_lock_time > latest {
                return Err(EscrowError::InvalidLockTimeExtension);
            }
        }

        ContractStorage::settle_rent_for_access(env, escrow_id);
        meta.lock_time = Some(new_lock_time);
        ContractStorage::save_escrow_meta(env, meta);
        env.publish(
            Event::LockTimeExtended { escrow_id, old_lock_time, new_lock_time, by: caller },
        );
        Ok(())
    }
}

} // verus!
