//! On-chain reputation.
use vstd::prelude::*;

use crate::contract::EscrowContract;
use crate::errors::EscrowError;
use crate::ledger::{Env, Event, Ledger};
use crate::storage::ContractStorage;
use crate::types::{Address, ReputationRecord};

verus! {

// ---------------------------------------------------------------------------
// The model
// ---------------------------------------------------------------------------

/// Division that rounds toward zero.
pub open spec fn quotient(x: int, d: int) -> int {
    if x >= 0 {
        x / d
    } else {
        -((-x) / d)
    }
}

/// A mathematical integer as an amount: the nearest one where it is out of range.
pub open spec fn clamped(x: int) -> i128 {
    if x > i128::MAX {
        i128::MAX
    } else if x < i128::MIN {
        i128::MIN
    } else {
        x as i128
    }
}

/// A mathematical integer as a score: the nearest one where it is out of range.
pub open spec fn clamped_score(x: int) -> u64 {
    if x > u64::MAX {
        u64::MAX
    } else if x < 0 {
        0
    } else {
        x as u64
    }
}

/// The points for the volume of a completed escrow: one for each thousand, ten at most. A
/// negative volume gives none.
pub open spec fn volume_bonus(volume: i128) -> int {
    if volume < 0 {
        0
    } else if volume < 10_000 {
        volume as int / 1_000
    } else {
        10
    }
}

/// Whether the counters of a record have room for an update.
pub open spec fn update_fits(record: ReputationRecord, completed: bool, disputed: bool) -> bool {
    &&& completed ==> record.completed_escrows < u32::MAX
    &&& disputed ==> record.disputed_escrows < u32::MAX
}

/// A record after an escrow of `volume` was completed: ten points and the volume bonus.
pub open spec fn credited(record: ReputationRecord, volume: i128) -> ReputationRecord {
    ReputationRecord {
        total_score: clamped_score(record.total_score + 10 + volume_bonus(volume)),
        completed_escrows: (record.completed_escrows + 1) as u32,
        total_volume: clamped(record.total_volume + volume),
        ..record
    }
}

/// A record after an escrow ended in a dispute: five points less.
pub open spec fn debited(record: ReputationRecord) -> ReputationRecord {
    ReputationRecord {
        total_score: clamped_score(record.total_score - 5),
        disputed_escrows: (record.disputed_escrows + 1) as u32,
        ..record
    }
}

/// A record after an update at `now`.
pub open spec fn updated(
    record: ReputationRecord,
    completed: bool,
    disputed: bool,
    volume: i128,
    now: u64,
) -> ReputationRecord {
    let after_completion = if completed {
        credited(record, volume)
    } else {
        record
    };
    let after_dispute = if disputed {
        debited(after_completion)
    } else {
        after_completion
    };
    ReputationRecord { last_updated: now, ..after_dispute }
}

impl Ledger {
    /// The reputation of `who` is updated and announced.
    pub open spec fn updating_reputation(
        self,
        who: Address,
        completed: bool,
        disputed: bool,
        volume: i128,
    ) -> Ledger {
        let record = updated(self.reputation_of(who), completed, disputed, volume, self.now);
        self.touching_reputation(who).with_reputation(record).publishing(
            Event::ReputationUpdated { address: who, score: record.total_score },
        )
    }

    /// The counters of the reputation of `who` have room for an update.
    pub open spec fn reputation_in_range(
        self,
        who: Address,
        completed: bool,
        disputed: bool,
    ) -> bool {
        update_fits(self.reputation_of(who), completed, disputed)
    }

    /// The reputations of both parties to a dispute have room for it, the client's first.
    pub open spec fn dispute_in_range(self, client: Address, freelancer: Address) -> bool {
        &&& self.reputation_of(client).disputed_escrows < u32::MAX
        &&& self.updating_reputation(client, false, true, 0).reputation_of(
            freelancer,
        ).disputed_escrows < u32::MAX
    }
}

/// A quotient lies between zero and the dividend.
pub proof fn lemma_quotient(x: int, d: int)
    requires
        d > 0,
    ensures
        x >= 0 ==> 0 <= quotient(x, d) <= x,
        x < 0 ==> x <= quotient(x, d) <= 0,
{
    let y = if x >= 0 {
        x
    } else {
        -x
    };
    assert(0 <= y / d <= y) by (nonlinear_arith)
        requires
            y >= 0,
            d > 0,
    ;
}

// ---------------------------------------------------------------------------
// The functions
// ---------------------------------------------------------------------------

/// Division that rounds toward zero.
pub(crate) fn divide(x: i128, d: i128) -> (r: i128)
    requires
        d > 0,
    ensures
        r == quotient(x as int, d as int),
        x >= 0 ==> 0 <= r <= x,
        x < 0 ==> x <= r <= 0,
{
    proof {
        lemma_quotient(x as int, d as int);
    }
    match x.checked_div(d) {
        Some(q) => q,
        None => 0,
    }
}

/// The points for the volume of a completed escrow.
fn bonus_for(volume: i128) -> (r: u64)
    ensures
        r == volume_bonus(volume),
{
    if volume < 0 {
        0
    } else if volume < 10_000 {
        (volume / 1_000) as u64
    } else {
        10
    }
}

impl EscrowContract {
    /// Updates the reputation of a user. A completed escrow gives ten points and one per
    /// thousand of volume, twenty at most; a disputed one takes five points.
    pub fn update_reputation(
        env: &mut Env,
        address: Address,
        completed: bool,
        disputed: bool,
        volume: i128,
    ) -> (r: Result<(), EscrowError>)
        requires
            !old(env)@.is_paused() ==> old(env)@.reputation_in_range(
                address,
                completed,
                disputed,
            ),
        ensures
            match old(env)@.paused_refusal() {
                Some(e) => r == Err::<(), _>(e) && final(env)@ == old(env)@,
                None => r == Ok::<_, EscrowError>(()) && final(env)@
                    == old(env)@.updating_reputation(address, completed, disputed, volume),
            },
    {
        ContractStorage::require_not_paused(env)?;
        Self::update_reputation_internal(env, &address, completed, disputed, volume);
        Ok(())
    }

    /// Whether the counters of the reputation of `address` have room for an update.
    pub fn reputation_in_range(
        env: &Env,
        address: &Address,
        completed: bool,
        disputed: bool,
    ) -> (r: bool)
        ensures
            r == env@.reputation_in_range(*address, completed, disputed),
    {
        let record: ReputationRecord = ContractStorage::load_reputation(env, address);
        if completed && record.completed_escrows == u32::MAX {
            return false;
        }
        !(disputed && record.disputed_escrows == u32::MAX)
    }

    /// Whether the reputations of both parties have room for a dispute.
    pub fn dispute_in_range(env: &Env, client: &Address, freelancer: &Address) -> (r: bool)
        ensures
            r == env@.dispute_in_range(*client, *freelancer),
    {
        let first: ReputationRecord = ContractStorage::load_reputation(env, client);
        let second: ReputationRecord = ContractStorage::load_reputation(env, freelancer);
        if first.disputed_escrows == u32::MAX {
            return false;
        }
        let earlier: u32 = if first.address.same(freelancer) {
            first.disputed_escrows + 1
        } else {
            second.disputed_escrows
        };
        earlier < u32::MAX
    }

    pub(crate) fn update_reputation_internal(
        env: &mut Env,
        address: &Address,
        completed: bool,
        disputed: bool,
        volume: i128,
    )
        requires
            old(env)@.reputation_in_range(*address, completed, disputed),
        ensures
            final(env)@ == old(env)@.updating_reputation(*address, completed, disputed, volume),
    {
        let mut record: ReputationRecord = ContractStorage::load_reputation(env, address);
        ContractStorage::touch_reputation(env, address);
        if completed {
            let bonus: u64 = bonus_for(volume);
            record.total_score = record.total_score.saturating_add(10 + bonus);
            record.completed_escrows = record.completed_escrows + 1;
            record.total_volume = match record.total_volume.checked_add(volume) {
                Some(sum) => sum,
                None => if volume > 0 {
                    i128::MAX
                } else {
                    i128::MIN
                },
            };
        }
        if disputed {
            record.total_score = record.total_score.saturating_sub(5);
            record.disputed_escrows = record.disputed_escrows + 1;
        }
        record.last_updated = env.timestamp;
        ContractStorage::save_reputation(env, record);
        env.publish(
            Event::ReputationUpdated { address: *address, score: record.total_score },
        );
    }
}

} // verus!
