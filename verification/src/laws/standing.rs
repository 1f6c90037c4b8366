//! Reputation: what an update, a slash and its reversal do to a record.
use vstd::prelude::*;

use crate::ledger::Ledger;
use crate::types::{Address, ReputationRecord};

verus! {

/// A completed escrow gives ten points, and one more for each thousand of its volume, twenty in
/// all at most: whatever the volume.
pub proof fn law_completion_points(record: ReputationRecord, volume: i128)
    ensures
        0 <= crate::reputation::volume_bonus(volume) <= 10,
        volume < 0 ==> crate::reputation::volume_bonus(volume) == 0,
        0 <= volume < 10_000 ==> crate::reputation::volume_bonus(volume) == volume as int / 1_000,
        volume >= 10_000 ==> crate::reputation::volume_bonus(volume) == 10,
        ({
            let score = record.total_score + 10 + crate::reputation::volume_bonus(volume);
            score <= u64::MAX ==> crate::reputation::credited(record, volume).total_score == score
        }),
        crate::reputation::credited(record, volume).total_score <= record.total_score + 20,
{
}

/// A dispute takes five points, and never leaves less than none.
pub proof fn law_dispute_points(record: ReputationRecord)
    ensures
        record.total_score >= 5 ==> crate::reputation::debited(record).total_score
            == record.total_score - 5,
        record.total_score < 5 ==> crate::reputation::debited(record).total_score == 0,
{
}

/// Reversing a slash undoes it: the count of slashes and the sum of what was slashed are what
/// they were, and so is the score, where the slash could take its ten points off.
pub proof fn law_reversal_undoes_slash(
    record: ReputationRecord,
    amount: i128,
    now: u64,
    later: u64,
)
    requires
        record.slash_count < u32::MAX,
        i128::MIN <= record.total_slashed + amount <= i128::MAX,
    ensures
        ({
            let after = crate::cancellation::unslashed(
                crate::cancellation::slashed(record, amount, now),
                amount,
                later,
            );
            &&& after.slash_count == record.slash_count
            &&& after.total_slashed == record.total_slashed
            &&& record.total_score >= 10 ==> after.total_score == record.total_score
            &&& after == (ReputationRecord {
                total_score: after.total_score,
                last_updated: later,
                ..record
            })
        }),
{
}

/// An update touches nobody's record but the one it is about.
pub proof fn law_update_leaves_others(
    s: Ledger,
    who: Address,
    other: Address,
    completed: bool,
    disputed: bool,
    volume: i128,
)
    requires
        s.well_kept(),
        other != who,
    ensures
        s.updating_reputation(who, completed, disputed, volume).reputation_of(other)
            == s.reputation_of(other),
        s.updating_reputation(who, completed, disputed, volume).reputation_of(who).address == who,
{
}

} // verus!
