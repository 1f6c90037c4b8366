//! Storage rent: an escrow prepays for the entries it occupies, and expires when the reserve
//! no longer covers the time that has passed.
use vstd::prelude::*;

use crate::cancellation::SLASH_DISPUTE_PERIOD;
use crate::errors::EscrowError;
use crate::index::remove_from_vec_index;
use crate::ledger::{EntryKey, Env, Event, Ledger};
use crate::storage::ContractStorage;
use crate::types::{Address, EscrowMeta, EscrowMetaView, PackedDataKey};

verus! {

/// The length of a rent period.
pub const RENT_PERIOD_SECONDS: u64 = 86_400;

/// The number of periods that a new entry is paid for in advance.
pub const RENT_RESERVE_PERIODS: u64 = 30;

/// The price of one entry for one period.
pub const RENT_PER_ENTRY_PER_PERIOD: i128 = 1;

// ---------------------------------------------------------------------------
// The model
// ---------------------------------------------------------------------------

/// The reserve that `entries` new entries are charged.
pub open spec fn reserve_for(entries: int) -> int {
    entries * RENT_PER_ENTRY_PER_PERIOD * RENT_RESERVE_PERIODS
}

impl Ledger {
    /// The number of entries that an escrow occupies: its header, its milestones, and its
    /// recurring schedule, cancellation request and slash record where it has them.
    pub open spec fn active_storage_entries(self, meta: EscrowMetaView) -> int {
        let id = meta.escrow_id;
        1 + meta.milestone_count + (if self.recurring.contains_key(id) {
            1int
        } else {
            0
        }) + (if self.cancellations.contains_key(id) {
            1int
        } else {
            0
        }) + (if self.slashes.contains_key(id) {
            1int
        } else {
            0
        })
    }

    /// What an escrow owes for one period.
    pub open spec fn rent_due_per_period(self, meta: EscrowMetaView) -> int {
        self.active_storage_entries(meta) * RENT_PER_ENTRY_PER_PERIOD
    }

    /// The number of whole periods that have passed since rent was last collected.
    pub open spec fn rent_periods(self, meta: EscrowMetaView) -> int {
        if self.now <= meta.last_rent_collection_at {
            0
        } else {
            (self.now - meta.last_rent_collection_at) / RENT_PERIOD_SECONDS as int
        }
    }

    /// The number of periods that the reserve pays for.
    pub open spec fn rent_covered(self, meta: EscrowMetaView) -> int {
        meta.rent_balance as int / self.rent_due_per_period(meta)
    }

    /// Whether more periods have passed than the reserve pays for.
    pub open spec fn rent_has_expired(self, meta: EscrowMetaView) -> bool {
        self.rent_periods(meta) > 0 && self.rent_periods(meta) > self.rent_covered(meta)
    }

    /// What is taken from the reserve now: the rent of the periods that have passed, as far as
    /// the reserve goes.
    pub open spec fn rent_collectable(self, meta: EscrowMetaView) -> int {
        let due = self.rent_periods(meta) * self.rent_due_per_period(meta);
        if due < meta.rent_balance {
            due
        } else {
            meta.rent_balance as int
        }
    }

    /// The header after rent was collected: the reserve is reduced, and the checkpoint moves on
    /// by the periods that were paid for in full.
    pub open spec fn after_rent(self, meta: EscrowMetaView) -> EscrowMetaView {
        if self.rent_periods(meta) == 0 {
            meta
        } else {
            let taken = self.rent_collectable(meta);
            EscrowMetaView {
                rent_balance: (meta.rent_balance - taken) as i128,
                last_rent_collection_at: (meta.last_rent_collection_at + (taken
                    / self.rent_due_per_period(meta)) * RENT_PERIOD_SECONDS) as u64,
                ..meta
            }
        }
    }

    /// The moment at which the reserve will have run out. The count of covered periods is
    /// kept in 64 bits.
    pub open spec fn rent_expires_at(self, meta: EscrowMetaView) -> int {
        meta.last_rent_collection_at + (self.rent_covered(meta) % 0x1_0000_0000_0000_0000 + 1)
            * RENT_PERIOD_SECONDS
    }

    /// Why rent cannot be collected: there is rent to pay out, and no admin to pay it to.
    pub open spec fn rent_refusal(self, meta: EscrowMetaView) -> Option<EscrowError> {
        if self.rent_periods(meta) > 0 && self.rent_collectable(meta) > 0 && self.admin is None {
            Some(EscrowError::NotInitialized)
        } else {
            None
        }
    }

    /// The rent due is paid out to the admin and announced. Nothing happens before a whole
    /// period has passed.
    pub open spec fn collecting_rent(self, meta: EscrowMetaView) -> Ledger {
        if self.rent_periods(meta) == 0 {
            self
        } else {
            let taken = self.rent_collectable(meta);
            let after = self.after_rent(meta);
            let paid = if taken > 0 {
                self.transferring(meta.token, self.contract, self.admin->0, taken as i128)
            } else {
                self
            };
            paid.publishing(
                Event::RentCollected {
                    escrow_id: meta.escrow_id,
                    collected: taken as i128,
                    balance: after.rent_balance,
                    expires_at: self.rent_expires_at(after) as u64,
                },
            )
        }
    }

    /// The books of the rent of this header can be settled in machine integers.
    pub open spec fn rent_fits(self, meta: EscrowMetaView) -> bool {
        self.rent_periods(meta) > 0 ==> meta.rent_balance >= 0 && self.rent_expires_at(
            self.after_rent(meta),
        ) <= u64::MAX
    }

    /// Escrow `id`, if it is there and live, can be settled in machine integers.
    pub open spec fn rent_in_range(self, id: u64) -> bool {
        self.escrows.contains_key(id) && !self.rent_has_expired(self.escrows[id])
            ==> self.rent_fits(self.escrows[id])
    }

    /// Why escrow `id` cannot be accessed. An escrow whose rent has expired is as good as gone.
    pub open spec fn access_refusal(self, id: u64) -> Option<EscrowError> {
        if !self.escrows.contains_key(id) || self.rent_has_expired(self.escrows[id]) {
            Some(EscrowError::EscrowNotFound)
        } else {
            self.rent_refusal(self.escrows[id])
        }
    }

    /// The header of escrow `id` as an access finds it: its rent is settled first.
    pub open spec fn accessed_escrow(self, id: u64) -> EscrowMetaView {
        self.after_rent(self.escrows[id])
    }

    /// Escrow `id` is accessed: its rent is settled and its header stored.
    pub open spec fn accessing(self, id: u64) -> Ledger {
        self.touching_escrow(id).collecting_rent(self.escrows[id]).with_escrow(
            self.accessed_escrow(id),
        )
    }

    /// `payer` is charged `amount` for the rent reserve; nothing where there is nothing to pay.
    pub open spec fn charging_reserve(self, token: Address, payer: Address, amount: i128) -> Ledger {
        if amount <= 0 {
            self
        } else {
            self.transferring(token, payer, self.contract, amount)
        }
    }

    /// Why the reserve of `meta` cannot take in the rent of `entries` new entries.
    pub open spec fn entry_rent_refusal(self, meta: EscrowMetaView, entries: u32) -> Option<
        EscrowError,
    > {
        if meta.rent_balance + reserve_for(entries as int) > i128::MAX {
            Some(EscrowError::AmountMismatch)
        } else {
            None
        }
    }

    /// Why escrow `meta` cannot be wound up: what it holds does not fit an amount.
    pub open spec fn expiry_refusal(self, meta: EscrowMetaView) -> Option<EscrowError> {
        if i128::MIN <= meta.remaining_balance + meta.rent_balance <= i128::MAX {
            None
        } else {
            Some(EscrowError::AmountMismatch)
        }
    }

    /// Whether a slash of escrow `id` is held that nobody disputes or can dispute any more.
    pub open spec fn slash_is_final(self, id: u64) -> bool {
        let record = self.slashes[id];
        &&& self.slashes.contains_key(id)
        &&& !record.disputed
        &&& record.slashed_at + SLASH_DISPUTE_PERIOD <= self.now
    }

    /// Escrow `meta` is wound up: what it holds goes back to the client, a slash that is final
    /// goes to its recipient, and its entries go, as well as its places on the lists. A slash
    /// that is disputed, or still open to dispute, is paid to nobody.
    pub open spec fn expiring(self, meta: EscrowMetaView) -> Ledger {
        let id = meta.escrow_id;
        let refund = (meta.remaining_balance + meta.rent_balance) as i128;
        let refunded = if refund > 0 {
            self.transferring(meta.token, self.contract, meta.client, refund)
        } else {
            self
        };
        let record = self.slashes[id];
        let paid = if self.slash_is_final(id) {
            refunded.transferring(meta.token, self.contract, record.recipient, record.amount)
        } else {
            refunded
        };
        Ledger {
            milestones: self.milestones.remove_keys(
                Set::new(|k: (u64, u32)| k.0 == id && k.1 < meta.milestone_count),
            ),
            recurring: self.recurring.remove(id),
            cancellations: self.cancellations.remove(id),
            slashes: self.slashes.remove(id),
            escrows: self.escrows.remove(id),
            by_status: crate::ledger::index_dropped(self.by_status, meta.status, id),
            by_participant: crate::ledger::index_dropped(
                crate::ledger::index_dropped(self.by_participant, meta.client, id),
                meta.freelancer,
                id,
            ),
            cancellations_by_requester: if self.cancellations.contains_key(id) {
                crate::ledger::index_dropped(
                    self.cancellations_by_requester,
                    self.cancellations[id].requester,
                    id,
                )
            } else {
                self.cancellations_by_requester
            },
            ..paid
        }.publishing(
            Event::RentExpired { escrow_id: id, refund, remaining: meta.remaining_balance },
        )
    }

    /// Why rent of escrow `id` cannot be collected.
    pub open spec fn collect_refusal(self, id: u64) -> Option<EscrowError> {
        if self.admin is None {
            Some(EscrowError::NotInitialized)
        } else if !self.escrows.contains_key(id) {
            Some(EscrowError::EscrowNotFound)
        } else {
            let meta = self.escrows[id];
            let after = self.after_rent(meta);
            if self.rent_has_expired(after) {
                self.expiry_refusal(after)
            } else {
                None
            }
        }
    }

    /// Rent of escrow `id` is collected; where the reserve has run out, the escrow is wound up.
    pub open spec fn collected(self, id: u64) -> Ledger {
        let meta = self.escrows[id];
        let after = self.after_rent(meta);
        let paid = self.touching_instance().touching_escrow(id).collecting_rent(meta);
        if self.rent_has_expired(after) {
            paid.expiring(after)
        } else {
            paid.with_escrow(after)
        }
    }

    /// The books of escrow `id`, if it is there, can be settled in machine integers.
    pub open spec fn collect_in_range(self, id: u64) -> bool {
        self.escrows.contains_key(id) ==> self.rent_fits(self.escrows[id])
    }
}

// ---------------------------------------------------------------------------
// Arithmetic
// ---------------------------------------------------------------------------

/// An overdrawn reserve pays for no period.
proof fn lemma_overdrawn(s: Ledger, meta: EscrowMetaView)
    requires
        meta.rent_balance < 0,
    ensures
        s.rent_covered(meta) < 0,
{
    let rate = s.rent_due_per_period(meta);
    let balance = meta.rent_balance as int;
    assert(rate >= 1);
    assert(balance / rate < 0) by (nonlinear_arith)
        requires
            balance < 0,
            rate >= 1,
    ;
}

/// Collecting takes no more periods' worth than have passed.
pub proof fn lemma_rent(s: Ledger, meta: EscrowMetaView)
    requires
        meta.rent_balance >= 0,
    ensures
        1 <= s.rent_due_per_period(meta) <= u32::MAX + 4,
        0 <= s.rent_periods(meta) * RENT_PERIOD_SECONDS <= u64::MAX,
        s.rent_periods(meta) > 0 ==> meta.last_rent_collection_at + s.rent_periods(meta)
            * RENT_PERIOD_SECONDS <= s.now,
        0 <= s.rent_periods(meta) * s.rent_due_per_period(meta) <= i128::MAX,
        0 <= s.rent_collectable(meta) <= meta.rent_balance,
        0 <= s.rent_collectable(meta) / s.rent_due_per_period(meta) <= s.rent_periods(meta),
        s.rent_periods(meta) > 0 ==> meta.last_rent_collection_at + (s.rent_collectable(meta)
            / s.rent_due_per_period(meta)) * RENT_PERIOD_SECONDS <= s.now,
        0 <= s.rent_covered(meta) <= meta.rent_balance,
        s.after_rent(meta).rent_balance >= 0,
        s.rent_due_per_period(s.after_rent(meta)) == s.rent_due_per_period(meta),
        s.after_rent(meta).escrow_id == meta.escrow_id,
{
    let rate = s.rent_due_per_period(meta);
    let periods = s.rent_periods(meta);
    let taken = s.rent_collectable(meta);
    assert(0 <= periods <= u64::MAX as int / 86_400);
    assert(0 <= periods * rate <= 0x1_0000_0000_0000_0000 * 0x2_0000_0000) by (nonlinear_arith)
        requires
            0 <= periods <= 0x1_0000_0000_0000_0000,
            0 <= rate <= 0x2_0000_0000,
    ;
    let balance = meta.rent_balance as int;
    assert(0 <= balance / rate <= balance) by (nonlinear_arith)
        requires
            balance >= 0,
            rate >= 1,
    ;
    assert(0 <= taken / rate <= periods) by (nonlinear_arith)
        requires
            0 <= taken <= periods * rate,
            rate >= 1,
    ;
    assert((taken / rate) * 86_400 <= periods * 86_400);
}

// ---------------------------------------------------------------------------
// The functions
// ---------------------------------------------------------------------------

impl ContractStorage {
    /// The number of entries that an escrow occupies.
    pub fn active_storage_entries(env: &Env, meta: &EscrowMeta) -> (r: i128)
        ensures
            r == env@.active_storage_entries(meta@),
            1 <= r <= u32::MAX + 4,
    {
        let mut entries: i128 = 1 + meta.milestone_count as i128;
        if env.recurring.has(&meta.escrow_id) {
            entries = entries + 1;
        }
        if env.cancellations.has(&meta.escrow_id) {
            entries = entries + 1;
        }
        if env.slashes.has(&meta.escrow_id) {
            entries = entries + 1;
        }
        entries
    }

    /// What an escrow owes for one period.
    pub fn rent_due_per_period(env: &Env, meta: &EscrowMeta) -> (r: i128)
        ensures
            r == env@.rent_due_per_period(meta@),
            1 <= r <= u32::MAX + 4,
    {
        Self::active_storage_entries(env, meta) * RENT_PER_ENTRY_PER_PERIOD
    }

    /// The reserve that `entries` new entries are charged.
    pub fn reserve_for_entries(entries: i128) -> (r: i128)
        requires
            i128::MIN <= reserve_for(entries as int) <= i128::MAX,
        ensures
            r == reserve_for(entries as int),
    {
        entries * RENT_PER_ENTRY_PER_PERIOD * (RENT_RESERVE_PERIODS as i128)
    }

    /// The number of whole periods that have passed since rent was last collected.
    fn rent_periods(env: &Env, meta: &EscrowMeta) -> (r: u64)
        ensures
            r == env@.rent_periods(meta@),
    {
        if env.timestamp <= meta.last_rent_collection_at {
            0
        } else {
            (env.timestamp - meta.last_rent_collection_at) / RENT_PERIOD_SECONDS
        }
    }

    /// Whether more periods have passed than the reserve pays for.
    pub fn rent_has_expired(env: &Env, meta: &EscrowMeta) -> (r: bool)
        ensures
            r == env@.rent_has_expired(meta@),
    {
        let periods: u64 = Self::rent_periods(env, meta);
        if periods == 0 {
            return false;
        }
        let rate: i128 = Self::rent_due_per_period(env, meta);
        if meta.rent_balance < 0 {
            proof {
                lemma_overdrawn(env@, meta@);
            }
            return true;
        }
        periods as i128 > meta.rent_balance / rate
    }

    /// The moment at which the reserve will have run out.
    pub fn rent_expires_at(env: &Env, meta: &EscrowMeta) -> (r: u64)
        requires
            meta@.rent_balance >= 0,
            env@.rent_expires_at(meta@) <= u64::MAX,
        ensures
            r == env@.rent_expires_at(meta@),
    {
        proof {
            lemma_rent(env@, meta@);
        }
        let covered: i128 = meta.rent_balance / Self::rent_due_per_period(env, meta);
        let kept: i128 = covered % 0x1_0000_0000_0000_0000;
        let periods: u64 = kept as u64;
        meta.last_rent_collection_at + (periods + 1) * RENT_PERIOD_SECONDS
    }

    /// Whether the books of the rent of this header can be settled in machine integers.
    fn rent_fits(env: &Env, meta: &EscrowMeta) -> (r: bool)
        ensures
            r == env@.rent_fits(meta@),
    {
        if Self::rent_periods(env, meta) == 0 {
            return true;
        }
        if meta.rent_balance < 0 {
            return false;
        }
        proof {
            lemma_rent(env@, meta@);
        }
        let mut after: EscrowMeta = meta.copied();
        let taken: i128 = Self::deduct_rent(env, &mut after);
        let covered: i128 = after.rent_balance / Self::rent_due_per_period(env, &after);
        let kept: i128 = covered % 0x1_0000_0000_0000_0000;
        let end: i128 = after.last_rent_collection_at as i128 + (kept + 1) * 86_400;
        end <= u64::MAX as i128
    }

    /// Whether escrow `escrow_id`, if it is there and live, can be settled in machine integers.
    pub fn rent_in_range(env: &Env, escrow_id: u64) -> (r: bool)
        ensures
            r == env@.rent_in_range(escrow_id),
    {
        match env.escrows.get(&escrow_id) {
            None => true,
            Some(meta) => Self::rent_has_expired(env, meta) || Self::rent_fits(env, meta),
        }
    }

    /// Whether the books of escrow `escrow_id`, if it is there, can be settled in machine
    /// integers.
    pub fn collect_in_range(env: &Env, escrow_id: u64) -> (r: bool)
        ensures
            r == env@.collect_in_range(escrow_id),
    {
        match env.escrows.get(&escrow_id) {
            None => true,
            Some(meta) => Self::rent_fits(env, meta),
        }
    }

    /// Takes the rent due off the header, and says how much that is.
    fn deduct_rent(env: &Env, meta: &mut EscrowMeta) -> (r: i128)
        requires
            env@.rent_periods(old(meta)@) > 0 ==> old(meta)@.rent_balance >= 0,
        ensures
            env@.rent_periods(old(meta)@) > 0 ==> r == env@.rent_collectable(old(meta)@),
            env@.rent_periods(old(meta)@) == 0 ==> r == 0,
            final(meta)@ == env@.after_rent(old(meta)@),
    {
        let periods: u64 = Self::rent_periods(env, meta);
        if periods == 0 {
            return 0;
        }
        proof {
            lemma_rent(env@, meta@);
        }
        let rate: i128 = Self::rent_due_per_period(env, meta);
        let due: i128 = periods as i128 * rate;
        let taken: i128 = if due < meta.rent_balance { due } else { meta.rent_balance };
        let paid_periods: u64 = (taken / rate) as u64;
        meta.rent_balance = meta.rent_balance - taken;
        meta.last_rent_collection_at = meta.last_rent_collection_at + paid_periods
            * RENT_PERIOD_SECONDS;
        taken
    }

    /// Pays the rent due out to the admin and announces it.
    pub fn collect_rent_due(env: &mut Env, meta: &mut EscrowMeta) -> (r: Result<i128, EscrowError>)
        requires
            old(env)@.rent_fits(old(meta)@),
        ensures
            match old(env)@.rent_refusal(old(meta)@) {
                Some(e) => r == Err::<i128, _>(e) && final(env)@ == old(env)@ && final(meta)@
                    == old(meta)@,
                None => {
                    &&& r is Ok
                    &&& r->Ok_0 == (if old(env)@.rent_periods(old(meta)@) == 0 {
                        0
                    } else {
                        old(env)@.rent_collectable(old(meta)@)
                    })
                    &&& final(env)@ == old(env)@.collecting_rent(old(meta)@)
                    &&& final(meta)@ == old(env)@.after_rent(old(meta)@)
                },
            },
    {
        if Self::rent_periods(env, meta) == 0 {
            return Ok(0);
        }
        proof {
            lemma_rent(env@, meta@);
        }
        let mut after: EscrowMeta = meta.copied();
        let taken: i128 = Self::deduct_rent(env, &mut after);
        let expires_at: u64 = Self::rent_expires_at(env, &after);
        if taken > 0 {
            match env.admin {
                None => {
                    return Err(EscrowError::NotInitialized);
                },
                Some(admin) => {
                    let contract: Address = env.contract;
                    env.transfer(&meta.token, &contract, &admin, taken);
                },
            }
        }
        env.publish(
            Event::RentCollected {
                escrow_id: meta.escrow_id,
                collected: taken,
                balance: after.rent_balance,
                expires_at,
            },
        );
        meta.rent_balance = after.rent_balance;
        meta.last_rent_collection_at = after.last_rent_collection_at;
        Ok(taken)
    }

    /// The header of escrow `escrow_id` as an access finds it, with its rent settled. The
    /// ledger is left as it is: `settle_rent_for_access` makes the settlement.
    pub fn load_escrow_meta_with_rent(env: &Env, escrow_id: u64) -> (r: Result<
        EscrowMeta,
        EscrowError,
    >)
        requires
            env@.rent_in_range(escrow_id),
        ensures
            match env@.access_refusal(escrow_id) {
                Some(e) => r == Err::<EscrowMeta, _>(e),
                None => r is Ok && r->Ok_0@ == env@.accessed_escrow(escrow_id),
            },
    {
        let mut meta: EscrowMeta = match Self::load_escrow_meta(env, escrow_id) {
            Ok(meta) => meta,
            Err(e) => {
                return Err(e);
            },
        };
        if Self::rent_has_expired(env, &meta) {
            return Err(EscrowError::EscrowNotFound);
        }
        proof {
            if env@.rent_periods(meta@) > 0 {
                lemma_rent(env@, meta@);
            }
        }
        let taken: i128 = Self::deduct_rent(env, &mut meta);
        if taken > 0 && env.admin.is_none() {
            return Err(EscrowError::NotInitialized);
        }
        Ok(meta)
    }

    /// Settles the rent of escrow `escrow_id` and stores its header.
    pub fn settle_rent_for_access(env: &mut Env, escrow_id: u64)
        requires
            old(env)@.rent_in_range(escrow_id),
            old(env)@.access_refusal(escrow_id) is None,
        ensures
            final(env)@ == old(env)@.accessing(escrow_id),
    {
        let loaded: Result<EscrowMeta, EscrowError> = Self::load_escrow_meta(env, escrow_id);
        if let Ok(mut meta) = loaded {
            env.touch(EntryKey::Packed(PackedDataKey::EscrowMeta(escrow_id)));
            let ghost touched = env@;
            proof {
                assert(touched.rent_fits(meta@));
            }
            let _collected: Result<i128, EscrowError> = Self::collect_rent_due(env, &mut meta);
            Self::save_escrow_meta(env, meta);
        }
    }

    /// Charges `payer` for the rent reserve; nothing where there is nothing to pay.
    pub fn charge_rent_reserve(env: &mut Env, token: &Address, payer: &Address, amount: i128)
        ensures
            final(env)@ == old(env)@.charging_reserve(*token, *payer, amount),
    {
        if amount <= 0 {
            return;
        }
        let contract: Address = env.contract;
        env.transfer(token, payer, &contract, amount);
    }

    /// Checks that the reserve in the header has room for the rent of `entries` new entries.
    pub fn check_entry_rent(meta: &EscrowMeta, entries: u32) -> (r: Result<(), EscrowError>)
        ensures
            r == (if meta@.rent_balance + reserve_for(entries as int) > i128::MAX {
                Err(EscrowError::AmountMismatch)
            } else {
                Ok(())
            }),
    {
        let amount: i128 = Self::reserve_for_entries(entries as i128);
        match meta.rent_balance.checked_add(amount) {
            Some(_) => Ok(()),
            None => Err(EscrowError::AmountMismatch),
        }
    }

    /// Charges `payer` the rent of `entries` new entries. The reserve in the header must have
    /// room for it.
    pub fn charge_entry_rent(env: &mut Env, meta: &mut EscrowMeta, payer: &Address, entries: u32)
        requires
            old(meta)@.rent_balance + reserve_for(entries as int) <= i128::MAX,
        ensures
            final(env)@ == old(env)@.charging_reserve(
                old(meta)@.token,
                *payer,
                reserve_for(entries as int) as i128,
            ),
            final(meta)@ == (EscrowMetaView {
                rent_balance: (old(meta)@.rent_balance + reserve_for(entries as int)) as i128,
                ..old(meta)@
            }),
    {
        let amount: i128 = Self::reserve_for_entries(entries as i128);
        Self::charge_rent_reserve(env, &meta.token, payer, amount);
        meta.rent_balance = meta.rent_balance + amount;
    }

    /// Winds an escrow up: what it holds goes back to the client, and its entries go.
    fn expire_escrow(env: &mut Env, meta: &EscrowMeta)
        requires
            old(env)@.expiry_refusal(meta@) is None,
        ensures
            final(env)@ == old(env)@.expiring(meta@),
    {
        let refund: i128 = meta.remaining_balance + meta.rent_balance;
        if refund > 0 {
            let contract: Address = env.contract;
            env.transfer(&meta.token, &contract, &meta.client, refund);
        }
        let id: u64 = meta.escrow_id;
        let contract: Address = env.contract;
        let held: Option<(Address, i128)> = match env.slashes.get(&id) {
            Some(record) => if !record.disputed && env.timestamp >= SLASH_DISPUTE_PERIOD
                && record.slashed_at <= env.timestamp - SLASH_DISPUTE_PERIOD {
                Some((record.recipient, record.amount))
            } else {
                None
            },
            None => None,
        };
        if let Some((recipient, amount)) = held {
            env.transfer(&meta.token, &contract, &recipient, amount);
        }
        let requester: Option<Address> = match env.cancellations.get(&id) {
            Some(request) => Some(request.requester),
            None => None,
        };
        if let Some(who) = requester {
            remove_from_vec_index(&mut env.cancellations_by_requester, who, id);
        }
        remove_from_vec_index(&mut env.by_status, meta.status, id);
        remove_from_vec_index(&mut env.by_participant, meta.client, id);
        remove_from_vec_index(&mut env.by_participant, meta.freelancer, id);
        let ghost paid = env@;
        let mut mid: u32 = 0;
        assert(env@.milestones =~= paid.milestones.remove_keys(
            Set::new(|k: (u64, u32)| k.0 == id && k.1 < 0),
        ));
        while mid < meta.milestone_count
            invariant
                mid <= meta.milestone_count,
                env@ == (Ledger {
                    milestones: paid.milestones.remove_keys(
                        Set::new(|k: (u64, u32)| k.0 == id && k.1 < mid),
                    ),
                    ..paid
                }),
            decreases meta.milestone_count - mid,
        {
            env.milestones.remove(&(id, mid));
            assert(env@.milestones =~= paid.milestones.remove_keys(
                Set::new(|k: (u64, u32)| k.0 == id && k.1 < mid + 1),
            ));
            mid = mid + 1;
        }
        env.recurring.remove(&id);
        env.cancellations.remove(&id);
        env.slashes.remove(&id);
        env.escrows.remove(&id);
        env.publish(
            Event::RentExpired { escrow_id: id, refund, remaining: meta.remaining_balance },
        );
        assert(env@.milestones =~= old(env)@.expiring(meta@).milestones);
    }

    /// Collects the rent of escrow `escrow_id`; where the reserve has run out, winds it up.
    pub fn collect_rent(env: &mut Env, escrow_id: u64) -> (r: Result<i128, EscrowError>)
        requires
            old(env)@.collect_in_range(escrow_id),
        ensures
            match old(env)@.collect_refusal(escrow_id) {
                Some(e) => r == Err::<i128, _>(e) && final(env)@ == old(env)@,
                None => {
                    let meta = old(env)@.escrows[escrow_id];
                    &&& r is Ok
                    &&& r->Ok_0 == (if old(env)@.rent_periods(meta) == 0 {
                        0
                    } else {
                        old(env)@.rent_collectable(meta)
                    })
                    &&& final(env)@ == old(env)@.collected(escrow_id)
                },
            },
    {
        if env.admin.is_none() {
            return Err(EscrowError::NotInitialized);
        }
        let mut meta: EscrowMeta = match Self::load_escrow_meta(env, escrow_id) {
            Ok(meta) => meta,
            Err(e) => {
                return Err(e);
            },
        };
        proof {
            if env@.rent_periods(meta@) > 0 {
                lemma_rent(env@, meta@);
            }
        }
        let mut after: EscrowMeta = meta.copied();
        let _taken: i128 = Self::deduct_rent(env, &mut after);
        let expired: bool = Self::rent_has_expired(env, &after);
        if expired && after.remaining_balance.checked_add(after.rent_balance).is_none() {
            return Err(EscrowError::AmountMismatch);
        }
        env.touch_instance();
        env.touch(EntryKey::Packed(PackedDataKey::EscrowMeta(escrow_id)));
        assert(env@.rent_fits(meta@));
        let collected: Result<i128, EscrowError> = Self::collect_rent_due(env, &mut meta);
        if expired {
            Self::expire_escrow(env, &meta);
        } else {
            Self::save_escrow_meta(env, meta);
        }
        collected
    }
}

} // verus!
