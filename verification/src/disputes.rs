//! Disputes: raising them, and resolving them by the arbiter, the admin or a signed oracle
//! payload.
use vstd::prelude::*;

use crate::contract::EscrowContract;
use crate::errors::EscrowError;
use crate::ledger::{EntryKey, Env, Event, HostCall, Ledger};
use crate::reputation::divide;
use crate::storage::ContractStorage;
use crate::types::{
    same_bytes, Address, EscrowMeta, EscrowMetaView, EscrowStatus, Milestone, MilestoneView,
    OracleResolutionPayload, PackedDataKey, Text, MS_DISPUTED, MS_PENDING, MS_SUBMITTED,
};

verus! {

/// The whole of a payout, in basis points.
pub const WHOLE_BPS: u32 = 10_000;

// ---------------------------------------------------------------------------
// The model
// ---------------------------------------------------------------------------

/// Whether `who` is the client or the freelancer of this escrow.
pub open spec fn is_party(meta: EscrowMetaView, who: Address) -> bool {
    who == meta.client || who == meta.freelancer
}

/// The first `n` bytes of `x`, the least significant first.
pub open spec fn le_bytes(x: int, n: nat) -> Seq<u8>
    decreases n,
{
    if n == 0 {
        Seq::empty()
    } else {
        seq![(x % 256) as u8] + le_bytes(x / 256, (n - 1) as nat)
    }
}

/// The message that the oracle signs: the escrow, the two shares and the expiry.
pub open spec fn resolution_message(payload: OracleResolutionPayload) -> Seq<u8> {
    le_bytes(payload.escrow_id as int, 8) + le_bytes(payload.client_bps as int, 4) + le_bytes(
        payload.freelancer_bps as int,
        4,
    ) + le_bytes(payload.expires_at as int, 8)
}

/// The client's share of `total`, rounded toward zero. The freelancer gets the rest.
pub open spec fn client_share(total: i128, client_bps: u32) -> int {
    crate::reputation::quotient(total * client_bps, WHOLE_BPS as int)
}

impl Ledger {
    /// Why a dispute cannot be raised.
    pub open spec fn raise_dispute_refusal(
        self,
        caller: Address,
        id: u64,
        milestone_id: Option<u32>,
    ) -> Option<EscrowError> {
        let meta = self.accessed_escrow(id);
        if self.is_paused() {
            Some(EscrowError::ContractPaused)
        } else if self.access_refusal(id) is Some {
            self.access_refusal(id)
        } else if !is_party(meta, caller) {
            Some(EscrowError::Unauthorized)
        } else if meta.status == EscrowStatus::Disputed {
            Some(EscrowError::DisputeAlreadyExists)
        } else if meta.status != EscrowStatus::Active {
            Some(EscrowError::EscrowNotActive)
        } else if milestone_id is Some && !self.milestones.contains_key((id, milestone_id->0)) {
            Some(EscrowError::MilestoneNotFound)
        } else {
            None
        }
    }

    /// Milestone `mid` is disputed, where work on it is pending or submitted. A submitted one
    /// no longer counts as submitted.
    pub open spec fn disputing_milestone(self, caller: Address, id: u64, mid: u32) -> Ledger {
        let m = self.milestones[(id, mid)];
        let read = self.touching_milestone(id, mid);
        if m.status != MS_SUBMITTED && m.status != MS_PENDING {
            read
        } else {
            let stored = read.with_milestone(
                id,
                MilestoneView { status: MS_DISPUTED, resolved_at: Some(self.now), ..m },
            );
            let meta = self.escrows[id];
            let counted = if m.status == MS_SUBMITTED {
                stored.touching_escrow(id).with_escrow(
                    EscrowMetaView {
                        submitted_count: crate::milestones::one_less(meta.submitted_count),
                        ..meta
                    },
                )
            } else {
                stored
            };
            counted.publishing(
                Event::MilestoneDisputed { escrow_id: id, milestone_id: mid, by: caller },
            )
        }
    }

    /// A dispute is raised, and with it a dispute over one milestone if one was named.
    pub open spec fn raise_dispute_done(
        self,
        caller: Address,
        id: u64,
        milestone_id: Option<u32>,
    ) -> Ledger {
        let raised = self.demanding(caller).accessing(id).with_escrow(
            EscrowMetaView {
                status: EscrowStatus::Disputed,
                dispute_start_ledger: Some(self.now),
                ..self.accessed_escrow(id)
            },
        ).publishing(Event::DisputeRaised { escrow_id: id, by: caller }).relisting(
            EscrowStatus::Active,
            EscrowStatus::Disputed,
            id,
        );
        match milestone_id {
            None => raised,
            Some(mid) => raised.disputing_milestone(caller, id, mid),
        }
    }

    /// Why `caller` may not settle a dispute over this escrow: they are neither its arbiter nor
    /// the admin.
    pub open spec fn judge_refusal(self, meta: EscrowMetaView, caller: Address) -> Option<
        EscrowError,
    > {
        if meta.arbiter == Some(caller) {
            None
        } else {
            self.admin_refusal(caller)
        }
    }

    /// Settling a dispute keeps the contract instance alive where the admin does it.
    pub open spec fn touching_for_judge(self, meta: EscrowMetaView, caller: Address) -> Ledger {
        if meta.arbiter == Some(caller) {
            self
        } else {
            self.touching_instance()
        }
    }

    /// Why `caller` cannot resolve a dispute at all, whatever the shares.
    pub open spec fn resolver_refusal(self, caller: Address, id: u64) -> Option<EscrowError> {
        let meta = self.accessed_escrow(id);
        if self.is_paused() {
            Some(EscrowError::ContractPaused)
        } else if self.access_refusal(id) is Some {
            self.access_refusal(id)
        } else if self.judge_refusal(meta, caller) is Some {
            self.judge_refusal(meta, caller)
        } else if meta.status != EscrowStatus::Disputed {
            Some(EscrowError::EscrowNotDisputed)
        } else {
            None
        }
    }

    /// Why a dispute cannot be resolved with these shares.
    pub open spec fn resolve_dispute_refusal(
        self,
        caller: Address,
        id: u64,
        client_amount: i128,
        freelancer_amount: i128,
    ) -> Option<EscrowError> {
        if self.resolver_refusal(caller, id) is Some {
            self.resolver_refusal(caller, id)
        } else if client_amount < 0 || freelancer_amount < 0 || client_amount + freelancer_amount
            != self.accessed_escrow(id).remaining_balance {
            Some(EscrowError::AmountMismatch)
        } else {
            None
        }
    }

    /// The sum of the shares is an amount, and the parties' reputations have room for the
    /// dispute.
    pub open spec fn resolve_in_range(
        self,
        caller: Address,
        id: u64,
        client_amount: i128,
        freelancer_amount: i128,
    ) -> bool {
        let meta = self.accessed_escrow(id);
        &&& self.resolver_refusal(caller, id) is None && client_amount >= 0 && freelancer_amount
            >= 0 ==> crate::recurring::is_amount(client_amount + freelancer_amount)
        &&& self.resolve_dispute_refusal(caller, id, client_amount, freelancer_amount) is None
            ==> self.dispute_in_range(meta.client, meta.freelancer)
    }

    /// The remaining balance is paid out in two shares, the escrow is complete, and the dispute
    /// shows in both parties' reputations.
    pub open spec fn paying_shares(
        self,
        id: u64,
        meta: EscrowMetaView,
        client_amount: i128,
        freelancer_amount: i128,
    ) -> Ledger {
        let to_client = if client_amount > 0 {
            self.transferring(meta.token, self.contract, meta.client, client_amount)
        } else {
            self
        };
        let to_both = if freelancer_amount > 0 {
            to_client.transferring(meta.token, self.contract, meta.freelancer, freelancer_amount)
        } else {
            to_client
        };
        to_both.with_escrow(
            EscrowMetaView { remaining_balance: 0, status: EscrowStatus::Completed, ..meta },
        ).relisting(EscrowStatus::Disputed, EscrowStatus::Completed, id).publishing(
            Event::DisputeResolved { escrow_id: id, client_amount, freelancer_amount },
        ).updating_reputation(meta.client, false, true, client_amount).updating_reputation(
            meta.freelancer,
            false,
            true,
            freelancer_amount,
        )
    }

    /// A dispute is resolved with the given shares.
    pub open spec fn resolve_dispute_done(
        self,
        caller: Address,
        id: u64,
        client_amount: i128,
        freelancer_amount: i128,
    ) -> Ledger {
        let meta = self.accessed_escrow(id);
        self.demanding(caller).accessing(id).touching_for_judge(meta, caller).paying_shares(
            id,
            meta,
            client_amount,
            freelancer_amount,
        )
    }

    /// Why a dispute cannot be resolved by the oracle's payload. A payload for another escrow is
    /// not signed for this one. Whether the signature verifies is for the host to say.
    pub open spec fn oracle_resolve_refusal(
        self,
        id: u64,
        payload: OracleResolutionPayload,
        grace_period_seconds: u64,
    ) -> Option<EscrowError> {
        let meta = self.accessed_escrow(id);
        if self.is_paused() {
            Some(EscrowError::ContractPaused)
        } else if self.access_refusal(id) is Some {
            self.access_refusal(id)
        } else if meta.status != EscrowStatus::Disputed {
            Some(EscrowError::EscrowNotDisputed)
        } else if meta.dispute_start_ledger is None {
            Some(EscrowError::DisputeStartNotRecorded)
        } else if self.now < u64::MAX && self.now < meta.dispute_start_ledger->0
            + grace_period_seconds {
            Some(EscrowError::GracePeriodNotElapsed)
        } else if self.now > payload.expires_at {
            Some(EscrowError::OraclePayloadStale)
        } else if payload.client_bps + payload.freelancer_bps != WHOLE_BPS {
            Some(EscrowError::OraclePayoutInvalid)
        } else if self.trusted_oracle_key is None {
            Some(EscrowError::OracleNotConfigured)
        } else if payload.escrow_id != id || payload.oracle_pubkey
            != self.trusted_oracle_key->0 {
            Some(EscrowError::OracleSignatureInvalid)
        } else {
            None
        }
    }

    /// The shares can be computed, and the parties' reputations have room for the dispute.
    pub open spec fn oracle_in_range(
        self,
        id: u64,
        payload: OracleResolutionPayload,
        grace_period_seconds: u64,
    ) -> bool {
        let meta = self.accessed_escrow(id);
        self.oracle_resolve_refusal(id, payload, grace_period_seconds) is None ==> {
            &&& crate::recurring::is_amount(meta.remaining_balance * payload.client_bps)
            &&& self.dispute_in_range(meta.client, meta.freelancer)
        }
    }

    /// A dispute is resolved by the oracle's payload, provided that its signature verifies.
    pub open spec fn oracle_resolve_done(self, id: u64, payload: OracleResolutionPayload) -> Ledger {
        let meta = self.accessed_escrow(id);
        let share = client_share(meta.remaining_balance, payload.client_bps);
        self.accessing(id).calling(
            HostCall::VerifySignature {
                public_key: payload.oracle_pubkey,
                message: resolution_message(payload),
                signature: payload.signature,
            },
        ).paying_shares(id, meta, share as i128, (meta.remaining_balance - share) as i128)
    }
}

/// The client's share lies between nothing and the total.
pub proof fn lemma_client_share(total: i128, client_bps: u32)
    requires
        client_bps <= WHOLE_BPS,
    ensures
        total >= 0 ==> 0 <= client_share(total, client_bps) <= total,
        total <= 0 ==> total <= client_share(total, client_bps) <= 0,
{
    let t = total as int;
    let b = client_bps as int;
    assert(t >= 0 ==> 0 <= t * b <= t * 10_000) by (nonlinear_arith)
        requires
            0 <= b <= 10_000,
    ;
    assert(t <= 0 ==> t * 10_000 <= t * b <= 0) by (nonlinear_arith)
        requires
            0 <= b <= 10_000,
    ;
}

// ---------------------------------------------------------------------------
// The entry points
// ---------------------------------------------------------------------------

/// Adds the first `n` bytes of `x` to `bytes`, the least significant first.
fn push_le_bytes(bytes: &mut Vec<u8>, x: u64, n: u32)
    ensures
        final(bytes)@ == old(bytes)@ + le_bytes(x as int, n as nat),
    decreases n,
{
    if n > 0 {
        bytes.push((x % 256) as u8);
        push_le_bytes(bytes, x / 256, n - 1);
        assert(bytes@ =~= old(bytes)@ + le_bytes(x as int, n as nat));
    } else {
        assert(bytes@ =~= old(bytes)@ + le_bytes(x as int, n as nat));
    }
}

/// The message that the oracle signs.
fn message_of(payload: &OracleResolutionPayload) -> (r: Text)
    ensures
        r@ == resolution_message(*payload),
{
    let mut message: Text = Vec::new();
    push_le_bytes(&mut message, payload.escrow_id, 8);
    push_le_bytes(&mut message, payload.client_bps as u64, 4);
    push_le_bytes(&mut message, payload.freelancer_bps as u64, 4);
    push_le_bytes(&mut message, payload.expires_at, 8);
    assert(message@ =~= resolution_message(*payload));
    message
}

impl EscrowContract {
    /// The client or the freelancer raises a dispute, which freezes the escrow.
    pub fn raise_dispute(
        env: &mut Env,
        caller: Address,
        escrow_id: u64,
        milestone_id: Option<u32>,
    ) -> (r: Result<(), EscrowError>)
        requires
            old(env)@.rent_in_range(escrow_id),
        ensures
            match old(env)@.raise_dispute_refusal(caller, escrow_id, milestone_id) {
                Some(e) => r == Err::<(), _>(e) && final(env)@ == old(env)@.demanding(caller),
                None => r == Ok::<_, EscrowError>(()) && final(env)@
                    == old(env)@.raise_dispute_done(caller, escrow_id, milestone_id),
            },
    {
        env.require_auth(&caller);
        ContractStorage::require_not_paused(env)?;
        let mut meta: EscrowMeta = ContractStorage::load_escrow_meta_with_rent(env, escrow_id)?;
        if !caller.same(&meta.client) && !caller.same(&meta.freelancer) {
            return Err(EscrowError::Unauthorized);
        }
        if meta.status == EscrowStatus::Disputed {
            return Err(EscrowError::DisputeAlreadyExists);
        }
        if meta.status != EscrowStatus::Active {
            return Err(EscrowError::EscrowNotActive);
        }
        if let Some(mid) = milestone_id {
            if !env.milestones.has(&(escrow_id, mid)) {
                return Err(EscrowError::MilestoneNotFound);
            }
        }

        ContractStorage::settle_rent_for_access(env, escrow_id);
        meta.status = EscrowStatus::Disputed;
        meta.dispute_start_ledger = Some(env.timestamp);
        ContractStorage::save_escrow_meta(env, meta);
        env.publish(Event::DisputeRaised { escrow_id, by: caller });
        ContractStorage::relist(env, EscrowStatus::Active, EscrowStatus::Disputed, escrow_id);
        if let Some(mid) = milestone_id {
            Self::dispute_milestone(env, caller, escrow_id, mid);
        }
        Ok(())
    }

    /// Marks milestone `milestone_id` as disputed, where work on it is pending or submitted.
    fn dispute_milestone(env: &mut Env, caller: Address, escrow_id: u64, milestone_id: u32)
        requires
            old(env)@.milestones.contains_key((escrow_id, milestone_id)),
            old(env)@.escrows.contains_key(escrow_id),
        ensures
            final(env)@ == old(env)@.disputing_milestone(caller, escrow_id, milestone_id),
    {
        let loaded: Result<Milestone, EscrowError> = ContractStorage::load_milestone(
            env,
            escrow_id,
            milestone_id,
        );
        if let Ok(mut milestone) = loaded {
            env.touch(EntryKey::Packed(PackedDataKey::Milestone(escrow_id, milestone_id)));
            let was_submitted: bool = milestone.status == MS_SUBMITTED;
            if was_submitted || milestone.status == MS_PENDING {
                milestone.status = MS_DISPUTED;
                milestone.resolved_at = Some(env.timestamp);
                ContractStorage::save_milestone(env, escrow_id, milestone);
                if was_submitted {
                    let reloaded: Result<EscrowMeta, EscrowError> =
                        ContractStorage::load_escrow_meta(env, escrow_id);
                    if let Ok(mut meta) = reloaded {
                        env.touch(EntryKey::Packed(PackedDataKey::EscrowMeta(escrow_id)));
                        meta.submitted_count = meta.submitted_count.saturating_sub(1);
                        ContractStorage::save_escrow_meta(env, meta);
                    }
                }
                env.publish(Event::MilestoneDisputed { escrow_id, milestone_id, by: caller });
            }
        }
    }

    /// Checks that `caller` may settle a dispute over this escrow.
    pub(crate) fn require_judge(env: &Env, meta: &EscrowMeta, caller: &Address) -> (r: Result<
        bool,
        EscrowError,
    >)
        ensures
            match env@.judge_refusal(meta@, *caller) {
                Some(e) => r == Err::<bool, _>(e),
                None => r == Ok::<_, EscrowError>(meta@.arbiter == Some(*caller)),
            },
    {
        let is_arbiter: bool = match meta.arbiter {
            Some(arbiter) => arbiter.same(caller),
            None => false,
        };
        if !is_arbiter {
            ContractStorage::require_admin(env, caller)?;
        }
        Ok(is_arbiter)
    }

    /// Whether the sum of the shares is an amount, and the parties' reputations have room for
    /// the dispute.
    pub fn resolve_in_range(
        env: &Env,
        caller: &Address,
        escrow_id: u64,
        client_amount: i128,
        freelancer_amount: i128,
    ) -> (r: bool)
        requires
            env@.rent_in_range(escrow_id),
        ensures
            r == env@.resolve_in_range(*caller, escrow_id, client_amount, freelancer_amount),
    {
        match Self::disputed_escrow(env, caller, escrow_id) {
            Err(_) => true,
            Ok(meta) => {
                if client_amount < 0 || freelancer_amount < 0 {
                    return true;
                }
                match client_amount.checked_add(freelancer_amount) {
                    None => false,
                    Some(sum) => sum != meta.remaining_balance || Self::dispute_in_range(
                        env,
                        &meta.client,
                        &meta.freelancer,
                    ),
                }
            },
        }
    }

    /// The header of escrow `escrow_id`, where a dispute over it is for `caller` to settle.
    fn disputed_escrow(env: &Env, caller: &Address, escrow_id: u64) -> (r: Result<
        EscrowMeta,
        EscrowError,
    >)
        requires
            env@.rent_in_range(escrow_id),
        ensures
            match env@.resolver_refusal(*caller, escrow_id) {
                Some(e) => r == Err::<EscrowMeta, _>(e),
                None => r is Ok && r->Ok_0@ == env@.accessed_escrow(escrow_id),
            },
    {
        ContractStorage::require_not_paused(env)?;
        let meta: EscrowMeta = ContractStorage::load_escrow_meta_with_rent(env, escrow_id)?;
        Self::require_judge(env, &meta, caller)?;
        if meta.status != EscrowStatus::Disputed {
            return Err(EscrowError::EscrowNotDisputed);
        }
        Ok(meta)
    }

    /// The arbiter or the admin resolves a dispute by splitting the remaining balance.
    pub fn resolve_dispute(
        env: &mut Env,
        caller: Address,
        escrow_id: u64,
        client_amount: i128,
        freelancer_amount: i128,
    ) -> (r: Result<(), EscrowError>)
        requires
            old(env)@.rent_in_range(escrow_id),
            old(env)@.resolve_in_range(caller, escrow_id, client_amount, freelancer_amount),
        ensures
            match old(env)@.resolve_dispute_refusal(
                caller,
                escrow_id,
                client_amount,
                freelancer_amount,
            ) {
                Some(e) => r == Err::<(), _>(e) && final(env)@ == old(env)@.demanding(caller),
                None => r == Ok::<_, EscrowError>(()) && final(env)@
                    == old(env)@.resolve_dispute_done(
                    caller,
                    escrow_id,
                    client_amount,
                    freelancer_amount,
                ),
            },
    {
        env.require_auth(&caller);
        let meta: EscrowMeta = Self::disputed_escrow(env, &caller, escrow_id)?;
        if client_amount < 0 || freelancer_amount < 0 || client_amount + freelancer_amount
            != meta.remaining_balance {
            return Err(EscrowError::AmountMismatch);
        }
        let is_arbiter: bool = Self::require_judge(env, &meta, &caller)?;

        ContractStorage::settle_rent_for_access(env, escrow_id);
        if !is_arbiter {
            env.touch_instance();
        }
        Self::pay_shares(env, escrow_id, meta, client_amount, freelancer_amount);
        Ok(())
    }

    /// Pays the remaining balance out in two shares and completes the escrow.
    fn pay_shares(
        env: &mut Env,
        escrow_id: u64,
        meta: EscrowMeta,
        client_amount: i128,
        freelancer_amount: i128,
    )
        requires
            old(env)@.dispute_in_range(meta@.client, meta@.freelancer),
        ensures
            final(env)@ == old(env)@.paying_shares(
                escrow_id,
                meta@,
                client_amount,
                freelancer_amount,
            ),
    {
        let mut meta: EscrowMeta = meta;
        let client: Address = meta.client;
        let freelancer: Address = meta.freelancer;
        let contract: Address = env.contract;
        if client_amount > 0 {
            env.transfer(&meta.token, &contract, &client, client_amount);
        }
        if freelancer_amount > 0 {
            env.transfer(&meta.token, &contract, &freelancer, freelancer_amount);
        }
        meta.remaining_balance = 0;
        meta.status = EscrowStatus::Completed;
        ContractStorage::save_escrow_meta(env, meta);
        ContractStorage::relist(env, EscrowStatus::Disputed, EscrowStatus::Completed, escrow_id);
        env.publish(Event::DisputeResolved { escrow_id, client_amount, freelancer_amount });
        Self::update_reputation_internal(env, &client, false, true, client_amount);
        Self::update_reputation_internal(env, &freelancer, false, true, freelancer_amount);
    }

    /// Checks everything about the oracle's payload but its signature, and gives the header of
    /// the escrow.
    fn oracle_escrow(
        env: &Env,
        escrow_id: u64,
        payload: &OracleResolutionPayload,
        grace_period_seconds: u64,
    ) -> (r: Result<EscrowMeta, EscrowError>)
        requires
            env@.rent_in_range(escrow_id),
        ensures
            match env@.oracle_resolve_refusal(escrow_id, *payload, grace_period_seconds) {
                Some(e) => r == Err::<EscrowMeta, _>(e),
                None => r is Ok && r->Ok_0@ == env@.accessed_escrow(escrow_id),
            },
    {
        ContractStorage::require_not_paused(env)?;
        let meta: EscrowMeta = ContractStorage::load_escrow_meta_with_rent(env, escrow_id)?;
        if meta.status != EscrowStatus::Disputed {
            return Err(EscrowError::EscrowNotDisputed);
        }
        let dispute_start: u64 = match meta.dispute_start_ledger {
            Some(at) => at,
            None => {
                return Err(EscrowError::DisputeStartNotRecorded);
            },
        };
        if env.timestamp < dispute_start.saturating_add(grace_period_seconds) {
            return Err(EscrowError::GracePeriodNotElapsed);
        }
        if env.timestamp > payload.expires_at {
            return Err(EscrowError::OraclePayloadStale);
        }
        if payload.client_bps.saturating_add(payload.freelancer_bps) != WHOLE_BPS {
            return Err(EscrowError::OraclePayoutInvalid);
        }
        let trusted_key: [u8; 32] = match env.trusted_oracle_key {
            Some(key) => key,
            None => {
                return Err(EscrowError::OracleNotConfigured);
            },
        };
        if payload.escrow_id != escrow_id || !same_bytes(&payload.oracle_pubkey, &trusted_key) {
            return Err(EscrowError::OracleSignatureInvalid);
        }
        Ok(meta)
    }

    /// Whether the shares can be computed, and the parties' reputations have room for the
    /// dispute.
    pub fn oracle_in_range(
        env: &Env,
        escrow_id: u64,
        payload: &OracleResolutionPayload,
        grace_period_seconds: u64,
    ) -> (r: bool)
        requires
            env@.rent_in_range(escrow_id),
        ensures
            r == env@.oracle_in_range(escrow_id, *payload, grace_period_seconds),
    {
        match Self::oracle_escrow(env, escrow_id, payload, grace_period_seconds) {
            Err(_) => true,
            Ok(meta) => {
                meta.remaining_balance.checked_mul(payload.client_bps as i128).is_some()
                    && Self::dispute_in_range(env, &meta.client, &meta.freelancer)
            },
        }
    }

    /// Resolves a stalled dispute by a payload that the trusted oracle signed. Anyone may call
    /// this once the grace period since the dispute was raised is over. The payload must be for
    /// this escrow and not stale, its shares must add up to the whole, and the host must find
    /// its signature valid.
    pub fn oracle_resolve_dispute(
        env: &mut Env,
        escrow_id: u64,
        payload: OracleResolutionPayload,
        grace_period_seconds: u64,
    ) -> (r: Result<(), EscrowError>)
        requires
            old(env)@.rent_in_range(escrow_id),
            old(env)@.oracle_in_range(escrow_id, payload, grace_period_seconds),
        ensures
            match old(env)@.oracle_resolve_refusal(escrow_id, payload, grace_period_seconds) {
                Some(e) => r == Err::<(), _>(e) && final(env)@ == old(env)@,
                None => r == Ok::<_, EscrowError>(()) && final(env)@
                    == old(env)@.oracle_resolve_done(escrow_id, payload),
            },
    {
        let meta: EscrowMeta = Self::oracle_escrow(
            env,
            escrow_id,
            &payload,
            grace_period_seconds,
        )?;
        let total: i128 = meta.remaining_balance;
        proof {
            lemma_client_share(total, payload.client_bps);
        }
        let client_amount: i128 = divide(
            total * (payload.client_bps as i128),
            WHOLE_BPS as i128,
        );
        let freelancer_amount: i128 = total - client_amount;

        ContractStorage::settle_rent_for_access(env, escrow_id);
        env.call(
            HostCall::VerifySignature {
                public_key: payload.oracle_pubkey,
                message: message_of(&payload),
                signature: payload.signature,
            },
        );
        Self::pay_shares(env, escrow_id, meta, client_amount, freelancer_amount);
        Ok(())
    }
}

} // verus!
