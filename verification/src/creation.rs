//! Creating escrows.
use vstd::prelude::*;

use crate::contract::EscrowContract;
use crate::errors::EscrowError;
use crate::ledger::{Env, Event, Ledger};
use crate::storage::ContractStorage;
use crate::types::{
    lists_address, Address, EscrowMeta, EscrowMetaView, EscrowStatus, MultisigConfig,
    MultisigConfigView, OptionalTimelock, RecurringInterval, RecurringPaymentConfig, Timelock,
};

verus! {

// ---------------------------------------------------------------------------
// The model
// ---------------------------------------------------------------------------

/// The buyer signers of an escrow: those named, and the client in any case.
pub open spec fn signers_with(signers: Seq<Address>, client: Address) -> Seq<Address> {
    if signers.contains(client) {
        signers
    } else {
        signers.push(client)
    }
}

/// The header of an escrow as it is created.
pub open spec fn new_escrow(
    id: u64,
    client: Address,
    freelancer: Address,
    token: Address,
    total_amount: i128,
    brief_hash: [u8; 32],
    arbiter: Option<Address>,
    deadline: Option<u64>,
    lock_time: Option<u64>,
    buyer_signers: Seq<Address>,
    multisig: MultisigConfigView,
    rent_balance: i128,
    now: u64,
) -> EscrowMetaView {
    EscrowMetaView {
        escrow_id: id,
        client,
        freelancer,
        token,
        total_amount,
        allocated_amount: 0,
        remaining_balance: total_amount,
        status: EscrowStatus::Active,
        milestone_count: 0,
        approved_count: 0,
        released_count: 0,
        submitted_count: 0,
        arbiter,
        buyer_signers,
        multisig,
        created_at: now,
        deadline,
        lock_time,
        lock_time_extension: None,
        timelock: OptionalTimelock::Absent,
        brief_hash,
        rent_balance,
        last_rent_collection_at: now,
        dispute_start_ledger: None,
    }
}

/// A schedule as it is created.
pub open spec fn new_schedule(
    interval: RecurringInterval,
    payment_amount: i128,
    start_time: u64,
    end_date: Option<u64>,
    total_payments: u32,
) -> RecurringPaymentConfig {
    RecurringPaymentConfig {
        interval,
        payment_amount,
        start_time,
        next_payment_at: start_time,
        end_date,
        total_payments,
        payments_remaining: total_payments,
        processed_payments: 0,
        paused: false,
        cancelled: false,
        paused_at: None,
        last_payment_at: None,
    }
}

impl Ledger {
    /// Why `token` cannot be used in an escrow: it is a wrapped token that is not approved.
    pub open spec fn token_refusal(self, token: Address) -> Option<EscrowError> {
        if self.wrapped_tokens.contains_key(token) && !self.wrapped_tokens[token].is_approved {
            Some(EscrowError::BridgeError)
        } else {
            None
        }
    }

    /// Why an escrow cannot be created.
    pub open spec fn create_escrow_refusal(
        self,
        token: Address,
        total_amount: i128,
        deadline: Option<u64>,
        lock_time: Option<u64>,
    ) -> Option<EscrowError> {
        if self.admin is None {
            Some(EscrowError::NotInitialized)
        } else if self.is_paused() {
            Some(EscrowError::ContractPaused)
        } else if total_amount <= 0 {
            Some(EscrowError::InvalidEscrowAmount)
        } else if deadline is Some && deadline->0 <= self.now {
            Some(EscrowError::InvalidDeadline)
        } else if lock_time is Some && lock_time->0 <= self.now {
            Some(EscrowError::InvalidLockTime)
        } else {
            self.token_refusal(token)
        }
    }

    /// An escrow is created: the client pays the amount and the rent reserve of its header.
    pub open spec fn create_escrow_done(
        self,
        client: Address,
        freelancer: Address,
        token: Address,
        total_amount: i128,
        brief_hash: [u8; 32],
        arbiter: Option<Address>,
        deadline: Option<u64>,
        lock_time: Option<u64>,
        signers: Seq<Address>,
        multisig: MultisigConfigView,
    ) -> Ledger {
        let id = self.next_escrow_id();
        let reserve = crate::rent::reserve_for(1) as i128;
        self.demanding(client).touching_instance().taking_escrow_id().transferring(
            token,
            client,
            self.contract,
            total_amount,
        ).charging_reserve(token, client, reserve).with_escrow(
            new_escrow(
                id,
                client,
                freelancer,
                token,
                total_amount,
                brief_hash,
                arbiter,
                deadline,
                lock_time,
                signers_with(signers, client),
                multisig,
                reserve,
                self.now,
            ),
        ).listing_participant(client, id).listing_participant(freelancer, id).listing_status(
            EscrowStatus::Active,
            id,
        ).publishing(
            Event::EscrowCreated { escrow_id: id, client, freelancer, amount: total_amount },
        )
    }

    /// Why a recurring escrow cannot be created.
    pub open spec fn create_recurring_refusal(
        self,
        payment_amount: i128,
        interval: RecurringInterval,
        start_time: u64,
        end_date: Option<u64>,
        number_of_payments: Option<u32>,
    ) -> Option<EscrowError> {
        let total = crate::recurring::total_payments(
            start_time,
            interval,
            end_date,
            number_of_payments,
        );
        if self.admin is None {
            Some(EscrowError::NotInitialized)
        } else if self.is_paused() {
            Some(EscrowError::ContractPaused)
        } else if payment_amount <= 0 {
            Some(EscrowError::InvalidMilestoneAmount)
        } else if start_time <= self.now || total is None {
            Some(EscrowError::InvalidRecurringSchedule)
        } else if payment_amount * total->0 > i128::MAX {
            Some(EscrowError::AmountMismatch)
        } else {
            None
        }
    }

    /// A recurring escrow is created: the client pays all payments in advance, and the rent
    /// reserve of the header and of the schedule.
    pub open spec fn create_recurring_done(
        self,
        client: Address,
        freelancer: Address,
        token: Address,
        payment_amount: i128,
        interval: RecurringInterval,
        start_time: u64,
        end_date: Option<u64>,
        number_of_payments: Option<u32>,
        brief_hash: [u8; 32],
    ) -> Ledger {
        let id = self.next_escrow_id();
        let total_payments = crate::recurring::total_payments(
            start_time,
            interval,
            end_date,
            number_of_payments,
        )->0;
        let total_amount = (payment_amount * total_payments) as i128;
        let reserve = crate::rent::reserve_for(1) as i128;
        self.demanding(client).touching_instance().taking_escrow_id().transferring(
            token,
            client,
            self.contract,
            total_amount,
        ).charging_reserve(token, client, reserve).charging_reserve(
            token,
            client,
            reserve,
        ).with_escrow(
            new_escrow(
                id,
                client,
                freelancer,
                token,
                total_amount,
                brief_hash,
                None,
                None,
                None,
                seq![client],
                crate::types::no_multisig(),
                (reserve + reserve) as i128,
                self.now,
            ),
        ).listing_participant(client, id).listing_participant(freelancer, id).listing_status(
            EscrowStatus::Active,
            id,
        ).publishing(
            Event::EscrowCreated { escrow_id: id, client, freelancer, amount: total_amount },
        ).with_recurring(
            id,
            new_schedule(interval, payment_amount, start_time, end_date, total_payments),
        ).publishing(
            Event::RecurringScheduleCreated {
                escrow_id: id,
                payment_amount,
                total_payments,
                start_time,
            },
        )
    }
}

// ---------------------------------------------------------------------------
// The entry points
// ---------------------------------------------------------------------------

impl EscrowContract {
    /// Creates an escrow, locks its funds in the contract and returns its number. The multisig
    /// policy, where it has approvers, governs the approval of its milestones. The timelock is
    /// taken and not used: a timelock begins with `start_timelock`.
    pub fn create_escrow(
        env: &mut Env,
        client: Address,
        freelancer: Address,
        token: Address,
        total_amount: i128,
        brief_hash: [u8; 32],
        arbiter: Option<Address>,
        deadline: Option<u64>,
        lock_time: Option<u64>,
        _timelock: Option<Timelock>,
        multisig_config: MultisigConfig,
    ) -> (r: Result<u64, EscrowError>)
        requires
            old(env)@.create_escrow_refusal(token, total_amount, deadline, lock_time) is None
                ==> old(env)@.next_escrow_id() < u64::MAX,
        ensures
            match old(env)@.create_escrow_refusal(token, total_amount, deadline, lock_time) {
                Some(e) => r == Err::<u64, _>(e) && final(env)@ == old(env)@.demanding(client),
                None => r == Ok::<_, EscrowError>(old(env)@.next_escrow_id()) && final(env)@
                    == old(env)@.create_escrow_done(
                    client,
                    freelancer,
                    token,
                    total_amount,
                    brief_hash,
                    arbiter,
                    deadline,
                    lock_time,
                    Seq::empty(),
                    multisig_config@,
                ),
            },
    {
        Self::create_escrow_internal(
            env,
            client,
            freelancer,
            token,
            total_amount,
            brief_hash,
            arbiter,
            deadline,
            lock_time,
            None,
            multisig_config,
        )
    }

    /// Creates an escrow whose milestones others besides the client may approve. Where there are
    /// such others, two approvals are needed.
    pub fn create_escrow_with_buyer_signers(
        env: &mut Env,
        client: Address,
        freelancer: Address,
        token: Address,
        total_amount: i128,
        brief_hash: [u8; 32],
        arbiter: Option<Address>,
        deadline: Option<u64>,
        lock_time: Option<u64>,
        buyer_signers: Vec<Address>,
    ) -> (r: Result<u64, EscrowError>)
        requires
            old(env)@.create_escrow_refusal(token, total_amount, deadline, lock_time) is None
                ==> old(env)@.next_escrow_id() < u64::MAX,
        ensures
            match old(env)@.create_escrow_refusal(token, total_amount, deadline, lock_time) {
                Some(e) => r == Err::<u64, _>(e) && final(env)@ == old(env)@.demanding(client),
                None => r == Ok::<_, EscrowError>(old(env)@.next_escrow_id()) && final(env)@
                    == old(env)@.create_escrow_done(
                    client,
                    freelancer,
                    token,
                    total_amount,
                    brief_hash,
                    arbiter,
                    deadline,
                    lock_time,
                    buyer_signers@,
                    crate::types::no_multisig(),
                ),
            },
    {
        Self::create_escrow_internal(
            env,
            client,
            freelancer,
            token,
            total_amount,
            brief_hash,
            arbiter,
            deadline,
            lock_time,
            Some(buyer_signers),
            MultisigConfig::disabled(),
        )
    }

    fn create_escrow_internal(
        env: &mut Env,
        client: Address,
        freelancer: Address,
        token: Address,
        total_amount: i128,
        brief_hash: [u8; 32],
        arbiter: Option<Address>,
        deadline: Option<u64>,
        lock_time: Option<u64>,
        buyer_signers: Option<Vec<Address>>,
        multisig: MultisigConfig,
    ) -> (r: Result<u64, EscrowError>)
        requires
            old(env)@.create_escrow_refusal(token, total_amount, deadline, lock_time) is None
                ==> old(env)@.next_escrow_id() < u64::MAX,
        ensures
            match old(env)@.create_escrow_refusal(token, total_amount, deadline, lock_time) {
                Some(e) => r == Err::<u64, _>(e) && final(env)@ == old(env)@.demanding(client),
                None => r == Ok::<_, EscrowError>(old(env)@.next_escrow_id()) && final(env)@
                    == old(env)@.create_escrow_done(
                    client,
                    freelancer,
                    token,
                    total_amount,
                    brief_hash,
                    arbiter,
                    deadline,
                    lock_time,
                    match buyer_signers {
                        Some(signers) => signers@,
                        None => Seq::empty(),
                    },
                    multisig@,
                ),
            },
    {
        env.require_auth(&client);
        Self::check_creation(env, &token, total_amount, deadline, lock_time)?;

        let now: u64 = env.timestamp;
        let mut signers: Vec<Address> = match buyer_signers {
            Some(signers) => signers,
            None => Vec::new(),
        };
        if !lists_address(&signers, &client) {
            signers.push(client);
        }
        env.touch_instance();
        let escrow_id: u64 = ContractStorage::next_escrow_id(env);
        let rent_reserve: i128 = ContractStorage::reserve_for_entries(1);
        let contract: Address = env.contract;
        env.transfer(&token, &client, &contract, total_amount);
        ContractStorage::charge_rent_reserve(env, &token, &client, rent_reserve);
        ContractStorage::save_escrow_meta(
            env,
            EscrowMeta {
                escrow_id,
                client,
                freelancer,
                token,
                total_amount,
                allocated_amount: 0,
                remaining_balance: total_amount,
                status: EscrowStatus::Active,
                milestone_count: 0,
                approved_count: 0,
                released_count: 0,
                submitted_count: 0,
                arbiter,
                buyer_signers: signers,
                multisig,
                created_at: now,
                deadline,
                lock_time,
                lock_time_extension: None,
                timelock: OptionalTimelock::Absent,
                brief_hash,
                rent_balance: rent_reserve,
                last_rent_collection_at: now,
                dispute_start_ledger: None,
            },
        );
        ContractStorage::list_participant(env, &client, escrow_id);
        ContractStorage::list_participant(env, &freelancer, escrow_id);
        ContractStorage::list_status(env, EscrowStatus::Active, escrow_id);
        env.publish(Event::EscrowCreated { escrow_id, client, freelancer, amount: total_amount });
        Ok(escrow_id)
    }

    /// Checks that an escrow can be created.
    fn check_creation(
        env: &Env,
        token: &Address,
        total_amount: i128,
        deadline: Option<u64>,
        lock_time: Option<u64>,
    ) -> (r: Result<(), EscrowError>)
        ensures
            match env@.create_escrow_refusal(*token, total_amount, deadline, lock_time) {
                Some(e) => r == Err::<(), _>(e),
                None => r == Ok::<_, EscrowError>(()),
            },
    {
        ContractStorage::require_initialized(env)?;
        ContractStorage::require_not_paused(env)?;
        if total_amount <= 0 {
            return Err(EscrowError::InvalidEscrowAmount);
        }
        if let Some(dl) = deadline {
            if dl <= env.timestamp {
                return Err(EscrowError::InvalidDeadline);
            }
        }
        if let Some(lt) = lock_time {
            if lt <= env.timestamp {
                return Err(EscrowError::InvalidLockTime);
            }
        }
        Self::validate_escrow_token(env, token)
    }

    /// Whether there is a number left for an escrow, where it can be created.
    pub fn creation_in_range(
        env: &Env,
        token: &Address,
        total_amount: i128,
        deadline: Option<u64>,
        lock_time: Option<u64>,
    ) -> (r: bool)
        ensures
            r == (env@.create_escrow_refusal(*token, total_amount, deadline, lock_time) is None
                ==> env@.next_escrow_id() < u64::MAX),
    {
        ContractStorage::escrow_number(env) < u64::MAX || Self::check_creation(
            env,
            token,
            total_amount,
            deadline,
            lock_time,
        ).is_err()
    }

    /// Checks that a recurring escrow can be created, and says how many payments it has and what
    /// they come to.
    fn check_schedule(
        env: &Env,
        payment_amount: i128,
        interval: RecurringInterval,
        start_time: u64,
        end_date: Option<u64>,
        number_of_payments: Option<u32>,
    ) -> (r: Result<(u32, i128), EscrowError>)
        ensures
            match env@.create_recurring_refusal(
                payment_amount,
                interval,
                start_time,
                end_date,
                number_of_payments,
            ) {
                Some(e) => r == Err::<(u32, i128), _>(e),
                None => {
                    &&& r is Ok
                    &&& Some(r->Ok_0.0) == crate::recurring::total_payments(
                        start_time,
                        interval,
                        end_date,
                        number_of_payments,
                    )
                    &&& r->Ok_0.1 == payment_amount * r->Ok_0.0
                },
            },
    {
        ContractStorage::require_initialized(env)?;
        ContractStorage::require_not_paused(env)?;
        if payment_amount <= 0 {
            return Err(EscrowError::InvalidMilestoneAmount);
        }
        if start_time <= env.timestamp {
            return Err(EscrowError::InvalidRecurringSchedule);
        }
        let total_payments: u32 = Self::resolve_total_payments(
            start_time,
            interval,
            end_date,
            number_of_payments,
        )?;
        proof {
            let total = payment_amount * total_payments;
            assert(total >= 0) by (nonlinear_arith)
                requires
                    total == payment_amount * total_payments,
                    payment_amount > 0,
                    total_payments >= 0,
            ;
        }
        match payment_amount.checked_mul(total_payments as i128) {
            Some(total_amount) => Ok((total_payments, total_amount)),
            None => Err(EscrowError::AmountMismatch),
        }
    }

    /// Whether there is a number left for a recurring escrow, where it can be created.
    pub fn schedule_in_range(
        env: &Env,
        payment_amount: i128,
        interval: RecurringInterval,
        start_time: u64,
        end_date: Option<u64>,
        number_of_payments: Option<u32>,
    ) -> (r: bool)
        ensures
            r == (env@.create_recurring_refusal(
                payment_amount,
                interval,
                start_time,
                end_date,
                number_of_payments,
            ) is None ==> env@.next_escrow_id() < u64::MAX),
    {
        ContractStorage::escrow_number(env) < u64::MAX || Self::check_schedule(
            env,
            payment_amount,
            interval,
            start_time,
            end_date,
            number_of_payments,
        ).is_err()
    }

    /// Checks that `token` may be used in escrows.
    fn validate_escrow_token(env: &Env, token: &Address) -> (r: Result<(), EscrowError>)
        ensures
            match env@.token_refusal(*token) {
                Some(e) => r == Err::<(), _>(e),
                None => r == Ok::<_, EscrowError>(()),
            },
    {
        match env.wrapped_tokens.get(token) {
            Some(info) => if info.is_approved {
                Ok(())
            } else {
                Err(EscrowError::BridgeError)
            },
            None => Ok(()),
        }
    }

    /// Creates a recurring escrow, which releases its funds on a schedule, and returns its
    /// number.
    pub fn create_recurring_escrow(
        env: &mut Env,
        client: Address,
        freelancer: Address,
        token: Address,
        payment_amount: i128,
        interval: RecurringInterval,
        start_time: u64,
        end_date: Option<u64>,
        number_of_payments: Option<u32>,
        brief_hash: [u8; 32],
    ) -> (r: Result<u64, EscrowError>)
        requires
            old(env)@.create_recurring_refusal(
                payment_amount,
                interval,
                start_time,
                end_date,
                number_of_payments,
            ) is None ==> old(env)@.next_escrow_id() < u64::MAX,
        ensures
            match old(env)@.create_recurring_refusal(
                payment_amount,
                interval,
                start_time,
                end_date,
                number_of_payments,
            ) {
                Some(e) => r == Err::<u64, _>(e) && final(env)@ == old(env)@.demanding(client),
                None => r == Ok::<_, EscrowError>(old(env)@.next_escrow_id()) && final(env)@
                    == old(env)@.create_recurring_done(
                    client,
                    freelancer,
                    token,
                    payment_amount,
                    interval,
                    start_time,
                    end_date,
                    number_of_payments,
                    brief_hash,
                ),
            },
    {
        env.require_auth(&client);
        let (total_payments, total_amount): (u32, i128) = Self::check_schedule(
            env,
            payment_amount,
            interval,
            start_time,
            end_date,
            number_of_payments,
        )?;

        let now: u64 = env.timestamp;
        env.touch_instance();
        let escrow_id: u64 = ContractStorage::next_escrow_id(env);
        let base_rent_reserve: i128 = ContractStorage::reserve_for_entries(1);
        let contract: Address = env.contract;
        env.transfer(&token, &client, &contract, total_amount);
        ContractStorage::charge_rent_reserve(env, &token, &client, base_rent_reserve);
        let mut buyer_signers: Vec<Address> = Vec::new();
        buyer_signers.push(client);
        assert(buyer_signers@ =~= seq![client]);
        let mut meta: EscrowMeta = EscrowMeta {
            escrow_id,
            client,
            freelancer,
            token,
            total_amount,
            allocated_amount: 0,
            remaining_balance: total_amount,
            status: EscrowStatus::Active,
            milestone_count: 0,
            approved_count: 0,
            released_count: 0,
            submitted_count: 0,
            arbiter: None,
            buyer_signers,
            multisig: MultisigConfig::disabled(),
            created_at: now,
            deadline: None,
            lock_time: None,
            lock_time_extension: None,
            timelock: OptionalTimelock::Absent,
            brief_hash,
            rent_balance: base_rent_reserve,
            last_rent_collection_at: now,
            dispute_start_ledger: None,
        };
        ContractStorage::charge_entry_rent(env, &mut meta, &client, 1);
        ContractStorage::save_escrow_meta(env, meta);
        ContractStorage::list_participant(env, &client, escrow_id);
        ContractStorage::list_participant(env, &freelancer, escrow_id);
        ContractStorage::list_status(env, EscrowStatus::Active, escrow_id);
        env.publish(Event::EscrowCreated { escrow_id, client, freelancer, amount: total_amount });
        ContractStorage::save_recurring_config(
            env,
            escrow_id,
            RecurringPaymentConfig {
                interval,
                payment_amount,
                start_time,
                next_payment_at: start_time,
                end_date,
                total_payments,
                payments_remaining: total_payments,
                processed_payments: 0,
                paused: false,
                cancelled: false,
                paused_at: None,
                last_payment_at: None,
            },
        );
        env.publish(
            Event::RecurringScheduleCreated {
                escrow_id,
                payment_amount,
                total_payments,
                start_time,
            },
        );
        Ok(escrow_id)
    }
}

} // verus!
