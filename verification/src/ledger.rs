//! The ledger as the contract sees it during one request.
//!
//! [`Env`] holds the contract's own entries, the time of the ledger, and what the request asks
//! of the host: whose authorization it demands, which host calls it makes and in what order,
//! and which entries it keeps alive. The host performs the demands and the calls; where one of
//! them fails, the host takes the whole request back. [`Ledger`] is the model of an [`Env`],
//! and the contracts of this crate speak of it.
use vstd::prelude::*;

use crate::table::Table;
use crate::types::{
    Address, BridgeConfirmation, BridgeConfirmationView, CancellationRequest,
    CancellationRequestView, DataKey, EscrowMeta, EscrowMetaView, EscrowStatus, Milestone,
    MilestoneView, PackedDataKey, RecurringPaymentConfig, ReputationRecord, SlashRecord,
    SlashRecordView, Text, WrappedTokenInfo, WrappedTokenInfoView,
};

verus! {

// ---------------------------------------------------------------------------
// What a request asks of the host
// ---------------------------------------------------------------------------

/// Something that the contract announces. `T` is the type of a text: bytes when the program
/// runs, a sequence in contracts.
#[derive(Clone, Debug, PartialEq, Eq)]
pub enum Event<T> {
    EscrowCreated { escrow_id: u64, client: Address, freelancer: Address, amount: i128 },
    RecurringScheduleCreated {
        escrow_id: u64,
        payment_amount: i128,
        total_payments: u32,
        start_time: u64,
    },
    MilestoneAdded { escrow_id: u64, milestone_id: u32, amount: i128 },
    MilestoneSubmitted { escrow_id: u64, milestone_id: u32, by: Address },
    MilestoneApproved { escrow_id: u64, milestone_id: u32, amount: i128 },
    MilestoneRejected { escrow_id: u64, milestone_id: u32, by: Address },
    MilestoneDisputed { escrow_id: u64, milestone_id: u32, by: Address },
    FundsReleased { escrow_id: u64, to: Address, amount: i128 },
    EscrowCompleted { escrow_id: u64 },
    EscrowCancelled { escrow_id: u64, returned: i128 },
    RecurringPaymentsProcessed { escrow_id: u64, count: u32, total: i128, next: Option<u64> },
    RecurringSchedulePaused { escrow_id: u64, by: Address },
    RecurringScheduleResumed { escrow_id: u64, by: Address, next_payment_at: u64 },
    RecurringScheduleCancelled { escrow_id: u64, by: Address, refunded: i128 },
    RentCollected { escrow_id: u64, collected: i128, balance: i128, expires_at: u64 },
    RentExpired { escrow_id: u64, refund: i128, remaining: i128 },
    LockTimeExpired { escrow_id: u64, lock_time: u64 },
    LockTimeExtended { escrow_id: u64, old_lock_time: u64, new_lock_time: u64, by: Address },
    TimelockStarted { escrow_id: u64, duration: u64, at: u64 },
    TimelockReleased { escrow_id: u64, at: u64 },
    DisputeRaised { escrow_id: u64, by: Address },
    DisputeResolved { escrow_id: u64, client_amount: i128, freelancer_amount: i128 },
    ReputationUpdated { address: Address, score: u64 },
    CancellationRequested { escrow_id: u64, requester: Address, reason: T, deadline: u64 },
    CancellationExecuted { escrow_id: u64, returned: i128, slashed: i128 },
    SlashApplied {
        escrow_id: u64,
        slashed_user: Address,
        recipient: Address,
        amount: i128,
        reason: T,
    },
    SlashDisputed { escrow_id: u64, by: Address, amount: i128 },
    SlashDisputeResolved { escrow_id: u64, upheld: bool, amount: i128 },
    ContractPaused { by: Address },
    ContractUnpaused { by: Address },
    WrappedTokenRegistered { token: Address, origin_chain: T },
    BridgeConfirmationUpdated { transfer_id: T, confirmations: u32, is_finalized: bool },
}

/// The model of an [`Event`].
pub type EventView = Event<Seq<u8>>;

impl View for Event<Text> {
    type V = EventView;

    open spec fn view(&self) -> EventView {
        match *self {
            Event::EscrowCreated { escrow_id, client, freelancer, amount } => Event::EscrowCreated {
                escrow_id,
                client,
                freelancer,
                amount,
            },
            Event::RecurringScheduleCreated {
                escrow_id,
                payment_amount,
                total_payments,
                start_time,
            } => Event::RecurringScheduleCreated {
                escrow_id,
                payment_amount,
                total_payments,
                start_time,
            },
            Event::MilestoneAdded { escrow_id, milestone_id, amount } => Event::MilestoneAdded {
                escrow_id,
                milestone_id,
                amount,
            },
            Event::MilestoneSubmitted { escrow_id, milestone_id, by } => {
                Event::MilestoneSubmitted { escrow_id, milestone_id, by }
            },
            Event::MilestoneApproved { escrow_id, milestone_id, amount } => {
                Event::MilestoneApproved { escrow_id, milestone_id, amount }
            },
            Event::MilestoneRejected { escrow_id, milestone_id, by } => Event::MilestoneRejected {
                escrow_id,
                milestone_id,
                by,
            },
            Event::MilestoneDisputed { escrow_id, milestone_id, by } => Event::MilestoneDisputed {
                escrow_id,
                milestone_id,
                by,
            },
            Event::FundsReleased { escrow_id, to, amount } => Event::FundsReleased {
                escrow_id,
                to,
                amount,
            },
            Event::EscrowCompleted { escrow_id } => Event::EscrowCompleted { escrow_id },
            Event::EscrowCancelled { escrow_id, returned } => Event::EscrowCancelled {
                escrow_id,
                returned,
            },
            Event::RecurringPaymentsProcessed { escrow_id, count, total, next } => {
                Event::RecurringPaymentsProcessed { escrow_id, count, total, next }
            },
            Event::RecurringSchedulePaused { escrow_id, by } => Event::RecurringSchedulePaused {
                escrow_id,
                by,
            },
            Event::RecurringScheduleResumed { escrow_id, by, next_payment_at } => {
                Event::RecurringScheduleResumed { escrow_id, by, next_payment_at }
            },
            Event::RecurringScheduleCancelled { escrow_id, by, refunded } => {
                Event::RecurringScheduleCancelled { escrow_id, by, refunded }
            },
            Event::RentCollected { escrow_id, collected, balance, expires_at } => {
                Event::RentCollected { escrow_id, collected, balance, expires_at }
            },
            Event::RentExpired { escrow_id, refund, remaining } => Event::RentExpired {
                escrow_id,
                refund,
                remaining,
            },
            Event::LockTimeExpired { escrow_id, lock_time } => Event::LockTimeExpired {
                escrow_id,
                lock_time,
            },
            Event::LockTimeExtended { escrow_id, old_lock_time, new_lock_time, by } => {
                Event::LockTimeExtended { escrow_id, old_lock_time, new_lock_time, by }
            },
            Event::TimelockStarted { escrow_id, duration, at } => Event::TimelockStarted {
                escrow_id,
                duration,
                at,
            },
            Event::TimelockReleased { escrow_id, at } => Event::TimelockReleased { escrow_id, at },
            Event::DisputeRaised { escrow_id, by } => Event::DisputeRaised { escrow_id, by },
            Event::DisputeResolved { escrow_id, client_amount, freelancer_amount } => {
                Event::DisputeResolved { escrow_id, client_amount, freelancer_amount }
            },
            Event::ReputationUpdated { address, score } => Event::ReputationUpdated {
                address,
                score,
            },
            Event::CancellationRequested { escrow_id, requester, reason, deadline } => {
                Event::CancellationRequested { escrow_id, requester, reason: reason@, deadline }
            },
            Event::CancellationExecuted { escrow_id, returned, slashed } => {
                Event::CancellationExecuted { escrow_id, returned, slashed }
            },
            Event::SlashApplied { escrow_id, slashed_user, recipient, amount, reason } => {
                Event::SlashApplied { escrow_id, slashed_user, recipient, amount, reason: reason@ }
            },
            Event::SlashDisputed { escrow_id, by, amount } => Event::SlashDisputed {
                escrow_id,
                by,
                amount,
            },
            Event::SlashDisputeResolved { escrow_id, upheld, amount } => {
                Event::SlashDisputeResolved { escrow_id, upheld, amount }
            },
            Event::ContractPaused { by } => Event::ContractPaused { by },
            Event::ContractUnpaused { by } => Event::ContractUnpaused { by },
            Event::WrappedTokenRegistered { token, origin_chain } => {
                Event::WrappedTokenRegistered { token, origin_chain: origin_chain@ }
            },
            Event::BridgeConfirmationUpdated { transfer_id, confirmations, is_finalized } => {
                Event::BridgeConfirmationUpdated {
                    transfer_id: transfer_id@,
                    confirmations,
                    is_finalized,
                }
            },
        }
    }
}

/// Something that the contract has the host do.
#[derive(Clone, Debug, PartialEq, Eq)]
pub enum HostCall<T> {
    /// Move `amount` of `token`. The host takes the request back where the token refuses.
    Transfer { token: Address, from: Address, to: Address, amount: i128 },
    /// Announce an event.
    Publish(Event<T>),
    /// Check an Ed25519 signature. The host takes the request back where it does not verify.
    VerifySignature { public_key: [u8; 32], message: T, signature: [u8; 64] },
    /// Record the version of the storage layout.
    InitStorageVersion,
    /// Bring stored entries to the current layout. Its failure is the request's failure.
    MigrateStorage,
    /// Replace the contract's code.
    UpdateWasm { hash: [u8; 32] },
}

/// The model of a [`HostCall`].
pub type HostCallView = HostCall<Seq<u8>>;

impl View for HostCall<Text> {
    type V = HostCallView;

    open spec fn view(&self) -> HostCallView {
        match *self {
            HostCall::Transfer { token, from, to, amount } => HostCall::Transfer {
                token,
                from,
                to,
                amount,
            },
            HostCall::Publish(event) => HostCall::Publish(event@),
            HostCall::VerifySignature { public_key, message, signature } => {
                HostCall::VerifySignature { public_key, message: message@, signature }
            },
            HostCall::InitStorageVersion => HostCall::InitStorageVersion,
            HostCall::MigrateStorage => HostCall::MigrateStorage,
            HostCall::UpdateWasm { hash } => HostCall::UpdateWasm { hash },
        }
    }
}

/// A persistent entry, by its key.
#[derive(Clone, Copy, Debug, PartialEq, Eq)]
pub enum EntryKey {
    Packed(PackedDataKey),
    Data(DataKey),
}

// ---------------------------------------------------------------------------
// The model
// ---------------------------------------------------------------------------

/// The model of an [`Env`].
#[verifier::ext_equal]
pub struct Ledger {
    /// The time of the ledger, in seconds.
    pub now: u64,
    /// The contract's own address.
    pub contract: Address,
    /// The admin, once the contract is initialized.
    pub admin: Option<Address>,
    /// The number of escrows created so far.
    pub escrow_counter: Option<u64>,
    /// Whether the contract is paused, once that was ever set.
    pub paused: Option<bool>,
    pub oracle: Option<Address>,
    pub fallback_oracle: Option<Address>,
    pub wormhole_bridge: Option<Address>,
    pub trusted_oracle_key: Option<[u8; 32]>,
    pub escrows: Map<u64, EscrowMetaView>,
    pub milestones: Map<(u64, u32), MilestoneView>,
    pub recurring: Map<u64, RecurringPaymentConfig>,
    pub cancellations: Map<u64, CancellationRequestView>,
    pub slashes: Map<u64, SlashRecordView>,
    pub reputations: Map<Address, ReputationRecord>,
    pub by_participant: Map<Address, Seq<u64>>,
    pub by_status: Map<EscrowStatus, Seq<u64>>,
    pub cancellations_by_requester: Map<Address, Seq<u64>>,
    pub slashes_by_address: Map<Address, Seq<u64>>,
    pub wrapped_tokens: Map<Address, WrappedTokenInfoView>,
    pub bridge_confirmations: Map<Seq<u8>, BridgeConfirmationView>,
    /// Whose authorization the request demands, in order.
    pub auths: Seq<Address>,
    /// What the request has the host do, in order.
    pub calls: Seq<HostCallView>,
    /// Whether the request keeps the contract instance alive.
    pub instance_touched: bool,
    /// The persistent entries that the request keeps alive.
    pub touched: Set<EntryKey>,
}

/// The list kept under `key`; the empty list where none is.
pub open spec fn list_at<K>(index: Map<K, Seq<u64>>, key: K) -> Seq<u64> {
    if index.contains_key(key) {
        index[key]
    } else {
        Seq::empty()
    }
}

/// `index` with `id` added at the end of the list under `key`.
pub open spec fn index_added<K>(index: Map<K, Seq<u64>>, key: K, id: u64) -> Map<K, Seq<u64>> {
    index.insert(key, list_at(index, key).push(id))
}

/// `ids` without any occurrence of `id`, in the same order.
pub open spec fn without(ids: Seq<u64>, id: u64) -> Seq<u64> {
    ids.filter(|x: u64| x != id)
}

/// `index` with every `id` dropped from the list under `key`.
pub open spec fn index_dropped<K>(index: Map<K, Seq<u64>>, key: K, id: u64) -> Map<K, Seq<u64>> {
    if index.contains_key(key) {
        index.insert(key, without(index[key], id))
    } else {
        index
    }
}

impl Ledger {
    /// Whether requests that change an escrow are refused for now.
    pub open spec fn is_paused(self) -> bool {
        self.paused == Some(true)
    }

    /// Whether an entry of the contract instance is kept under `key`.
    pub open spec fn instance_has(self, key: DataKey) -> bool {
        match key {
            DataKey::Admin => self.admin is Some,
            DataKey::EscrowCounter => self.escrow_counter is Some,
            DataKey::Paused => self.paused is Some,
            DataKey::OracleAddress => self.oracle is Some,
            DataKey::FallbackOracleAddress => self.fallback_oracle is Some,
            DataKey::WormholeBridge => self.wormhole_bridge is Some,
            DataKey::TrustedOracleKey => self.trusted_oracle_key is Some,
            _ => false,
        }
    }

    /// Whether a persistent entry is kept under `key`.
    pub open spec fn persistent_has(self, key: EntryKey) -> bool {
        match key {
            EntryKey::Packed(PackedDataKey::EscrowMeta(id)) => self.escrows.contains_key(id),
            EntryKey::Packed(PackedDataKey::Milestone(id, mid)) => self.milestones.contains_key(
                (id, mid),
            ),
            EntryKey::Packed(PackedDataKey::RecurringConfig(id)) => self.recurring.contains_key(id),
            EntryKey::Data(DataKey::Reputation(a)) => self.reputations.contains_key(a),
            EntryKey::Data(DataKey::CancellationRequest(id)) => self.cancellations.contains_key(id),
            EntryKey::Data(DataKey::SlashRecord(id)) => self.slashes.contains_key(id),
            EntryKey::Data(DataKey::EscrowsByParticipant(a)) => self.by_participant.contains_key(a),
            EntryKey::Data(DataKey::EscrowsByStatus(st)) => self.by_status.contains_key(st),
            EntryKey::Data(DataKey::CancellationsByRequester(a)) => {
                self.cancellations_by_requester.contains_key(a)
            },
            EntryKey::Data(DataKey::SlashsByAddress(a)) => self.slashes_by_address.contains_key(a),
            _ => false,
        }
    }

    /// The authorization of `who` is demanded.
    pub open spec fn demanding(self, who: Address) -> Ledger {
        Ledger { auths: self.auths.push(who), ..self }
    }

    /// The host is asked for `call`.
    pub open spec fn calling(self, call: HostCallView) -> Ledger {
        Ledger { calls: self.calls.push(call), ..self }
    }

    /// `amount` of `token` is moved.
    pub open spec fn transferring(
        self,
        token: Address,
        from: Address,
        to: Address,
        amount: i128,
    ) -> Ledger {
        self.calling(HostCall::Transfer { token, from, to, amount })
    }

    /// `event` is announced.
    pub open spec fn publishing(self, event: EventView) -> Ledger {
        self.calling(HostCall::Publish(event))
    }

    /// The contract instance is kept alive.
    pub open spec fn touching_instance(self) -> Ledger {
        Ledger { instance_touched: true, ..self }
    }

    /// The entry under `key` is kept alive.
    pub open spec fn touching(self, key: EntryKey) -> Ledger {
        Ledger { touched: self.touched.insert(key), ..self }
    }

    /// The header of escrow `id` is kept alive.
    pub open spec fn touching_escrow(self, id: u64) -> Ledger {
        self.touching(EntryKey::Packed(PackedDataKey::EscrowMeta(id)))
    }

    /// Milestone `mid` of escrow `id` is kept alive.
    pub open spec fn touching_milestone(self, id: u64, mid: u32) -> Ledger {
        self.touching(EntryKey::Packed(PackedDataKey::Milestone(id, mid)))
    }

    /// The recurring schedule of escrow `id` is kept alive.
    pub open spec fn touching_recurring(self, id: u64) -> Ledger {
        self.touching(EntryKey::Packed(PackedDataKey::RecurringConfig(id)))
    }

    /// The cancellation request of escrow `id` is kept alive.
    pub open spec fn touching_cancellation(self, id: u64) -> Ledger {
        self.touching(EntryKey::Data(DataKey::CancellationRequest(id)))
    }

    /// The slash record of escrow `id` is kept alive.
    pub open spec fn touching_slash(self, id: u64) -> Ledger {
        self.touching(EntryKey::Data(DataKey::SlashRecord(id)))
    }

    /// The header `meta` is stored under its own number.
    pub open spec fn with_escrow(self, meta: EscrowMetaView) -> Ledger {
        Ledger { escrows: self.escrows.insert(meta.escrow_id, meta), ..self }.touching_escrow(
            meta.escrow_id,
        )
    }

    /// The milestone `m` of escrow `id` is stored under its own number.
    pub open spec fn with_milestone(self, id: u64, m: MilestoneView) -> Ledger {
        Ledger {
            milestones: self.milestones.insert((id, m.id), m),
            ..self
        }.touching_milestone(id, m.id)
    }

    /// The recurring schedule of escrow `id` is stored.
    pub open spec fn with_recurring(self, id: u64, config: RecurringPaymentConfig) -> Ledger {
        Ledger { recurring: self.recurring.insert(id, config), ..self }.touching_recurring(id)
    }

    /// The cancellation request is stored under its escrow's number.
    pub open spec fn with_cancellation(self, request: CancellationRequestView) -> Ledger {
        Ledger {
            cancellations: self.cancellations.insert(request.escrow_id, request),
            ..self
        }.touching_cancellation(request.escrow_id)
    }

    /// The slash record is stored under its escrow's number.
    pub open spec fn with_slash(self, record: SlashRecordView) -> Ledger {
        Ledger {
            slashes: self.slashes.insert(record.escrow_id, record),
            ..self
        }.touching_slash(record.escrow_id)
    }

    /// The reputation record is stored under its own address.
    pub open spec fn with_reputation(self, record: ReputationRecord) -> Ledger {
        Ledger {
            reputations: self.reputations.insert(record.address, record),
            ..self
        }.touching(EntryKey::Data(DataKey::Reputation(record.address)))
    }

    /// Escrow `id` is listed under the participant `who`.
    pub open spec fn listing_participant(self, who: Address, id: u64) -> Ledger {
        Ledger { by_participant: index_added(self.by_participant, who, id), ..self }
    }

    /// Escrow `id` is listed under `status`.
    pub open spec fn listing_status(self, status: EscrowStatus, id: u64) -> Ledger {
        Ledger { by_status: index_added(self.by_status, status, id), ..self }
    }

    /// Escrow `id` moves from the list of `from` to the end of the list of `to`.
    pub open spec fn relisting(self, from: EscrowStatus, to: EscrowStatus, id: u64) -> Ledger {
        Ledger { by_status: index_dropped(self.by_status, from, id), ..self }.listing_status(to, id)
    }
}

// ---------------------------------------------------------------------------
// The environment
// ---------------------------------------------------------------------------

/// The ledger as the contract sees it during one request.
#[derive(Clone, Debug)]
pub struct Env {
    /// The time of the ledger, in seconds.
    pub timestamp: u64,
    /// The contract's own address.
    pub contract: Address,
    pub admin: Option<Address>,
    pub escrow_counter: Option<u64>,
    pub paused: Option<bool>,
    pub oracle: Option<Address>,
    pub fallback_oracle: Option<Address>,
    pub wormhole_bridge: Option<Address>,
    pub trusted_oracle_key: Option<[u8; 32]>,
    pub escrows: Table<u64, EscrowMeta>,
    pub milestones: Table<(u64, u32), Milestone>,
    pub recurring: Table<u64, RecurringPaymentConfig>,
    pub cancellations: Table<u64, CancellationRequest>,
    pub slashes: Table<u64, SlashRecord>,
    pub reputations: Table<Address, ReputationRecord>,
    pub by_participant: Table<Address, Vec<u64>>,
    pub by_status: Table<EscrowStatus, Vec<u64>>,
    pub cancellations_by_requester: Table<Address, Vec<u64>>,
    pub slashes_by_address: Table<Address, Vec<u64>>,
    pub wrapped_tokens: Table<Address, WrappedTokenInfo>,
    pub bridge_confirmations: Table<Text, BridgeConfirmation>,
    /// Whose authorization the request demands, in order.
    pub auths: Vec<Address>,
    /// What the request has the host do, in order.
    pub calls: Vec<HostCall<Text>>,
    /// Whether the request keeps the contract instance alive.
    pub instance_touched: bool,
    /// The persistent entries that the request keeps alive.
    pub touched: Vec<EntryKey>,
}

impl View for Env {
    type V = Ledger;

    open spec fn view(&self) -> Ledger {
        Ledger {
            now: self.timestamp,
            contract: self.contract,
            admin: self.admin,
            escrow_counter: self.escrow_counter,
            paused: self.paused,
            oracle: self.oracle,
            fallback_oracle: self.fallback_oracle,
            wormhole_bridge: self.wormhole_bridge,
            trusted_oracle_key: self.trusted_oracle_key,
            escrows: self.escrows@,
            milestones: self.milestones@,
            recurring: self.recurring@,
            cancellations: self.cancellations@,
            slashes: self.slashes@,
            reputations: self.reputations@,
            by_participant: self.by_participant@,
            by_status: self.by_status@,
            cancellations_by_requester: self.cancellations_by_requester@,
            slashes_by_address: self.slashes_by_address@,
            wrapped_tokens: self.wrapped_tokens@,
            bridge_confirmations: self.bridge_confirmations@,
            auths: self.auths@,
            calls: self.calls@.map_values(|c: HostCall<Text>| c@),
            instance_touched: self.instance_touched,
            touched: self.touched@.to_set(),
        }
    }
}

impl Env {
    /// The ledger before the contract was ever called.
    pub fn new(timestamp: u64, contract: Address) -> (env: Env)
        ensures
            env@ == (Ledger {
                now: timestamp,
                contract,
                admin: None,
                escrow_counter: None,
                paused: None,
                oracle: None,
                fallback_oracle: None,
                wormhole_bridge: None,
                trusted_oracle_key: None,
                escrows: Map::empty(),
                milestones: Map::empty(),
                recurring: Map::empty(),
                cancellations: Map::empty(),
                slashes: Map::empty(),
                reputations: Map::empty(),
                by_participant: Map::empty(),
                by_status: Map::empty(),
                cancellations_by_requester: Map::empty(),
                slashes_by_address: Map::empty(),
                wrapped_tokens: Map::empty(),
                bridge_confirmations: Map::empty(),
                auths: Seq::empty(),
                calls: Seq::empty(),
                instance_touched: false,
                touched: Set::empty(),
            }),
    {
        Env {
            timestamp,
            contract,
            admin: None,
            escrow_counter: None,
            paused: None,
            oracle: None,
            fallback_oracle: None,
            wormhole_bridge: None,
            trusted_oracle_key: None,
            escrows: Table::new(),
            milestones: Table::new(),
            recurring: Table::new(),
            cancellations: Table::new(),
            slashes: Table::new(),
            reputations: Table::new(),
            by_participant: Table::new(),
            by_status: Table::new(),
            cancellations_by_requester: Table::new(),
            slashes_by_address: Table::new(),
            wrapped_tokens: Table::new(),
            bridge_confirmations: Table::new(),
            auths: Vec::new(),
            calls: Vec::new(),
            instance_touched: false,
            touched: Vec::new(),
        }
    }

    /// Whether an entry of the contract instance is kept under `key`.
    pub fn instance_has(&self, key: &DataKey) -> (r: bool)
        ensures
            r == self@.instance_has(*key),
    {
        match key {
            DataKey::Admin => self.admin.is_some(),
            DataKey::EscrowCounter => self.escrow_counter.is_some(),
            DataKey::Paused => self.paused.is_some(),
            DataKey::OracleAddress => self.oracle.is_some(),
            DataKey::FallbackOracleAddress => self.fallback_oracle.is_some(),
            DataKey::WormholeBridge => self.wormhole_bridge.is_some(),
            DataKey::TrustedOracleKey => self.trusted_oracle_key.is_some(),
            _ => false,
        }
    }

    /// Whether a persistent entry is kept under `key`.
    pub fn persistent_has(&self, key: &EntryKey) -> (r: bool)
        ensures
            r == self@.persistent_has(*key),
    {
        match key {
            EntryKey::Packed(PackedDataKey::EscrowMeta(id)) => self.escrows.has(id),
            EntryKey::Packed(PackedDataKey::Milestone(id, mid)) => self.milestones.has(
                &(*id, *mid),
            ),
            EntryKey::Packed(PackedDataKey::RecurringConfig(id)) => self.recurring.has(id),
            EntryKey::Data(DataKey::Reputation(a)) => self.reputations.has(a),
            EntryKey::Data(DataKey::CancellationRequest(id)) => self.cancellations.has(id),
            EntryKey::Data(DataKey::SlashRecord(id)) => self.slashes.has(id),
            EntryKey::Data(DataKey::EscrowsByParticipant(a)) => self.by_participant.has(a),
            EntryKey::Data(DataKey::EscrowsByStatus(st)) => self.by_status.has(st),
            EntryKey::Data(DataKey::CancellationsByRequester(a)) => {
                self.cancellations_by_requester.has(a)
            },
            EntryKey::Data(DataKey::SlashsByAddress(a)) => self.slashes_by_address.has(a),
            _ => false,
        }
    }

    /// Demands the authorization of `who`.
    pub fn require_auth(&mut self, who: &Address)
        ensures
            final(self)@ == old(self)@.demanding(*who),
    {
        self.auths.push(*who);
    }

    /// Asks the host for `call`.
    pub fn call(&mut self, call: HostCall<Text>)
        ensures
            final(self)@ == old(self)@.calling(call@),
    {
        self.calls.push(call);
        assert(self@.calls =~= old(self)@.calls.push(call@));
    }

    /// Moves `amount` of `token`.
    pub fn transfer(&mut self, token: &Address, from: &Address, to: &Address, amount: i128)
        ensures
            final(self)@ == old(self)@.transferring(*token, *from, *to, amount),
    {
        self.call(HostCall::Transfer { token: *token, from: *from, to: *to, amount });
    }

    /// Announces `event`.
    pub fn publish(&mut self, event: Event<Text>)
        ensures
            final(self)@ == old(self)@.publishing(event@),
    {
        self.call(HostCall::Publish(event));
    }

    /// Keeps the contract instance alive.
    pub fn touch_instance(&mut self)
        ensures
            final(self)@ == old(self)@.touching_instance(),
    {
        self.instance_touched = true;
    }

    /// Keeps the entry under `key` alive.
    pub fn touch(&mut self, key: EntryKey)
        ensures
            final(self)@ == old(self)@.touching(key),
    {
        self.touched.push(key);
        proof {
            let before = old(self).touched@;
            assert forall|k: EntryKey| self.touched@.to_set().contains(k)
                == before.to_set().insert(key).contains(k) by {
                if before.contains(k) {
                    let i = choose|i: int| 0 <= i < before.len() && before[i] == k;
                    assert(self.touched@[i] == k);
                }
                if k == key {
                    assert(self.touched@[before.len() as int] == k);
                }
            }
            assert(self@.touched =~= old(self)@.touched.insert(key));
        }
    }
}

} // verus!
