//! The records that the contract keeps, and the keys they are kept under.
//!
//! A record whose fields are all plain values is its own mathematical model. A record that
//! holds a list or a text has a `...View` beside it, in which lists and texts are sequences.
use vstd::prelude::*;

verus! {

/// A short text, as the bytes that the ledger stores.
pub type Text = Vec<u8>;

/// An account or a contract on the ledger, by the characters of its strkey.
#[derive(Clone, Copy, Debug, PartialEq, Eq)]
pub struct Address {
    pub strkey: [u8; 56],
}

impl View for Address {
    type V = Address;

    open spec fn view(&self) -> Address {
        *self
    }
}

/// Whether two byte arrays hold the same bytes.
pub fn same_bytes<const N: usize>(a: &[u8; N], b: &[u8; N]) -> (r: bool)
    ensures
        r == (*a == *b),
{
    let mut i: usize = 0;
    while i < N
        invariant
            i <= N,
            forall|j: int| 0 <= j < i ==> a[j] == b[j],
        decreases N - i,
    {
        if a[i] != b[i] {
            assert(a[i as int] != b[i as int]);
            return false;
        }
        i = i + 1;
    }
    assert(*a =~= *b);
    true
}

impl Address {
    /// Whether the two addresses are the same account or contract.
    pub fn same(&self, other: &Address) -> (r: bool)
        ensures
            r == (*self == *other),
    {
        same_bytes(&self.strkey, &other.strkey)
    }
}

/// A copy of a list.
pub fn copy_list<T: Copy>(list: &Vec<T>) -> (r: Vec<T>)
    ensures
        r@ == list@,
{
    let mut copy: Vec<T> = Vec::new();
    let mut i: usize = 0;
    while i < list.len()
        invariant
            i <= list.len(),
            copy@ == list@.take(i as int),
        decreases list.len() - i,
    {
        copy.push(list[i]);
        i = i + 1;
    }
    assert(list@.take(i as int) == list@);
    copy
}

/// Whether `list` holds `address`.
pub fn lists_address(list: &Vec<Address>, address: &Address) -> (r: bool)
    ensures
        r == list@.contains(*address),
{
    let mut i: usize = 0;
    while i < list.len()
        invariant
            i <= list.len(),
            forall|j: int| 0 <= j < i ==> list@[j] != *address,
        decreases list.len() - i,
    {
        if list[i].same(address) {
            assert(list@[i as int] == *address);
            return true;
        }
        i = i + 1;
    }
    false
}

// ---------------------------------------------------------------------------
// Enumerations
// ---------------------------------------------------------------------------

/// The lifecycle state of an escrow agreement.
#[derive(Clone, Copy, Debug, PartialEq, Eq, Structural)]
pub enum EscrowStatus {
    /// Escrow has been created and funds are locked. Work can begin.
    Active,
    /// All milestones approved, all funds released. Escrow is complete.
    Completed,
    /// A dispute has been raised. Funds are frozen pending resolution.
    Disputed,
    /// Escrow was cancelled before completion. Funds returned to client.
    Cancelled,
    /// Cancellation requested, pending dispute resolution or deadline.
    CancellationPending,
}

impl View for EscrowStatus {
    type V = EscrowStatus;

    open spec fn view(&self) -> EscrowStatus {
        *self
    }
}

/// The lifecycle state of a milestone: one of the `MS_*` constants, each a single bit, so
/// that membership in a set of states is a single bitwise test against a mask.
pub type MilestoneStatus = u32;

/// Milestone defined but work not yet started/submitted.
pub const MS_PENDING: MilestoneStatus = 0x01;

/// Freelancer has submitted work for this milestone.
pub const MS_SUBMITTED: MilestoneStatus = 0x02;

/// Client has approved the milestone and funds are pending release.
pub const MS_APPROVED: MilestoneStatus = 0x04;

/// Funds have been released for this milestone.
pub const MS_RELEASED: MilestoneStatus = 0x08;

/// Client rejected the submission. Freelancer should resubmit.
pub const MS_REJECTED: MilestoneStatus = 0x10;

/// A dispute has been raised on this milestone. Funds are frozen.
pub const MS_DISPUTED: MilestoneStatus = 0x20;

/// Mask of all terminal states (no further transitions expected).
pub const MS_TERMINAL: MilestoneStatus = MS_RELEASED | MS_DISPUTED;

/// Mask of states that block escrow cancellation.
pub const MS_BLOCKS_CANCEL: MilestoneStatus = MS_SUBMITTED | MS_APPROVED;

/// Whether `status` is one of the six milestone states.
pub open spec fn is_milestone_status(status: MilestoneStatus) -> bool {
    ||| status == MS_PENDING
    ||| status == MS_SUBMITTED
    ||| status == MS_APPROVED
    ||| status == MS_RELEASED
    ||| status == MS_REJECTED
    ||| status == MS_DISPUTED
}

/// A single bitwise test against a mask decides membership: the terminal states are Released
/// and Disputed, and the states that block a cancellation are Submitted and Approved.
pub proof fn law_status_masks_decide_membership(status: MilestoneStatus)
    requires
        is_milestone_status(status),
    ensures
        (status & MS_TERMINAL != 0) <==> (status == MS_RELEASED || status == MS_DISPUTED),
        (status & MS_BLOCKS_CANCEL != 0) <==> (status == MS_SUBMITTED || status == MS_APPROVED),
{
    assert((0x08u32 | 0x20u32) == 0x28u32) by (bit_vector);
    assert((0x02u32 | 0x04u32) == 0x06u32) by (bit_vector);
    assert((0x01u32 & 0x28u32) == 0 && (0x02u32 & 0x28u32) == 0 && (0x04u32 & 0x28u32) == 0 && (
    0x08u32 & 0x28u32) != 0 && (0x10u32 & 0x28u32) == 0 && (0x20u32 & 0x28u32) != 0)
        by (bit_vector);
    assert((0x01u32 & 0x06u32) == 0 && (0x02u32 & 0x06u32) != 0 && (0x04u32 & 0x06u32) != 0 && (
    0x08u32 & 0x06u32) == 0 && (0x10u32 & 0x06u32) == 0 && (0x20u32 & 0x06u32) == 0)
        by (bit_vector);
}

/// Timelock metadata for protecting buyers: no release until expiry.
#[derive(Clone, Copy, Debug, PartialEq, Eq, Structural)]
pub struct Timelock {
    /// Duration in ledger timestamps (seconds) to wait after start.
    pub duration_ledger: u64,
    /// Ledger timestamp when timelock started.
    pub start_ledger: u64,
}

/// The timelock of an escrow, if one was started.
#[derive(Clone, Copy, Debug, PartialEq, Eq, Structural)]
pub enum OptionalTimelock {
    Absent,
    Present(Timelock),
}

impl From<Option<Timelock>> for OptionalTimelock {
    fn from(opt: Option<Timelock>) -> (r: Self) {
        match opt {
            Option::Some(t) => OptionalTimelock::Present(t),
            Option::None => OptionalTimelock::Absent,
        }
    }
}

impl vstd::std_specs::convert::FromSpecImpl<Option<Timelock>> for OptionalTimelock {
    open spec fn obeys_from_spec() -> bool {
        true
    }

    open spec fn from_spec(opt: Option<Timelock>) -> Self {
        match opt {
            Option::Some(t) => OptionalTimelock::Present(t),
            Option::None => OptionalTimelock::Absent,
        }
    }
}

impl From<OptionalTimelock> for Option<Timelock> {
    fn from(opt: OptionalTimelock) -> (r: Self) {
        match opt {
            OptionalTimelock::Present(t) => Option::Some(t),
            OptionalTimelock::Absent => Option::None,
        }
    }
}

impl vstd::std_specs::convert::FromSpecImpl<OptionalTimelock> for Option<Timelock> {
    open spec fn obeys_from_spec() -> bool {
        true
    }

    open spec fn from_spec(opt: OptionalTimelock) -> Self {
        match opt {
            OptionalTimelock::Present(t) => Option::Some(t),
            OptionalTimelock::Absent => Option::None,
        }
    }
}

/// The two ways to write an optional timelock carry over into each other without loss.
pub proof fn law_timelock_round_trip(opt: Option<Timelock>, timelock: OptionalTimelock)
    ensures
        <Option<Timelock> as vstd::std_specs::convert::FromSpec<OptionalTimelock>>::from_spec(
            <OptionalTimelock as vstd::std_specs::convert::FromSpec<Option<Timelock>>>::from_spec(
                opt,
            ),
        ) == opt,
        <OptionalTimelock as vstd::std_specs::convert::FromSpec<Option<Timelock>>>::from_spec(
            <Option<Timelock> as vstd::std_specs::convert::FromSpec<OptionalTimelock>>::from_spec(
                timelock,
            ),
        ) == timelock,
{
}

/// Supported recurring payment intervals.
#[derive(Clone, Copy, Debug, PartialEq, Eq, Structural)]
pub enum RecurringInterval {
    Daily,
    Weekly,
    Monthly,
}

/// Single approval by a buyer signer, recorded with timestamp.
#[derive(Clone, Copy, Debug, PartialEq, Eq)]
pub struct ApprovalRecord {
    pub signer: Address,
    pub approved_at: u64,
}

// ---------------------------------------------------------------------------
// Records
// ---------------------------------------------------------------------------

/// Multisig policy for milestone approve/reject. Empty `approvers` disables multisig.
#[derive(Clone, Debug, PartialEq, Eq)]
pub struct MultisigConfig {
    /// Who may approve and reject milestones.
    pub approvers: Vec<Address>,
    /// Weight per approver. An approver without a weight here weighs nothing.
    pub weights: Vec<u32>,
    /// Minimum sum of weights required to approve a submitted milestone.
    pub threshold: u32,
}

/// The model of a [`MultisigConfig`].
#[verifier::ext_equal]
pub struct MultisigConfigView {
    pub approvers: Seq<Address>,
    pub weights: Seq<u32>,
    pub threshold: u32,
}

impl View for MultisigConfig {
    type V = MultisigConfigView;

    open spec fn view(&self) -> MultisigConfigView {
        MultisigConfigView {
            approvers: self.approvers@,
            weights: self.weights@,
            threshold: self.threshold,
        }
    }
}

/// The policy of an escrow without one.
pub open spec fn no_multisig() -> MultisigConfigView {
    MultisigConfigView { approvers: Seq::empty(), weights: Seq::empty(), threshold: 0 }
}

impl MultisigConfig {
    /// The policy of an escrow without one.
    pub fn disabled() -> (r: MultisigConfig)
        ensures
            r@ == no_multisig(),
    {
        MultisigConfig { approvers: Vec::new(), weights: Vec::new(), threshold: 0 }
    }

    /// A copy of the policy.
    pub fn copied(&self) -> (r: MultisigConfig)
        ensures
            r@ == self@,
    {
        MultisigConfig {
            approvers: copy_list(&self.approvers),
            weights: copy_list(&self.weights),
            threshold: self.threshold,
        }
    }
}

/// A single milestone within an escrow agreement: a discrete deliverable with a defined
/// payment amount, released only after the client approves the submission.
#[derive(Clone, Debug, PartialEq, Eq)]
pub struct Milestone {
    /// Sequential ID within this escrow (starts at 0).
    pub id: u32,
    /// Short human-readable title.
    pub title: Text,
    /// Content hash of the full milestone description/requirements.
    pub description_hash: [u8; 32],
    /// Token amount allocated to this milestone (in base units).
    pub amount: i128,
    /// Current state of this milestone: one of the `MS_*` constants.
    pub status: MilestoneStatus,
    /// Ledger timestamp when the freelancer submitted work, if they did.
    pub submitted_at: Option<u64>,
    /// Ledger timestamp when the client approved or rejected.
    pub resolved_at: Option<u64>,
    /// Buyer approvals for this milestone (signer + timestamp).
    pub approvals: Vec<ApprovalRecord>,
}

/// The model of a [`Milestone`].
#[verifier::ext_equal]
pub struct MilestoneView {
    pub id: u32,
    pub title: Seq<u8>,
    pub description_hash: [u8; 32],
    pub amount: i128,
    pub status: MilestoneStatus,
    pub submitted_at: Option<u64>,
    pub resolved_at: Option<u64>,
    pub approvals: Seq<ApprovalRecord>,
}

impl View for Milestone {
    type V = MilestoneView;

    open spec fn view(&self) -> MilestoneView {
        MilestoneView {
            id: self.id,
            title: self.title@,
            description_hash: self.description_hash,
            amount: self.amount,
            status: self.status,
            submitted_at: self.submitted_at,
            resolved_at: self.resolved_at,
            approvals: self.approvals@,
        }
    }
}

impl Milestone {
    /// A copy of the milestone.
    pub fn copied(&self) -> (r: Milestone)
        ensures
            r@ == self@,
    {
        Milestone {
            id: self.id,
            title: copy_list(&self.title),
            description_hash: self.description_hash,
            amount: self.amount,
            status: self.status,
            submitted_at: self.submitted_at,
            resolved_at: self.resolved_at,
            approvals: copy_list(&self.approvals),
        }
    }
}

/// Configuration for a recurring/subscription escrow.
#[derive(Clone, Copy, Debug, PartialEq, Eq)]
pub struct RecurringPaymentConfig {
    /// Payment interval cadence.
    pub interval: RecurringInterval,
    /// Amount released each time a payment becomes due.
    pub payment_amount: i128,
    /// Timestamp of the first scheduled payment.
    pub start_time: u64,
    /// Timestamp when the next payment becomes due.
    pub next_payment_at: u64,
    /// Optional schedule end date.
    pub end_date: Option<u64>,
    /// Total number of scheduled payments for this escrow.
    pub total_payments: u32,
    /// Remaining scheduled payments not yet released.
    pub payments_remaining: u32,
    /// Number of payments already processed.
    pub processed_payments: u32,
    /// Whether scheduled releases are currently paused.
    pub paused: bool,
    /// Whether the recurring schedule has been cancelled.
    pub cancelled: bool,
    /// Optional timestamp when the schedule was paused.
    pub paused_at: Option<u64>,
    /// Optional timestamp of the most recent processed payment.
    pub last_payment_at: Option<u64>,
}

impl View for RecurringPaymentConfig {
    type V = RecurringPaymentConfig;

    open spec fn view(&self) -> RecurringPaymentConfig {
        *self
    }
}

/// The header of an escrow, kept apart from its milestones.
#[derive(Clone, Debug, PartialEq, Eq)]
pub struct EscrowMeta {
    pub escrow_id: u64,
    pub client: Address,
    pub freelancer: Address,
    pub token: Address,
    pub total_amount: i128,
    /// Running sum of milestone amounts added so far (allocation guard).
    pub allocated_amount: i128,
    pub remaining_balance: i128,
    pub status: EscrowStatus,
    pub milestone_count: u32,
    /// Number of milestones that were approved, released ones among them.
    pub approved_count: u32,
    /// Number of milestones whose funds were released after their approval.
    pub released_count: u32,
    /// Number of milestones in Submitted state.
    pub submitted_count: u32,
    pub arbiter: Option<Address>,
    /// Addresses authorised to approve milestone releases, the client among them.
    pub buyer_signers: Vec<Address>,
    /// The policy that governs approvals in place of the buyer signers, where it has approvers.
    pub multisig: MultisigConfig,
    pub created_at: u64,
    pub deadline: Option<u64>,
    /// Optional lock time (ledger timestamp): funds are locked until this time.
    pub lock_time: Option<u64>,
    /// Optional latest moment to which the lock time may be moved.
    pub lock_time_extension: Option<u64>,
    /// Optional timelock: controls the release window after approval.
    pub timelock: OptionalTimelock,
    pub brief_hash: [u8; 32],
    /// Prepaid storage rent reserve held by the contract in the escrow token.
    pub rent_balance: i128,
    /// Timestamp of the last successful rent collection checkpoint.
    pub last_rent_collection_at: u64,
    /// Ledger timestamp when the dispute was raised. None if not disputed.
    pub dispute_start_ledger: Option<u64>,
}

/// The model of an [`EscrowMeta`].
#[verifier::ext_equal]
pub struct EscrowMetaView {
    pub escrow_id: u64,
    pub client: Address,
    pub freelancer: Address,
    pub token: Address,
    pub total_amount: i128,
    pub allocated_amount: i128,
    pub remaining_balance: i128,
    pub status: EscrowStatus,
    pub milestone_count: u32,
    pub approved_count: u32,
    pub released_count: u32,
    pub submitted_count: u32,
    pub arbiter: Option<Address>,
    pub buyer_signers: Seq<Address>,
    pub multisig: MultisigConfigView,
    pub created_at: u64,
    pub deadline: Option<u64>,
    pub lock_time: Option<u64>,
    pub lock_time_extension: Option<u64>,
    pub timelock: OptionalTimelock,
    pub brief_hash: [u8; 32],
    pub rent_balance: i128,
    pub last_rent_collection_at: u64,
    pub dispute_start_ledger: Option<u64>,
}

impl View for EscrowMeta {
    type V = EscrowMetaView;

    open spec fn view(&self) -> EscrowMetaView {
        EscrowMetaView {
            escrow_id: self.escrow_id,
            client: self.client,
            freelancer: self.freelancer,
            token: self.token,
            total_amount: self.total_amount,
            allocated_amount: self.allocated_amount,
            remaining_balance: self.remaining_balance,
            status: self.status,
            milestone_count: self.milestone_count,
            approved_count: self.approved_count,
            released_count: self.released_count,
            submitted_count: self.submitted_count,
            arbiter: self.arbiter,
            buyer_signers: self.buyer_signers@,
            multisig: self.multisig@,
            created_at: self.created_at,
            deadline: self.deadline,
            lock_time: self.lock_time,
            lock_time_extension: self.lock_time_extension,
            timelock: self.timelock,
            brief_hash: self.brief_hash,
            rent_balance: self.rent_balance,
            last_rent_collection_at: self.last_rent_collection_at,
            dispute_start_ledger: self.dispute_start_ledger,
        }
    }
}

impl EscrowMeta {
    /// A copy of the header.
    pub fn copied(&self) -> (r: EscrowMeta)
        ensures
            r@ == self@,
    {
        EscrowMeta {
            escrow_id: self.escrow_id,
            client: self.client,
            freelancer: self.freelancer,
            token: self.token,
            total_amount: self.total_amount,
            allocated_amount: self.allocated_amount,
            remaining_balance: self.remaining_balance,
            status: self.status,
            milestone_count: self.milestone_count,
            approved_count: self.approved_count,
            released_count: self.released_count,
            submitted_count: self.submitted_count,
            arbiter: self.arbiter,
            buyer_signers: copy_list(&self.buyer_signers),
            multisig: self.multisig.copied(),
            created_at: self.created_at,
            deadline: self.deadline,
            lock_time: self.lock_time,
            lock_time_extension: self.lock_time_extension,
            timelock: self.timelock,
            brief_hash: self.brief_hash,
            rent_balance: self.rent_balance,
            last_rent_collection_at: self.last_rent_collection_at,
            dispute_start_ledger: self.dispute_start_ledger,
        }
    }
}

/// The whole escrow agreement as callers see it: the header together with its milestones.
#[derive(Clone, Debug, PartialEq, Eq)]
pub struct EscrowState {
    /// Unique identifier for this escrow (auto-incremented).
    pub escrow_id: u64,
    /// Address of the client who created and funded the escrow.
    pub client: Address,
    /// Address of the freelancer who will deliver the work.
    pub freelancer: Address,
    /// Address of the payment token's contract.
    pub token: Address,
    /// The token amount deposited for the work.
    pub total_amount: i128,
    /// Amount not yet released to the freelancer.
    pub remaining_balance: i128,
    /// Current escrow status.
    pub status: EscrowStatus,
    /// Ordered list of milestones.
    pub milestones: Vec<Milestone>,
    /// Optional: address of a trusted arbiter for dispute resolution.
    pub arbiter: Option<Address>,
    /// Addresses authorised to approve milestone releases (multi-sig). Where there are several,
    /// two of them have to approve a milestone.
    pub buyer_signers: Vec<Address>,
    /// Ledger timestamp of escrow creation.
    pub created_at: u64,
    /// Optional deadline for the entire escrow (ledger timestamp).
    pub deadline: Option<u64>,
    /// Optional lock time (ledger timestamp): funds are locked until this time.
    pub lock_time: Option<u64>,
    /// Optional latest moment to which the lock time may be moved.
    pub lock_time_extension: Option<u64>,
    /// Optional timelock for buyer remorse protection.
    pub timelock: OptionalTimelock,
    /// Hash of the full project brief / agreement document.
    pub brief_hash: [u8; 32],
    /// Multisig approvers: those of the policy, or the buyer signers where it has none.
    pub multisig_approvers: Vec<Address>,
    /// Weight per approver, where a policy governs approvals.
    pub multisig_weights: Vec<u32>,
    /// Minimum sum of weights required to approve a submitted milestone.
    pub multisig_threshold: u32,
}

/// The model of an [`EscrowState`].
#[verifier::ext_equal]
pub struct EscrowStateView {
    pub escrow_id: u64,
    pub client: Address,
    pub freelancer: Address,
    pub token: Address,
    pub total_amount: i128,
    pub remaining_balance: i128,
    pub status: EscrowStatus,
    pub milestones: Seq<MilestoneView>,
    pub arbiter: Option<Address>,
    pub buyer_signers: Seq<Address>,
    pub created_at: u64,
    pub deadline: Option<u64>,
    pub lock_time: Option<u64>,
    pub lock_time_extension: Option<u64>,
    pub timelock: OptionalTimelock,
    pub brief_hash: [u8; 32],
    pub multisig_approvers: Seq<Address>,
    pub multisig_weights: Seq<u32>,
    pub multisig_threshold: u32,
}

impl View for EscrowState {
    type V = EscrowStateView;

    open spec fn view(&self) -> EscrowStateView {
        EscrowStateView {
            escrow_id: self.escrow_id,
            client: self.client,
            freelancer: self.freelancer,
            token: self.token,
            total_amount: self.total_amount,
            remaining_balance: self.remaining_balance,
            status: self.status,
            milestones: self.milestones@.map_values(|m: Milestone| m@),
            arbiter: self.arbiter,
            buyer_signers: self.buyer_signers@,
            created_at: self.created_at,
            deadline: self.deadline,
            lock_time: self.lock_time,
            lock_time_extension: self.lock_time_extension,
            timelock: self.timelock,
            brief_hash: self.brief_hash,
            multisig_approvers: self.multisig_approvers@,
            multisig_weights: self.multisig_weights@,
            multisig_threshold: self.multisig_threshold,
        }
    }
}

/// On-chain reputation record for a user address.
#[derive(Clone, Copy, Debug, PartialEq, Eq)]
pub struct ReputationRecord {
    /// The user this record belongs to.
    pub address: Address,
    /// Total reputation points accumulated.
    pub total_score: u64,
    /// Number of escrows completed successfully.
    pub completed_escrows: u32,
    /// Number of escrows that ended in a dispute.
    pub disputed_escrows: u32,
    /// Number of disputes won (resolved in this party's favour).
    pub disputes_won: u32,
    /// Total value transacted through escrows (in base token units).
    pub total_volume: i128,
    /// Number of times this user has been slashed.
    pub slash_count: u32,
    /// Total amount slashed from this user (in base token units).
    pub total_slashed: i128,
    /// Ledger timestamp of the last reputation update.
    pub last_updated: u64,
}

impl View for ReputationRecord {
    type V = ReputationRecord;

    open spec fn view(&self) -> ReputationRecord {
        *self
    }
}

/// A cancellation request for an escrow.
#[derive(Clone, Debug, PartialEq, Eq)]
pub struct CancellationRequest {
    /// The escrow ID this request belongs to.
    pub escrow_id: u64,
    /// Address of the party requesting cancellation.
    pub requester: Address,
    /// Reason for cancellation.
    pub reason: Text,
    /// When the cancellation was requested (ledger timestamp).
    pub requested_at: u64,
    /// Deadline for disputes (ledger timestamp).
    pub dispute_deadline: u64,
    /// Whether this cancellation has been disputed.
    pub disputed: bool,
}

/// The model of a [`CancellationRequest`].
#[verifier::ext_equal]
pub struct CancellationRequestView {
    pub escrow_id: u64,
    pub requester: Address,
    pub reason: Seq<u8>,
    pub requested_at: u64,
    pub dispute_deadline: u64,
    pub disputed: bool,
}

impl View for CancellationRequest {
    type V = CancellationRequestView;

    open spec fn view(&self) -> CancellationRequestView {
        CancellationRequestView {
            escrow_id: self.escrow_id,
            requester: self.requester,
            reason: self.reason@,
            requested_at: self.requested_at,
            dispute_deadline: self.dispute_deadline,
            disputed: self.disputed,
        }
    }
}

impl CancellationRequest {
    /// A copy of the request.
    pub fn copied(&self) -> (r: CancellationRequest)
        ensures
            r@ == self@,
    {
        CancellationRequest {
            escrow_id: self.escrow_id,
            requester: self.requester,
            reason: copy_list(&self.reason),
            requested_at: self.requested_at,
            dispute_deadline: self.dispute_deadline,
            disputed: self.disputed,
        }
    }
}

/// Oracle-signed resolution payload for fallback dispute resolution.
///
/// The signature is an Ed25519 signature over the canonical message
/// `escrow_id || client_bps || freelancer_bps || expires_at`.
#[derive(Clone, Copy, Debug, PartialEq, Eq)]
pub struct OracleResolutionPayload {
    /// Escrow this resolution applies to.
    pub escrow_id: u64,
    /// Client share in basis points. Must sum to the whole with `freelancer_bps`.
    pub client_bps: u32,
    /// Freelancer share in basis points.
    pub freelancer_bps: u32,
    /// Ledger timestamp after which this payload is considered stale.
    pub expires_at: u64,
    /// Signature produced by the trusted oracle key.
    pub signature: [u8; 64],
    /// Public key of the oracle signer (must match the stored trusted key).
    pub oracle_pubkey: [u8; 32],
}

/// A slash record for tracking penalties.
#[derive(Clone, Debug, PartialEq, Eq)]
pub struct SlashRecord {
    /// The escrow ID this slash belongs to.
    pub escrow_id: u64,
    /// Address of the user being slashed.
    pub slashed_user: Address,
    /// Address of the user receiving the slash.
    pub recipient: Address,
    /// Amount being slashed.
    pub amount: i128,
    /// Reason for the slash.
    pub reason: Text,
    /// When the slash was applied (ledger timestamp).
    pub slashed_at: u64,
    /// Whether this slash has been disputed.
    pub disputed: bool,
}

/// The model of a [`SlashRecord`].
#[verifier::ext_equal]
pub struct SlashRecordView {
    pub escrow_id: u64,
    pub slashed_user: Address,
    pub recipient: Address,
    pub amount: i128,
    pub reason: Seq<u8>,
    pub slashed_at: u64,
    pub disputed: bool,
}

impl View for SlashRecord {
    type V = SlashRecordView;

    open spec fn view(&self) -> SlashRecordView {
        SlashRecordView {
            escrow_id: self.escrow_id,
            slashed_user: self.slashed_user,
            recipient: self.recipient,
            amount: self.amount,
            reason: self.reason@,
            slashed_at: self.slashed_at,
            disputed: self.disputed,
        }
    }
}

impl SlashRecord {
    /// A copy of the record.
    pub fn copied(&self) -> (r: SlashRecord)
        ensures
            r@ == self@,
    {
        SlashRecord {
            escrow_id: self.escrow_id,
            slashed_user: self.slashed_user,
            recipient: self.recipient,
            amount: self.amount,
            reason: copy_list(&self.reason),
            slashed_at: self.slashed_at,
            disputed: self.disputed,
        }
    }
}

// ---------------------------------------------------------------------------
// Meta-transactions
// ---------------------------------------------------------------------------

/// A transaction intent that a user signed off-chain and a relayer executes.
#[derive(Clone, Debug, PartialEq, Eq)]
pub struct MetaTransaction {
    /// The address of the user who signed this transaction.
    pub signer: Address,
    /// Unique nonce to prevent replay attacks.
    pub nonce: u64,
    /// Maximum timestamp when this meta-transaction is valid.
    pub deadline: u64,
    /// The function name to call.
    pub function_name: Text,
    /// Serialized function arguments.
    pub function_args: Text,
    /// Ed25519 signature of the transaction data.
    pub signature: [u8; 64],
}

/// How fees are paid when a meta-transaction is executed.
#[derive(Clone, Copy, Debug, PartialEq, Eq)]
pub struct FeeDelegation {
    /// Address that will pay the transaction fees.
    pub fee_payer: Address,
    /// Maximum fee amount that this address is willing to pay.
    pub max_fee: i128,
    /// Token contract address for fee payment.
    pub fee_token: Address,
}

// ---------------------------------------------------------------------------
// Bridged tokens
// ---------------------------------------------------------------------------

/// Canonical metadata of a wrapped (bridged) token.
#[derive(Clone, Debug, PartialEq, Eq)]
pub struct WrappedTokenInfo {
    /// The token's contract on this ledger.
    pub stellar_address: Address,
    /// The chain that the token comes from.
    pub origin_chain: Text,
    /// Whether the token may be used in escrows.
    pub is_approved: bool,
}

/// The model of a [`WrappedTokenInfo`].
#[verifier::ext_equal]
pub struct WrappedTokenInfoView {
    pub stellar_address: Address,
    pub origin_chain: Seq<u8>,
    pub is_approved: bool,
}

impl View for WrappedTokenInfo {
    type V = WrappedTokenInfoView;

    open spec fn view(&self) -> WrappedTokenInfoView {
        WrappedTokenInfoView {
            stellar_address: self.stellar_address,
            origin_chain: self.origin_chain@,
            is_approved: self.is_approved,
        }
    }
}

impl WrappedTokenInfo {
    /// A copy of the metadata.
    pub fn copied(&self) -> (r: WrappedTokenInfo)
        ensures
            r@ == self@,
    {
        WrappedTokenInfo {
            stellar_address: self.stellar_address,
            origin_chain: copy_list(&self.origin_chain),
            is_approved: self.is_approved,
        }
    }
}

/// The protocol that carries a cross-chain transfer, by its number.
#[derive(Clone, Copy, Debug, PartialEq, Eq, Structural)]
pub struct BridgeProtocol {
    pub number: u32,
}

/// How far a cross-chain transfer has been confirmed.
#[derive(Clone, Debug, PartialEq, Eq)]
pub struct BridgeConfirmation {
    pub transfer_id: Text,
    pub bridge: BridgeProtocol,
    pub confirmations: u32,
    pub is_finalized: bool,
    pub updated_at: u64,
}

/// The model of a [`BridgeConfirmation`].
#[verifier::ext_equal]
pub struct BridgeConfirmationView {
    pub transfer_id: Seq<u8>,
    pub bridge: BridgeProtocol,
    pub confirmations: u32,
    pub is_finalized: bool,
    pub updated_at: u64,
}

impl View for BridgeConfirmation {
    type V = BridgeConfirmationView;

    open spec fn view(&self) -> BridgeConfirmationView {
        BridgeConfirmationView {
            transfer_id: self.transfer_id@,
            bridge: self.bridge,
            confirmations: self.confirmations,
            is_finalized: self.is_finalized,
            updated_at: self.updated_at,
        }
    }
}

impl BridgeConfirmation {
    /// A copy of the confirmation.
    pub fn copied(&self) -> (r: BridgeConfirmation)
        ensures
            r@ == self@,
    {
        BridgeConfirmation {
            transfer_id: copy_list(&self.transfer_id),
            bridge: self.bridge,
            confirmations: self.confirmations,
            is_finalized: self.is_finalized,
            updated_at: self.updated_at,
        }
    }
}

// ---------------------------------------------------------------------------
// Storage keys
// ---------------------------------------------------------------------------

/// Contract storage keys.
#[derive(Clone, Copy, Debug, PartialEq, Eq)]
pub enum DataKey {
    /// Global escrow counter.
    EscrowCounter,
    /// A whole escrow by ID; escrows are kept under [`PackedDataKey`] instead.
    Escrow(u64),
    /// Reputation record by address.
    Reputation(Address),
    /// Contract admin address.
    Admin,
    /// Contract pause state.
    Paused,
    /// Cancellation request by escrow ID.
    CancellationRequest(u64),
    /// Slash record by escrow ID.
    SlashRecord(u64),
    /// Recurring payment config by escrow ID; kept under [`PackedDataKey`] instead.
    RecurringConfig(u64),
    /// Primary oracle contract address.
    OracleAddress,
    /// Fallback oracle contract address.
    FallbackOracleAddress,
    /// Token bridge contract address.
    WormholeBridge,
    /// Escrow IDs indexed by participant address.
    EscrowsByParticipant(Address),
    /// Escrow IDs indexed by status.
    EscrowsByStatus(EscrowStatus),
    /// Escrow IDs with active cancellation requests indexed by requester.
    CancellationsByRequester(Address),
    /// Escrow IDs indexed by slashed user address.
    SlashsByAddress(Address),
    /// Dispute resolution oracle payload by escrow ID.
    OracleResolution(u64),
    /// Trusted oracle Ed25519 public key for fallback dispute resolution.
    TrustedOracleKey,
}

/// Keys of the entries that an escrow is split into: the header apart from each milestone,
/// so that an operation reads and writes only what it touches.
#[derive(Clone, Copy, Debug, PartialEq, Eq, Structural)]
pub enum PackedDataKey {
    EscrowMeta(u64),
    Milestone(u64, u32),
    RecurringConfig(u64),
}

} // verus!
