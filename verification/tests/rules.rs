use escrow_contract::cancellation::{CANCELLATION_DISPUTE_PERIOD, SLASH_DISPUTE_PERIOD};
use escrow_contract::contract::EscrowContract;
use escrow_contract::errors::EscrowError;
use escrow_contract::ledger::{EntryKey, Env, Event, HostCall};
use escrow_contract::locks::{MAX_TIMELOCK_SECONDS, MIN_TIMELOCK_SECONDS};
use escrow_contract::milestones::MAX_MILESTONES;
use escrow_contract::rent::RENT_PERIOD_SECONDS;
use escrow_contract::storage::ContractStorage;
use escrow_contract::table::Table;
use escrow_contract::types::{
    Address, ApprovalRecord, BridgeProtocol, EscrowStatus, MultisigConfig, OptionalTimelock,
    OracleResolutionPayload, PackedDataKey, RecurringInterval, Text, Timelock, WrappedTokenInfo,
    MS_APPROVED, MS_BLOCKS_CANCEL, MS_DISPUTED, MS_PENDING, MS_REJECTED, MS_RELEASED,
    MS_SUBMITTED, MS_TERMINAL,
};

const ADMIN: u8 = 1;
const CLIENT: u8 = 2;
const FREELANCER: u8 = 3;
const ARBITER: u8 = 4;
const TOKEN: u8 = 5;
const STRANGER: u8 = 6;
const CONTRACT: u8 = 7;
const DAY: u64 = 86_400;

fn address(n: u8) -> Address {
    Address { strkey: [n; 56] }
}

fn text(s: &str) -> Text {
    s.as_bytes().to_vec()
}

fn no_multisig() -> MultisigConfig {
    MultisigConfig { approvers: Vec::new(), weights: Vec::new(), threshold: 0 }
}

/// A contract that was set up, at time 1000.
fn fresh() -> Env {
    let mut env = Env::new(1_000, address(CONTRACT));
    EscrowContract::initialize(&mut env, address(ADMIN)).unwrap();
    env
}

/// Forgets what the last request asked of the host.
fn next_request(env: &mut Env) {
    env.calls.clear();
    env.auths.clear();
    env.touched.clear();
    env.instance_touched = false;
}

fn create_with(
    env: &mut Env,
    amount: i128,
    deadline: Option<u64>,
    lock_time: Option<u64>,
) -> Result<u64, EscrowError> {
    EscrowContract::create_escrow(
        env,
        address(CLIENT),
        address(FREELANCER),
        address(TOKEN),
        amount,
        [1; 32],
        Some(address(ARBITER)),
        deadline,
        lock_time,
        None,
        no_multisig(),
    )
}

/// A contract with escrow 0 over 1000, and nothing asked of the host yet.
fn with_escrow() -> Env {
    let mut env = fresh();
    assert_eq!(create_with(&mut env, 1_000, None, None), Ok(0));
    next_request(&mut env);
    env
}

fn add(env: &mut Env, amount: i128) -> Result<u32, EscrowError> {
    EscrowContract::add_milestone(env, address(CLIENT), 0, text("Work"), [2; 32], amount)
}

fn submit(env: &mut Env, mid: u32) -> Result<(), EscrowError> {
    EscrowContract::submit_milestone(env, address(FREELANCER), 0, mid)
}

fn approve(env: &mut Env, mid: u32) -> Result<(), EscrowError> {
    EscrowContract::approve_milestone(env, address(CLIENT), 0, mid)
}

fn recurring(
    env: &mut Env,
    amount: i128,
    interval: RecurringInterval,
    start: u64,
    end: Option<u64>,
    count: Option<u32>,
) -> Result<u64, EscrowError> {
    EscrowContract::create_recurring_escrow(
        env,
        address(CLIENT),
        address(FREELANCER),
        address(TOKEN),
        amount,
        interval,
        start,
        end,
        count,
        [3; 32],
    )
}

fn request_cancellation(env: &mut Env, caller: u8) -> Result<(), EscrowError> {
    EscrowContract::request_cancellation(env, address(caller), 0, text("why"))
}

/// The transfers that were asked for, in order: from, to and amount.
fn transfers(env: &Env) -> Vec<(Address, Address, i128)> {
    let mut list = Vec::new();
    for call in &env.calls {
        if let HostCall::Transfer { token, from, to, amount } = call {
            assert_eq!(*token, address(TOKEN));
            list.push((*from, *to, *amount));
        }
    }
    list
}

/// The events that were announced, in order.
fn events(env: &Env) -> Vec<Event<Text>> {
    let mut list = Vec::new();
    for call in &env.calls {
        if let HostCall::Publish(event) = call {
            list.push(event.clone());
        }
    }
    list
}

fn paid(from: u8, to: u8, amount: i128) -> (Address, Address, i128) {
    (address(from), address(to), amount)
}

fn payload(expires_at: u64, client_bps: u32) -> OracleResolutionPayload {
    OracleResolutionPayload {
        escrow_id: 0,
        client_bps,
        freelancer_bps: 10_000 - client_bps,
        expires_at,
        signature: [9; 64],
        oracle_pubkey: [8; 32],
    }
}

// --- Set-up and settings ---

#[test]
fn initialize_happens_once() {
    let mut env = Env::new(5, address(CONTRACT));
    assert_eq!(EscrowContract::initialize(&mut env, address(ADMIN)), Ok(()));
    assert_eq!(env.admin, Some(address(ADMIN)));
    assert_eq!(env.escrow_counter, Some(0));
    assert_eq!(env.calls, vec![HostCall::InitStorageVersion]);
    assert!(env.instance_touched);
    assert_eq!(
        EscrowContract::initialize(&mut env, address(STRANGER)),
        Err(EscrowError::AlreadyInitialized)
    );
    assert_eq!(env.admin, Some(address(ADMIN)));
}

#[test]
fn settings_are_for_the_admin() {
    let mut bare = Env::new(5, address(CONTRACT));
    assert_eq!(
        EscrowContract::set_oracle(&mut bare, address(ADMIN), address(9)),
        Err(EscrowError::NotInitialized)
    );
    let mut env = fresh();
    next_request(&mut env);
    assert_eq!(
        EscrowContract::set_oracle(&mut env, address(CLIENT), address(9)),
        Err(EscrowError::AdminOnly)
    );
    assert!(env.auths.is_empty());
    assert_eq!(EscrowContract::set_oracle(&mut env, address(ADMIN), address(9)), Ok(()));
    assert_eq!(EscrowContract::set_fallback_oracle(&mut env, address(ADMIN), address(10)), Ok(()));
    assert_eq!(EscrowContract::set_wormhole_bridge(&mut env, address(ADMIN), address(11)), Ok(()));
    assert_eq!(EscrowContract::set_trusted_oracle_key(&mut env, address(ADMIN), [8; 32]), Ok(()));
    assert_eq!(env.oracle, Some(address(9)));
    assert_eq!(env.fallback_oracle, Some(address(10)));
    assert_eq!(env.wormhole_bridge, Some(address(11)));
    assert_eq!(env.trusted_oracle_key, Some([8; 32]));
    assert_eq!(env.auths, vec![address(ADMIN); 4]);
}

#[test]
fn prices_need_a_set_up_contract() {
    let mut bare = Env::new(5, address(CONTRACT));
    assert_eq!(EscrowContract::get_price(&mut bare, Ok(7)), Err(EscrowError::NotInitialized));
    assert_eq!(EscrowContract::convert_amount(&mut bare, Ok(7)), Err(EscrowError::NotInitialized));
    let mut env = fresh();
    assert_eq!(EscrowContract::get_price(&mut env, Ok(7)), Ok(7));
    assert_eq!(
        EscrowContract::convert_amount(&mut env, Err(EscrowError::OraclePriceStale)),
        Err(EscrowError::OraclePriceStale)
    );
}

#[test]
fn upgrade_migrates_first() {
    let mut env = fresh();
    next_request(&mut env);
    assert_eq!(
        EscrowContract::upgrade(&mut env, address(CLIENT), [4; 32]),
        Err(EscrowError::AdminOnly)
    );
    assert!(env.calls.is_empty());
    assert_eq!(EscrowContract::upgrade(&mut env, address(ADMIN), [4; 32]), Ok(()));
    assert_eq!(env.calls, vec![HostCall::MigrateStorage, HostCall::UpdateWasm { hash: [4; 32] }]);
}

#[test]
fn pausing_is_announced_once() {
    let mut env = fresh();
    next_request(&mut env);
    assert_eq!(EscrowContract::pause(&mut env, address(ADMIN)), Ok(()));
    assert_eq!(EscrowContract::pause(&mut env, address(ADMIN)), Ok(()));
    assert_eq!(events(&env), vec![Event::ContractPaused { by: address(ADMIN) }]);
    next_request(&mut env);
    assert_eq!(EscrowContract::unpause(&mut env, address(ADMIN)), Ok(()));
    assert_eq!(EscrowContract::unpause(&mut env, address(ADMIN)), Ok(()));
    assert_eq!(events(&env), vec![Event::ContractUnpaused { by: address(ADMIN) }]);
    assert_eq!(env.paused, Some(false));
    assert_eq!(create_with(&mut env, 10, None, None), Ok(0));
}

#[test]
fn unapproved_wrapped_tokens_are_refused() {
    let mut env = fresh();
    let info = |is_approved: bool| WrappedTokenInfo {
        stellar_address: address(TOKEN),
        origin_chain: text("ethereum"),
        is_approved,
    };
    assert!(EscrowContract::get_wrapped_token_info(&env, address(TOKEN)).is_none());
    assert_eq!(
        EscrowContract::register_wrapped_token(&mut env, address(CLIENT), info(true)),
        Err(EscrowError::AdminOnly)
    );
    assert_eq!(
        EscrowContract::register_wrapped_token(&mut env, address(ADMIN), info(false)),
        Ok(())
    );
    assert_eq!(create_with(&mut env, 10, None, None), Err(EscrowError::BridgeError));
    assert_eq!(
        EscrowContract::register_wrapped_token(&mut env, address(ADMIN), info(true)),
        Ok(())
    );
    assert_eq!(
        EscrowContract::get_wrapped_token_info(&env, address(TOKEN)),
        Some(info(true))
    );
    assert_eq!(create_with(&mut env, 10, None, None), Ok(0));
}

#[test]
fn bridge_confirmations_become_final() {
    let mut env = fresh();
    let id = text("transfer");
    let protocol = BridgeProtocol { number: 1 };
    for (confirmations, is_finalized) in [(14, false), (15, true)] {
        next_request(&mut env);
        assert_eq!(
            EscrowContract::update_bridge_confirmation(
                &mut env,
                id.clone(),
                protocol,
                confirmations,
                15,
            ),
            Ok(())
        );
        let stored = EscrowContract::get_bridge_confirmation(&env, id.clone()).unwrap();
        assert_eq!(stored.confirmations, confirmations);
        assert_eq!(stored.is_finalized, is_finalized);
        assert_eq!(stored.updated_at, 1_000);
        assert_eq!(
            events(&env),
            vec![Event::BridgeConfirmationUpdated {
                transfer_id: id.clone(),
                confirmations,
                is_finalized,
            }]
        );
    }
    assert!(EscrowContract::get_bridge_confirmation(&env, text("other")).is_none());
}

// --- Creating ---

#[test]
fn creation_asks_for_the_amount_and_the_reserve() {
    let mut env = fresh();
    next_request(&mut env);
    assert_eq!(create_with(&mut env, 500, Some(1_001), Some(1_002)), Ok(0));
    assert_eq!(env.auths, vec![address(CLIENT)]);
    assert_eq!(
        transfers(&env),
        vec![paid(CLIENT, CONTRACT, 500), paid(CLIENT, CONTRACT, 30)]
    );
    assert_eq!(
        events(&env),
        vec![Event::EscrowCreated {
            escrow_id: 0,
            client: address(CLIENT),
            freelancer: address(FREELANCER),
            amount: 500,
        }]
    );
    assert_eq!(create_with(&mut env, 500, None, None), Ok(1));
    assert_eq!(EscrowContract::escrow_count(&mut env), 2);
}

#[test]
fn creation_checks_its_arguments() {
    let mut bare = Env::new(5, address(CONTRACT));
    assert_eq!(create_with(&mut bare, 10, None, None), Err(EscrowError::NotInitialized));
    let mut env = fresh();
    assert_eq!(create_with(&mut env, 0, None, None), Err(EscrowError::InvalidEscrowAmount));
    assert_eq!(create_with(&mut env, -1, None, None), Err(EscrowError::InvalidEscrowAmount));
    assert_eq!(create_with(&mut env, 10, Some(1_000), None), Err(EscrowError::InvalidDeadline));
    assert_eq!(create_with(&mut env, 10, None, Some(1_000)), Err(EscrowError::InvalidLockTime));
    assert_eq!(env.escrows.len(), 0);
    assert_eq!(env.escrow_counter, Some(0));
}

#[test]
fn the_client_is_always_a_buyer_signer() {
    let mut env = fresh();
    for (named, expected) in [
        (vec![], vec![address(CLIENT)]),
        (vec![address(STRANGER)], vec![address(STRANGER), address(CLIENT)]),
        (vec![address(CLIENT), address(STRANGER)], vec![address(CLIENT), address(STRANGER)]),
    ] {
        let id = EscrowContract::create_escrow_with_buyer_signers(
            &mut env,
            address(CLIENT),
            address(FREELANCER),
            address(TOKEN),
            100,
            [1; 32],
            None,
            None,
            None,
            named,
        )
        .unwrap();
        let state = EscrowContract::get_escrow(&mut env, id).unwrap();
        assert_eq!(state.buyer_signers, expected);
        assert_eq!(state.multisig_approvers, expected);
        assert_eq!(state.multisig_threshold, 0);
    }
}

#[test]
fn a_created_escrow_reads_back() {
    let mut env = with_escrow();
    let state = EscrowContract::get_escrow(&mut env, 0).unwrap();
    assert_eq!(state.client, address(CLIENT));
    assert_eq!(state.freelancer, address(FREELANCER));
    assert_eq!(state.total_amount, 1_000);
    assert_eq!(state.remaining_balance, 1_000);
    assert_eq!(state.status, EscrowStatus::Active);
    assert_eq!(state.arbiter, Some(address(ARBITER)));
    assert!(state.milestones.is_empty());
    assert_eq!(state.created_at, 1_000);
    assert_eq!(state.timelock, OptionalTimelock::Absent);
    assert!(matches!(
        EscrowContract::get_escrow(&mut env, 1),
        Err(EscrowError::EscrowNotFound)
    ));
}

// --- Milestones ---

#[test]
fn milestones_are_numbered_in_order() {
    let mut env = with_escrow();
    assert_eq!(add(&mut env, 100), Ok(0));
    assert_eq!(add(&mut env, 200), Ok(1));
    let state = EscrowContract::get_escrow(&mut env, 0).unwrap();
    assert_eq!(state.milestones.len(), 2);
    assert_eq!(state.milestones[0].id, 0);
    assert_eq!(state.milestones[1].amount, 200);
    assert_eq!(state.milestones[1].status, MS_PENDING);
    assert_eq!(state.milestones[1].title, text("Work"));
    let meta = env.escrows.get(&0).unwrap();
    assert_eq!(meta.allocated_amount, 300);
    assert_eq!(meta.rent_balance, 90);
    assert_eq!(
        transfers(&env),
        vec![paid(CLIENT, CONTRACT, 30), paid(CLIENT, CONTRACT, 30)]
    );
}

#[test]
fn adding_checks_its_arguments() {
    let mut env = with_escrow();
    assert_eq!(add(&mut env, 0), Err(EscrowError::InvalidMilestoneAmount));
    assert_eq!(
        EscrowContract::add_milestone(&mut env, address(CLIENT), 9, text(""), [0; 32], 1),
        Err(EscrowError::EscrowNotFound)
    );
    assert_eq!(
        EscrowContract::add_milestone(&mut env, address(STRANGER), 0, text(""), [0; 32], 1),
        Err(EscrowError::ClientOnly)
    );
    assert_eq!(add(&mut env, 1_001), Err(EscrowError::MilestoneAmountExceedsEscrow));
    assert_eq!(add(&mut env, i128::MAX), Err(EscrowError::MilestoneAmountExceedsEscrow));
    for mid in 0..MAX_MILESTONES {
        assert_eq!(add(&mut env, 1), Ok(mid));
    }
    assert_eq!(add(&mut env, 1), Err(EscrowError::TooManyMilestones));
    EscrowContract::raise_dispute(&mut env, address(CLIENT), 0, None).unwrap();
    assert_eq!(add(&mut env, 1), Err(EscrowError::EscrowNotActive));
}

#[test]
fn submission_is_for_the_freelancer() {
    let mut env = with_escrow();
    add(&mut env, 100).unwrap();
    assert_eq!(
        EscrowContract::submit_milestone(&mut env, address(CLIENT), 0, 0),
        Err(EscrowError::FreelancerOnly)
    );
    assert_eq!(submit(&mut env, 1), Err(EscrowError::MilestoneNotFound));
    assert_eq!(submit(&mut env, 0), Ok(()));
    assert_eq!(submit(&mut env, 0), Err(EscrowError::InvalidMilestoneState));
    let milestone = EscrowContract::get_milestone(&mut env, 0, 0).unwrap();
    assert_eq!(milestone.status, MS_SUBMITTED);
    assert_eq!(milestone.submitted_at, Some(1_000));
}

#[test]
fn counters_follow_the_milestones() {
    let mut env = with_escrow();
    for _ in 0..3 {
        add(&mut env, 100).unwrap();
    }
    let counts = |env: &Env| {
        let meta = env.escrows.get(&0).unwrap();
        (meta.submitted_count, meta.approved_count, meta.released_count)
    };
    submit(&mut env, 0).unwrap();
    submit(&mut env, 1).unwrap();
    assert_eq!(counts(&env), (2, 0, 0));
    EscrowContract::reject_milestone(&mut env, address(CLIENT), 0, 1).unwrap();
    assert_eq!(counts(&env), (1, 0, 0));
    approve(&mut env, 0).unwrap();
    assert_eq!(counts(&env), (0, 1, 1));
    submit(&mut env, 1).unwrap();
    EscrowContract::raise_dispute(&mut env, address(FREELANCER), 0, Some(1)).unwrap();
    assert_eq!(counts(&env), (0, 1, 1));
    let milestone = EscrowContract::get_milestone(&mut env, 0, 1).unwrap();
    assert_eq!(milestone.status, MS_DISPUTED);
}

#[test]
fn approval_pays_at_once() {
    let mut env = with_escrow();
    add(&mut env, 400).unwrap();
    add(&mut env, 600).unwrap();
    submit(&mut env, 0).unwrap();
    next_request(&mut env);
    assert_eq!(approve(&mut env, 0), Ok(()));
    assert_eq!(transfers(&env), vec![paid(CONTRACT, FREELANCER, 400)]);
    assert_eq!(
        events(&env),
        vec![
            Event::FundsReleased { escrow_id: 0, to: address(FREELANCER), amount: 400 },
            Event::MilestoneApproved { escrow_id: 0, milestone_id: 0, amount: 400 },
        ]
    );
    let milestone = EscrowContract::get_milestone(&mut env, 0, 0).unwrap();
    assert_eq!(milestone.status, MS_RELEASED);
    assert_eq!(milestone.resolved_at, Some(1_000));
    assert_eq!(env.escrows.get(&0).unwrap().remaining_balance, 600);
    assert_eq!(env.escrows.get(&0).unwrap().status, EscrowStatus::Active);
}

#[test]
fn nothing_is_paid_twice() {
    let mut env = with_escrow();
    add(&mut env, 400).unwrap();
    add(&mut env, 100).unwrap();
    submit(&mut env, 0).unwrap();
    approve(&mut env, 0).unwrap();
    assert_eq!(approve(&mut env, 0), Err(EscrowError::InvalidMilestoneState));
    assert_eq!(submit(&mut env, 0), Err(EscrowError::InvalidMilestoneState));
    assert_eq!(
        EscrowContract::release_funds(&mut env, address(ADMIN), 0, 0),
        Err(EscrowError::InvalidMilestoneState)
    );
    assert_eq!(
        EscrowContract::batch_approve_milestones(&mut env, address(CLIENT), 0, vec![1, 0]),
        Err(EscrowError::InvalidMilestoneState)
    );
    assert_eq!(
        EscrowContract::batch_release_funds(&mut env, address(ADMIN), 0, vec![0]),
        Err(EscrowError::InvalidMilestoneState)
    );
}

#[test]
fn approval_checks_who_asks() {
    let mut env = with_escrow();
    add(&mut env, 400).unwrap();
    submit(&mut env, 0).unwrap();
    assert_eq!(
        EscrowContract::approve_milestone(&mut env, address(FREELANCER), 0, 0),
        Err(EscrowError::Unauthorized)
    );
    assert_eq!(approve(&mut env, 5), Err(EscrowError::MilestoneNotFound));
    assert_eq!(
        EscrowContract::reject_milestone(&mut env, address(FREELANCER), 0, 0),
        Err(EscrowError::ClientOnly)
    );
}

#[test]
fn a_refused_request_changes_nothing_but_its_demand() {
    let mut env = with_escrow();
    add(&mut env, 400).unwrap();
    next_request(&mut env);
    env.timestamp += 5 * DAY;
    let before = env.clone();
    assert_eq!(approve(&mut env, 0), Err(EscrowError::InvalidMilestoneState));
    assert_eq!(env.auths, vec![address(CLIENT)]);
    assert!(env.calls.is_empty());
    assert!(env.touched.is_empty());
    assert_eq!(env.escrows.get(&0), before.escrows.get(&0));
}

#[test]
fn lock_time_holds_funds_back() {
    let mut env = fresh();
    create_with(&mut env, 1_000, None, Some(2_000)).unwrap();
    add(&mut env, 400).unwrap();
    submit(&mut env, 0).unwrap();
    assert_eq!(approve(&mut env, 0), Err(EscrowError::LockTimeNotExpired));
    assert_eq!(
        EscrowContract::extend_lock_time(&mut env, address(FREELANCER), 0, 3_000),
        Err(EscrowError::ClientOnly)
    );
    assert_eq!(
        EscrowContract::extend_lock_time(&mut env, address(CLIENT), 0, 1_000),
        Err(EscrowError::InvalidLockTimeExtension)
    );
    next_request(&mut env);
    assert_eq!(EscrowContract::extend_lock_time(&mut env, address(CLIENT), 0, 3_000), Ok(()));
    assert_eq!(
        events(&env),
        vec![Event::LockTimeExtended {
            escrow_id: 0,
            old_lock_time: 2_000,
            new_lock_time: 3_000,
            by: address(CLIENT),
        }]
    );
    env.timestamp = 2_999;
    assert_eq!(approve(&mut env, 0), Err(EscrowError::LockTimeNotExpired));
    env.timestamp = 3_000;
    next_request(&mut env);
    assert_eq!(approve(&mut env, 0), Ok(()));
    assert_eq!(events(&env)[0], Event::LockTimeExpired { escrow_id: 0, lock_time: 3_000 });
}

#[test]
fn timelock_holds_funds_back() {
    let mut env = with_escrow();
    add(&mut env, 400).unwrap();
    submit(&mut env, 0).unwrap();
    for duration in [0, 1, MIN_TIMELOCK_SECONDS - 1, MAX_TIMELOCK_SECONDS + 1] {
        assert_eq!(
            EscrowContract::start_timelock(&mut env, address(CLIENT), 0, duration),
            Err(EscrowError::InvalidTimelockDuration)
        );
    }
    assert_eq!(
        EscrowContract::start_timelock(&mut env, address(STRANGER), 0, DAY),
        Err(EscrowError::Unauthorized)
    );
    assert_eq!(EscrowContract::start_timelock(&mut env, address(FREELANCER), 0, DAY), Ok(()));
    assert_eq!(
        EscrowContract::start_timelock(&mut env, address(CLIENT), 0, DAY),
        Err(EscrowError::TimelockAlreadyActive)
    );
    env.timestamp = 999 + DAY;
    let timelock = env.escrows.get(&0).unwrap().timelock;
    assert_eq!(
        ContractStorage::check_timelock_expired(&env, timelock),
        Err(EscrowError::TimelockNotExpired)
    );
    next_request(&mut env);
    assert_eq!(approve(&mut env, 0), Ok(()));
    assert!(transfers(&env).is_empty());
    assert_eq!(EscrowContract::get_milestone(&mut env, 0, 0).unwrap().status, MS_APPROVED);
    assert_eq!(env.escrows.get(&0).unwrap().remaining_balance, 1_000);

    env.timestamp = 1_000 + DAY;
    next_request(&mut env);
    assert_eq!(
        EscrowContract::release_funds(&mut env, address(CLIENT), 0, 0),
        Err(EscrowError::AdminOnly)
    );
    assert_eq!(EscrowContract::release_funds(&mut env, address(ADMIN), 0, 0), Ok(()));
    assert_eq!(transfers(&env), vec![paid(CONTRACT, ADMIN, 2), paid(CONTRACT, FREELANCER, 400)]);
    assert_eq!(events(&env)[1], Event::TimelockReleased { escrow_id: 0, at: 1_000 + DAY });
    // What is left of the escrow keeps it active.
    assert_eq!(env.escrows.get(&0).unwrap().status, EscrowStatus::Active);
    assert_eq!(env.escrows.get(&0).unwrap().remaining_balance, 600);
}

#[test]
fn an_endless_timelock_is_invalid() {
    let env = fresh();
    let timelock =
        OptionalTimelock::Present(Timelock { duration_ledger: u64::MAX, start_ledger: 1 });
    assert_eq!(
        ContractStorage::check_timelock_expired(&env, timelock),
        Err(EscrowError::InvalidTimelockDuration)
    );
    assert_eq!(
        ContractStorage::check_timelock_expired(&env, OptionalTimelock::Absent),
        Ok(())
    );
}

#[test]
fn optional_timelocks_carry_over() {
    let t = Timelock { duration_ledger: 3, start_ledger: 4 };
    assert_eq!(OptionalTimelock::from(Some(t)), OptionalTimelock::Present(t));
    assert_eq!(Option::<Timelock>::from(OptionalTimelock::Present(t)), Some(t));
    assert_eq!(OptionalTimelock::from(None), OptionalTimelock::Absent);
    assert_eq!(Option::<Timelock>::from(OptionalTimelock::Absent), None);
}

#[test]
fn status_masks_decide_membership() {
    for status in [MS_PENDING, MS_SUBMITTED, MS_APPROVED, MS_RELEASED, MS_REJECTED, MS_DISPUTED] {
        assert_eq!(status.count_ones(), 1);
        assert_eq!(
            status & MS_TERMINAL != 0,
            status == MS_RELEASED || status == MS_DISPUTED
        );
        assert_eq!(
            status & MS_BLOCKS_CANCEL != 0,
            status == MS_SUBMITTED || status == MS_APPROVED
        );
    }
}

// --- Batches ---

#[test]
fn a_batch_is_added_at_once() {
    let mut env = with_escrow();
    let titles = vec![text("a"), text("b")];
    let hashes = vec![[1; 32], [2; 32]];
    let batch = |env: &mut Env, titles: &Vec<Text>, hashes: &Vec<[u8; 32]>, amounts: Vec<i128>| {
        EscrowContract::batch_add_milestones(
            env,
            address(CLIENT),
            0,
            titles.clone(),
            hashes.clone(),
            amounts,
        )
    };
    assert_eq!(
        batch(&mut env, &vec![], &vec![], vec![]),
        Err(EscrowError::InvalidMilestoneAmount)
    );
    assert_eq!(
        batch(&mut env, &titles, &hashes, vec![1]),
        Err(EscrowError::InvalidMilestoneAmount)
    );
    assert_eq!(
        batch(&mut env, &titles, &hashes, vec![1, 0]),
        Err(EscrowError::InvalidMilestoneAmount)
    );
    assert_eq!(
        batch(&mut env, &titles, &hashes, vec![i128::MAX, 1]),
        Err(EscrowError::MilestoneAmountExceedsEscrow)
    );
    assert_eq!(
        batch(&mut env, &titles, &hashes, vec![600, 401]),
        Err(EscrowError::MilestoneAmountExceedsEscrow)
    );
    assert_eq!(
        batch(&mut env, &vec![text(""); 21], &vec![[0; 32]; 21], vec![1; 21]),
        Err(EscrowError::TooManyMilestones)
    );
    next_request(&mut env);
    assert_eq!(batch(&mut env, &titles, &hashes, vec![600, 400]), Ok(0));
    assert_eq!(transfers(&env), vec![paid(CLIENT, CONTRACT, 60)]);
    assert_eq!(events(&env).len(), 2);
    let second = EscrowContract::get_milestone(&mut env, 0, 1).unwrap();
    assert_eq!(second.title, text("b"));
    assert_eq!(second.description_hash, [2; 32]);
    assert_eq!(second.amount, 400);
    assert_eq!(env.escrows.get(&0).unwrap().milestone_count, 2);
    assert_eq!(add(&mut env, 1), Err(EscrowError::MilestoneAmountExceedsEscrow));
}

#[test]
fn a_batch_is_approved_with_one_transfer() {
    let mut env = with_escrow();
    for amount in [100, 200, 300] {
        let mid = add(&mut env, amount).unwrap();
        submit(&mut env, mid).unwrap();
    }
    assert_eq!(
        EscrowContract::batch_approve_milestones(&mut env, address(CLIENT), 0, vec![]),
        Err(EscrowError::InvalidMilestoneAmount)
    );
    assert_eq!(
        EscrowContract::batch_approve_milestones(&mut env, address(CLIENT), 0, vec![0, 7]),
        Err(EscrowError::MilestoneNotFound)
    );
    assert_eq!(
        EscrowContract::batch_approve_milestones(&mut env, address(STRANGER), 0, vec![0]),
        Err(EscrowError::Unauthorized)
    );
    next_request(&mut env);
    assert_eq!(
        EscrowContract::batch_approve_milestones(&mut env, address(CLIENT), 0, vec![2, 0]),
        Ok(400)
    );
    assert_eq!(transfers(&env), vec![paid(CONTRACT, FREELANCER, 400)]);
    let meta = env.escrows.get(&0).unwrap();
    assert_eq!(
        (meta.submitted_count, meta.approved_count, meta.released_count),
        (1, 2, 2)
    );
    assert_eq!(meta.status, EscrowStatus::Active);
    assert_eq!(
        EscrowContract::batch_approve_milestones(&mut env, address(CLIENT), 0, vec![1]),
        Ok(200)
    );
    // All milestones are released, but something remains.
    assert_eq!(env.escrows.get(&0).unwrap().status, EscrowStatus::Active);
    assert_eq!(env.escrows.get(&0).unwrap().remaining_balance, 400);
    add(&mut env, 400).unwrap();
    submit(&mut env, 3).unwrap();
    assert_eq!(
        EscrowContract::batch_approve_milestones(&mut env, address(CLIENT), 0, vec![3]),
        Ok(400)
    );
    assert_eq!(env.escrows.get(&0).unwrap().status, EscrowStatus::Completed);
    assert_eq!(env.escrows.get(&0).unwrap().remaining_balance, 0);
    for (status, ids) in [(EscrowStatus::Active, vec![]), (EscrowStatus::Completed, vec![0])] {
        assert_eq!(EscrowContract::get_escrow_ids_by_status(&env, status, 0, 9), ids);
    }
}

#[test]
fn a_batch_names_each_milestone_once() {
    let mut env = with_escrow();
    let mid = add(&mut env, 100).unwrap();
    submit(&mut env, mid).unwrap();
    assert_eq!(
        EscrowContract::batch_approve_milestones(&mut env, address(CLIENT), 0, vec![0, 0]),
        Err(EscrowError::InvalidMilestoneState)
    );
    // A milestone that is not there counts before one that is named twice.
    assert_eq!(
        EscrowContract::batch_approve_milestones(&mut env, address(CLIENT), 0, vec![0, 0, 7]),
        Err(EscrowError::MilestoneNotFound)
    );
    EscrowContract::start_timelock(&mut env, address(CLIENT), 0, DAY).unwrap();
    assert_eq!(
        EscrowContract::batch_approve_milestones(&mut env, address(CLIENT), 0, vec![0]),
        Ok(100)
    );
    assert_eq!(
        EscrowContract::batch_release_funds(&mut env, address(ADMIN), 0, vec![0, 0, 7]),
        Err(EscrowError::MilestoneNotFound)
    );
    assert_eq!(
        EscrowContract::batch_release_funds(&mut env, address(ADMIN), 0, vec![0, 0]),
        Err(EscrowError::InvalidMilestoneState)
    );
    assert_eq!(env.escrows.get(&0).unwrap().remaining_balance, 1_000);
}

#[test]
fn a_batch_is_what_its_parts_are() {
    let mut batch = with_escrow();
    for amount in [100, 300, 600] {
        let mid = add(&mut batch, amount).unwrap();
        submit(&mut batch, mid).unwrap();
    }
    let mut single = batch.clone();
    assert_eq!(
        EscrowContract::batch_approve_milestones(&mut batch, address(CLIENT), 0, vec![0, 1, 2]),
        Ok(1_000)
    );
    for mid in [0, 1, 2] {
        approve(&mut single, mid).unwrap();
    }
    assert_eq!(batch.escrows.get(&0), single.escrows.get(&0));
    for mid in [0, 1, 2] {
        assert_eq!(batch.milestones.get(&(0, mid)), single.milestones.get(&(0, mid)));
    }
    assert_eq!(batch.escrows.get(&0).unwrap().status, EscrowStatus::Completed);
    let sum = |env: &Env| {
        let mut total = 0;
        for (_, to, amount) in transfers(env) {
            if to == address(FREELANCER) {
                total += amount;
            }
        }
        total
    };
    assert_eq!(sum(&batch), 1_000);
    assert_eq!(sum(&single), 1_000);
}

// --- Several approvers ---

fn with_signers(signers: Vec<Address>) -> Env {
    let mut env = fresh();
    EscrowContract::create_escrow_with_buyer_signers(
        &mut env,
        address(CLIENT),
        address(FREELANCER),
        address(TOKEN),
        100,
        [1; 32],
        None,
        None,
        None,
        signers,
    )
    .unwrap();
    add(&mut env, 100).unwrap();
    submit(&mut env, 0).unwrap();
    next_request(&mut env);
    env
}

#[test]
fn it_takes_two_of_several_signers() {
    let mut env = with_signers(vec![address(STRANGER), address(ARBITER)]);
    let by = |env: &mut Env, who: u8| EscrowContract::approve_milestone(env, address(who), 0, 0);
    assert_eq!(by(&mut env, STRANGER), Ok(()));
    assert!(env.calls.is_empty());
    let milestone = EscrowContract::get_milestone(&mut env, 0, 0).unwrap();
    assert_eq!(milestone.status, MS_SUBMITTED);
    assert_eq!(
        milestone.approvals,
        vec![ApprovalRecord { signer: address(STRANGER), approved_at: 1_000 }]
    );
    let meta = env.escrows.get(&0).unwrap();
    assert_eq!((meta.submitted_count, meta.approved_count, meta.released_count), (1, 0, 0));
    assert_eq!(by(&mut env, STRANGER), Err(EscrowError::InvalidMilestoneState));
    assert_eq!(by(&mut env, ADMIN), Err(EscrowError::Unauthorized));
    env.timestamp = 1_001;
    assert_eq!(by(&mut env, CLIENT), Ok(()));
    assert_eq!(transfers(&env), vec![paid(CONTRACT, FREELANCER, 100)]);
    let milestone = EscrowContract::get_milestone(&mut env, 0, 0).unwrap();
    assert_eq!(milestone.status, MS_RELEASED);
    assert_eq!(
        milestone.approvals[1],
        ApprovalRecord { signer: address(CLIENT), approved_at: 1_001 }
    );
    assert_eq!(env.escrows.get(&0).unwrap().status, EscrowStatus::Completed);
}

#[test]
fn a_rejection_voids_approvals() {
    let mut env = with_signers(vec![address(STRANGER)]);
    EscrowContract::approve_milestone(&mut env, address(STRANGER), 0, 0).unwrap();
    EscrowContract::reject_milestone(&mut env, address(CLIENT), 0, 0).unwrap();
    submit(&mut env, 0).unwrap();
    assert_eq!(approve(&mut env, 0), Ok(()));
    let milestone = EscrowContract::get_milestone(&mut env, 0, 0).unwrap();
    assert_eq!(milestone.status, MS_SUBMITTED);
    assert_eq!(milestone.approvals.len(), 1);
    assert_eq!(EscrowContract::approve_milestone(&mut env, address(STRANGER), 0, 0), Ok(()));
    assert_eq!(env.milestones.get(&(0, 0)).unwrap().status, MS_RELEASED);
}

#[test]
fn a_batch_counts_approvals_one_by_one() {
    let mut env = with_signers(vec![address(STRANGER)]);
    let mut meta = env.escrows.get(&0).unwrap().clone();
    meta.total_amount = 150;
    meta.remaining_balance = 150;
    env.escrows.set(0, meta);
    add(&mut env, 50).unwrap();
    submit(&mut env, 1).unwrap();
    EscrowContract::approve_milestone(&mut env, address(STRANGER), 0, 1).unwrap();
    next_request(&mut env);
    assert_eq!(
        EscrowContract::batch_approve_milestones(&mut env, address(STRANGER), 0, vec![0, 1]),
        Err(EscrowError::InvalidMilestoneState)
    );
    // Milestone 1 has its second approval, milestone 0 its first.
    assert_eq!(
        EscrowContract::batch_approve_milestones(&mut env, address(CLIENT), 0, vec![0, 1]),
        Ok(50)
    );
    assert_eq!(transfers(&env), vec![paid(CONTRACT, FREELANCER, 50)]);
    assert_eq!(env.milestones.get(&(0, 0)).unwrap().status, MS_SUBMITTED);
    assert_eq!(env.milestones.get(&(0, 1)).unwrap().status, MS_RELEASED);
    assert_eq!(env.escrows.get(&0).unwrap().submitted_count, 1);
}

#[test]
fn a_policy_weighs_approvals() {
    let mut env = fresh();
    let policy = MultisigConfig {
        approvers: vec![address(STRANGER), address(ARBITER), address(ADMIN)],
        weights: vec![1, 2],
        threshold: 3,
    };
    EscrowContract::create_escrow(
        &mut env,
        address(CLIENT),
        address(FREELANCER),
        address(TOKEN),
        100,
        [1; 32],
        None,
        None,
        None,
        None,
        policy.clone(),
    )
    .unwrap();
    let state = EscrowContract::get_escrow(&mut env, 0).unwrap();
    assert_eq!(state.multisig_approvers, policy.approvers);
    assert_eq!(state.multisig_weights, vec![1, 2]);
    assert_eq!(state.multisig_threshold, 3);
    add(&mut env, 100).unwrap();
    submit(&mut env, 0).unwrap();
    let by = |env: &mut Env, who: u8| EscrowContract::approve_milestone(env, address(who), 0, 0);
    assert_eq!(by(&mut env, CLIENT), Err(EscrowError::Unauthorized));
    // An approver without a weight counts for nothing.
    for who in [ADMIN, ARBITER] {
        assert_eq!(by(&mut env, who), Ok(()));
        assert_eq!(env.milestones.get(&(0, 0)).unwrap().status, MS_SUBMITTED);
    }
    assert_eq!(by(&mut env, STRANGER), Ok(()));
    assert_eq!(env.milestones.get(&(0, 0)).unwrap().status, MS_RELEASED);
    assert_eq!(env.milestones.get(&(0, 0)).unwrap().approvals.len(), 3);
}

#[test]
fn an_approver_of_the_policy_may_reject() {
    let mut env = fresh();
    EscrowContract::create_escrow(
        &mut env,
        address(CLIENT),
        address(FREELANCER),
        address(TOKEN),
        100,
        [1; 32],
        None,
        None,
        None,
        None,
        MultisigConfig { approvers: vec![address(STRANGER)], weights: vec![1], threshold: 1 },
    )
    .unwrap();
    add(&mut env, 100).unwrap();
    submit(&mut env, 0).unwrap();
    assert_eq!(
        EscrowContract::reject_milestone(&mut env, address(ARBITER), 0, 0),
        Err(EscrowError::ClientOnly)
    );
    assert_eq!(EscrowContract::reject_milestone(&mut env, address(STRANGER), 0, 0), Ok(()));
}

#[test]
fn an_escrow_with_something_left_is_not_complete() {
    let mut env = with_escrow();
    add(&mut env, 200).unwrap();
    submit(&mut env, 0).unwrap();
    approve(&mut env, 0).unwrap();
    assert_eq!(env.escrows.get(&0).unwrap().status, EscrowStatus::Active);
    assert_eq!(env.escrows.get(&0).unwrap().remaining_balance, 800);
    add(&mut env, 800).unwrap();
    submit(&mut env, 1).unwrap();
    approve(&mut env, 1).unwrap();
    assert_eq!(env.escrows.get(&0).unwrap().status, EscrowStatus::Completed);
}

#[test]
fn a_balance_is_not_overdrawn() {
    let mut env = with_escrow();
    add(&mut env, 400).unwrap();
    submit(&mut env, 0).unwrap();
    let mut meta = env.escrows.get(&0).unwrap().clone();
    meta.remaining_balance = 399;
    env.escrows.set(0, meta);
    assert_eq!(approve(&mut env, 0), Err(EscrowError::AmountMismatch));
}

#[test]
fn a_batch_is_released_by_the_admin() {
    let mut env = with_escrow();
    EscrowContract::start_timelock(&mut env, address(CLIENT), 0, DAY).unwrap();
    for amount in [100, 900] {
        let mid = add(&mut env, amount).unwrap();
        submit(&mut env, mid).unwrap();
    }
    assert_eq!(
        EscrowContract::batch_approve_milestones(&mut env, address(CLIENT), 0, vec![0, 1]),
        Ok(1_000)
    );
    assert_eq!(env.escrows.get(&0).unwrap().remaining_balance, 1_000);
    assert_eq!(
        EscrowContract::batch_release_funds(&mut env, address(CLIENT), 0, vec![0]),
        Err(EscrowError::AdminOnly)
    );
    next_request(&mut env);
    assert_eq!(
        EscrowContract::batch_release_funds(&mut env, address(ADMIN), 0, vec![0, 1]),
        Ok(1_000)
    );
    assert_eq!(transfers(&env), vec![paid(CONTRACT, FREELANCER, 1_000)]);
    assert_eq!(env.escrows.get(&0).unwrap().remaining_balance, 0);
    assert_eq!(env.escrows.get(&0).unwrap().status, EscrowStatus::Completed);
    assert_eq!(
        EscrowContract::get_escrow_ids_by_status(&env, EscrowStatus::Completed, 0, 9),
        vec![0]
    );

    let mut bare = Env::new(5, address(CONTRACT));
    assert_eq!(
        EscrowContract::batch_release_funds(&mut bare, address(ADMIN), 0, vec![0]),
        Err(EscrowError::NotInitialized)
    );
    assert!(bare.auths.is_empty());
}

// --- Recurring payments ---

#[test]
fn schedules_count_their_payments() {
    let total = EscrowContract::resolve_total_payments;
    assert_eq!(total(10, RecurringInterval::Daily, Some(10), None), Ok(1));
    assert_eq!(total(10, RecurringInterval::Daily, Some(10 + DAY - 1), None), Ok(1));
    assert_eq!(total(10, RecurringInterval::Daily, Some(10 + DAY), None), Ok(2));
    assert_eq!(total(10, RecurringInterval::Weekly, Some(10 + 21 * DAY), None), Ok(4));
    assert_eq!(total(10, RecurringInterval::Monthly, Some(10 + 90 * DAY), Some(3)), Ok(3));
    assert_eq!(total(10, RecurringInterval::Monthly, Some(10 + 90 * DAY), Some(9)), Ok(4));
    assert_eq!(total(10, RecurringInterval::Daily, None, Some(7)), Ok(7));
    let refused = Err(EscrowError::InvalidRecurringSchedule);
    assert_eq!(total(10, RecurringInterval::Daily, None, None), refused);
    assert_eq!(total(10, RecurringInterval::Daily, None, Some(0)), refused);
    assert_eq!(total(10, RecurringInterval::Daily, Some(9), Some(5)), refused);
    assert_eq!(total(u64::MAX - 5, RecurringInterval::Daily, Some(u64::MAX), None), refused);
    assert_eq!(total(u64::MAX, RecurringInterval::Daily, Some(u64::MAX), None), Ok(1));
}

#[test]
fn intervals_have_their_lengths() {
    let next = EscrowContract::next_schedule_time;
    assert_eq!(next(5, &RecurringInterval::Daily), Ok(86_405));
    assert_eq!(next(5, &RecurringInterval::Weekly), Ok(604_805));
    assert_eq!(next(5, &RecurringInterval::Monthly), Ok(2_592_005));
    assert_eq!(
        next(u64::MAX, &RecurringInterval::Daily),
        Err(EscrowError::InvalidRecurringSchedule)
    );
}

#[test]
fn recurring_creation_checks_its_arguments() {
    let mut env = fresh();
    assert_eq!(
        recurring(&mut env, 0, RecurringInterval::Daily, 2_000, None, Some(1)),
        Err(EscrowError::InvalidMilestoneAmount)
    );
    assert_eq!(
        recurring(&mut env, 5, RecurringInterval::Daily, 1_000, None, Some(1)),
        Err(EscrowError::InvalidRecurringSchedule)
    );
    assert_eq!(
        recurring(&mut env, i128::MAX, RecurringInterval::Daily, 2_000, None, Some(2)),
        Err(EscrowError::AmountMismatch)
    );
    next_request(&mut env);
    assert_eq!(recurring(&mut env, 5, RecurringInterval::Daily, 2_000, None, Some(4)), Ok(0));
    assert_eq!(
        transfers(&env),
        vec![
            paid(CLIENT, CONTRACT, 20),
            paid(CLIENT, CONTRACT, 30),
            paid(CLIENT, CONTRACT, 30)
        ]
    );
    assert_eq!(env.escrows.get(&0).unwrap().rent_balance, 60);
}

#[test]
fn due_payments_are_made_together() {
    let mut env = fresh();
    recurring(&mut env, 50, RecurringInterval::Daily, 2_000, None, Some(5)).unwrap();
    env.timestamp = 1_999;
    assert_eq!(
        EscrowContract::process_recurring_payments(&mut env, 0),
        Err(EscrowError::NoRecurringPaymentDue)
    );
    env.timestamp = 2_000 + 2 * DAY;
    next_request(&mut env);
    assert_eq!(EscrowContract::process_recurring_payments(&mut env, 0), Ok(3));
    // The rent of two days for two entries comes first.
    assert_eq!(
        transfers(&env),
        vec![
            paid(CONTRACT, ADMIN, 4),
            paid(CONTRACT, FREELANCER, 50),
            paid(CONTRACT, FREELANCER, 50),
            paid(CONTRACT, FREELANCER, 50)
        ]
    );
    let config = EscrowContract::get_recurring_config(&mut env, 0).unwrap();
    assert_eq!(config.processed_payments, 3);
    assert_eq!(config.payments_remaining, 2);
    assert_eq!(config.next_payment_at, 2_000 + 3 * DAY);
    assert_eq!(config.last_payment_at, Some(2_000 + 2 * DAY));
    let milestone = EscrowContract::get_milestone(&mut env, 0, 1).unwrap();
    assert_eq!(milestone.title, text("Recurring payment"));
    assert_eq!(milestone.description_hash, [3; 32]);
    assert_eq!(milestone.status, MS_RELEASED);
    assert_eq!(env.escrows.get(&0).unwrap().released_count, 3);
    assert_eq!(
        EscrowContract::release_funds(&mut env.clone(), address(ADMIN), 0, 1),
        Err(EscrowError::InvalidMilestoneState)
    );
    assert_eq!(milestone.submitted_at, Some(2_000 + DAY));
    assert_eq!(milestone.resolved_at, Some(2_000 + 2 * DAY));
    assert_eq!(env.escrows.get(&0).unwrap().remaining_balance, 100);
    assert_eq!(
        EscrowContract::process_recurring_payments(&mut env, 0),
        Err(EscrowError::NoRecurringPaymentDue)
    );
    assert_eq!(
        events(&env).last(),
        Some(&Event::FundsReleased { escrow_id: 0, to: address(FREELANCER), amount: 150 })
    );
}

#[test]
fn an_end_date_ends_a_schedule_that_was_put_off() {
    let mut env = fresh();
    let end = 2_000 + 2 * DAY;
    recurring(&mut env, 50, RecurringInterval::Daily, 2_000, Some(end), None).unwrap();
    assert_eq!(env.recurring.get(&0).unwrap().total_payments, 3);
    EscrowContract::pause_recurring_schedule(&mut env, address(CLIENT), 0).unwrap();
    env.timestamp = 2_000 + DAY + 1;
    EscrowContract::resume_recurring_schedule(&mut env, address(CLIENT), 0).unwrap();
    assert_eq!(env.recurring.get(&0).unwrap().next_payment_at, 2_000 + DAY + 1);
    next_request(&mut env);
    assert_eq!(EscrowContract::process_recurring_payments(&mut env, 0), Ok(1));
    // One payment is made, and what the other two would have come to goes back.
    assert_eq!(
        transfers(&env),
        vec![paid(CONTRACT, FREELANCER, 50), paid(CONTRACT, CLIENT, 100)]
    );
    let config = *env.recurring.get(&0).unwrap();
    assert_eq!(config.payments_remaining, 0);
    assert_eq!(config.next_payment_at, 0);
    assert_eq!(env.escrows.get(&0).unwrap().status, EscrowStatus::Completed);
    assert_eq!(env.escrows.get(&0).unwrap().remaining_balance, 0);
    assert_eq!(
        EscrowContract::get_escrow_ids_by_status(&env, EscrowStatus::Completed, 0, 9),
        vec![0]
    );
    assert!(
        EscrowContract::get_escrow_ids_by_status(&env, EscrowStatus::Active, 0, 9).is_empty()
    );
}

#[test]
fn a_recurring_escrow_is_listed() {
    let mut env = fresh();
    recurring(&mut env, 50, RecurringInterval::Weekly, 2_000, None, Some(3)).unwrap();
    for who in [CLIENT, FREELANCER] {
        assert_eq!(
            EscrowContract::get_escrow_ids_by_participant(&env, address(who), 0, 9),
            vec![0]
        );
    }
    let on = |env: &Env, status| EscrowContract::get_escrow_ids_by_status(env, status, 0, 9);
    assert_eq!(on(&env, EscrowStatus::Active), vec![0]);
    EscrowContract::cancel_recurring_escrow(&mut env, address(CLIENT), 0).unwrap();
    assert!(on(&env, EscrowStatus::Active).is_empty());
    assert_eq!(on(&env, EscrowStatus::Cancelled), vec![0]);
}

#[test]
fn a_locked_schedule_pays_nothing() {
    let mut env = fresh();
    recurring(&mut env, 50, RecurringInterval::Daily, 2_000, None, Some(3)).unwrap();
    EscrowContract::extend_lock_time(&mut env, address(CLIENT), 0, 3_000).unwrap();
    env.timestamp = 2_999;
    assert_eq!(
        EscrowContract::process_recurring_payments(&mut env, 0),
        Err(EscrowError::LockTimeNotExpired)
    );
    env.timestamp = 3_000;
    next_request(&mut env);
    let mut waiting = env.clone();
    assert_eq!(EscrowContract::process_recurring_payments(&mut env, 0), Ok(1));
    assert_eq!(events(&env)[0], Event::LockTimeExpired { escrow_id: 0, lock_time: 3_000 });

    EscrowContract::start_timelock(&mut waiting, address(CLIENT), 0, DAY).unwrap();
    waiting.timestamp = 2_999 + DAY;
    assert_eq!(
        EscrowContract::process_recurring_payments(&mut waiting, 0),
        Err(EscrowError::TimelockNotExpired)
    );
    waiting.timestamp = 3_000 + DAY;
    next_request(&mut waiting);
    assert_eq!(EscrowContract::process_recurring_payments(&mut waiting, 0), Ok(2));
    assert!(events(&waiting)
        .contains(&Event::TimelockReleased { escrow_id: 0, at: 3_000 + DAY }));
}

#[test]
fn a_lock_is_the_last_reason_not_to_pay() {
    let mut env = fresh();
    recurring(&mut env, 50, RecurringInterval::Daily, 2_000, None, Some(3)).unwrap();
    create_with(&mut env, 500, None, Some(3_000)).unwrap();
    EscrowContract::extend_lock_time(&mut env, address(CLIENT), 0, 3_000).unwrap();
    let pay = |env: &mut Env, id| EscrowContract::process_recurring_payments(env, id);
    assert_eq!(pay(&mut env, 1), Err(EscrowError::RecurringConfigNotFound));
    assert_eq!(pay(&mut env, 0), Err(EscrowError::NoRecurringPaymentDue));
    env.timestamp = 2_000;
    assert_eq!(pay(&mut env, 0), Err(EscrowError::LockTimeNotExpired));
    EscrowContract::pause_recurring_schedule(&mut env, address(CLIENT), 0).unwrap();
    assert_eq!(pay(&mut env, 0), Err(EscrowError::RecurringSchedulePaused));
}

#[test]
fn payments_do_not_overdraw_a_schedule() {
    let mut env = fresh();
    recurring(&mut env, 50, RecurringInterval::Daily, 2_000, None, Some(3)).unwrap();
    let mut meta = env.escrows.get(&0).unwrap().clone();
    meta.remaining_balance = 99;
    env.escrows.set(0, meta);
    env.timestamp = 2_000 + DAY;
    assert_eq!(
        EscrowContract::process_recurring_payments(&mut env, 0),
        Err(EscrowError::AmountMismatch)
    );
}

#[test]
fn schedules_are_changed_by_the_client() {
    let mut env = fresh();
    recurring(&mut env, 50, RecurringInterval::Weekly, 2_000, None, Some(3)).unwrap();
    assert_eq!(
        EscrowContract::pause_recurring_schedule(&mut env, address(FREELANCER), 0),
        Err(EscrowError::ClientOnly)
    );
    next_request(&mut env);
    assert_eq!(EscrowContract::resume_recurring_schedule(&mut env, address(CLIENT), 0), Ok(()));
    assert!(env.calls.is_empty());
    assert_eq!(EscrowContract::cancel_recurring_escrow(&mut env, address(CLIENT), 0), Ok(()));
    assert_eq!(transfers(&env), vec![paid(CONTRACT, CLIENT, 150)]);
    assert_eq!(
        EscrowContract::pause_recurring_schedule(&mut env, address(CLIENT), 0),
        Err(EscrowError::RecurringScheduleCancelled)
    );
    assert_eq!(
        EscrowContract::process_recurring_payments(&mut env, 0),
        Err(EscrowError::EscrowNotActive)
    );
    let mut plain = with_escrow();
    assert_eq!(
        EscrowContract::get_recurring_config(&mut plain, 0),
        Err(EscrowError::RecurringConfigNotFound)
    );
}

// --- Disputes ---

#[test]
fn a_dispute_freezes_the_escrow() {
    let mut env = with_escrow();
    add(&mut env, 400).unwrap();
    submit(&mut env, 0).unwrap();
    assert_eq!(
        EscrowContract::raise_dispute(&mut env, address(STRANGER), 0, None),
        Err(EscrowError::Unauthorized)
    );
    assert_eq!(
        EscrowContract::raise_dispute(&mut env, address(CLIENT), 0, Some(3)),
        Err(EscrowError::MilestoneNotFound)
    );
    assert_eq!(env.escrows.get(&0).unwrap().status, EscrowStatus::Active);
    next_request(&mut env);
    assert_eq!(EscrowContract::raise_dispute(&mut env, address(CLIENT), 0, Some(0)), Ok(()));
    assert_eq!(
        events(&env),
        vec![
            Event::DisputeRaised { escrow_id: 0, by: address(CLIENT) },
            Event::MilestoneDisputed { escrow_id: 0, milestone_id: 0, by: address(CLIENT) },
        ]
    );
    assert_eq!(
        EscrowContract::raise_dispute(&mut env, address(CLIENT), 0, None),
        Err(EscrowError::DisputeAlreadyExists)
    );
    assert_eq!(approve(&mut env, 0), Err(EscrowError::EscrowNotActive));
    assert_eq!(
        EscrowContract::cancel_escrow(&mut env, address(CLIENT), 0),
        Err(EscrowError::EscrowNotActive)
    );
    assert_eq!(
        EscrowContract::start_timelock(&mut env, address(CLIENT), 0, DAY),
        Err(EscrowError::EscrowNotActive)
    );
}

#[test]
fn a_dispute_freezes_releases() {
    let mut env = with_escrow();
    EscrowContract::start_timelock(&mut env, address(CLIENT), 0, DAY).unwrap();
    add(&mut env, 100).unwrap();
    submit(&mut env, 0).unwrap();
    approve(&mut env, 0).unwrap();
    EscrowContract::raise_dispute(&mut env, address(CLIENT), 0, None).unwrap();
    env.timestamp += DAY;
    next_request(&mut env);
    assert_eq!(
        EscrowContract::release_funds(&mut env, address(ADMIN), 0, 0),
        Err(EscrowError::EscrowNotActive)
    );
    assert_eq!(
        EscrowContract::batch_release_funds(&mut env, address(ADMIN), 0, vec![0]),
        Err(EscrowError::EscrowNotActive)
    );
    assert!(transfers(&env).is_empty());
    assert_eq!(env.escrows.get(&0).unwrap().remaining_balance, 1_000);
}

#[test]
fn a_dispute_is_the_last_reason_not_to_release() {
    let mut env = with_escrow();
    EscrowContract::start_timelock(&mut env, address(CLIENT), 0, DAY).unwrap();
    add(&mut env, 100).unwrap();
    submit(&mut env, 0).unwrap();
    approve(&mut env, 0).unwrap();
    EscrowContract::extend_lock_time(&mut env, address(CLIENT), 0, 3_000).unwrap();
    EscrowContract::raise_dispute(&mut env, address(CLIENT), 0, None).unwrap();
    assert_eq!(
        EscrowContract::release_funds(&mut env, address(ADMIN), 0, 0),
        Err(EscrowError::LockTimeNotExpired)
    );
    assert_eq!(
        EscrowContract::batch_release_funds(&mut env, address(ADMIN), 0, vec![0]),
        Err(EscrowError::LockTimeNotExpired)
    );
    env.timestamp = 3_000;
    assert_eq!(
        EscrowContract::batch_release_funds(&mut env, address(ADMIN), 0, vec![0, 7]),
        Err(EscrowError::MilestoneNotFound)
    );
    assert_eq!(
        EscrowContract::batch_release_funds(&mut env, address(ADMIN), 0, vec![0]),
        Err(EscrowError::EscrowNotActive)
    );
}

#[test]
fn negative_shares_are_refused() {
    let mut env = with_escrow();
    EscrowContract::raise_dispute(&mut env, address(CLIENT), 0, None).unwrap();
    for (client, freelancer) in [(-50, 1_050), (1_050, -50)] {
        assert!(EscrowContract::resolve_in_range(
            &env,
            &address(ARBITER),
            0,
            client,
            freelancer
        ));
        assert_eq!(
            EscrowContract::resolve_dispute(&mut env, address(ARBITER), 0, client, freelancer),
            Err(EscrowError::AmountMismatch)
        );
    }
}

#[test]
fn a_payload_is_for_its_escrow() {
    let mut env = with_escrow();
    create_with(&mut env, 500, None, None).unwrap();
    EscrowContract::set_trusted_oracle_key(&mut env, address(ADMIN), [8; 32]).unwrap();
    for id in [0, 1] {
        EscrowContract::raise_dispute(&mut env, address(CLIENT), id, None).unwrap();
    }
    assert_eq!(
        EscrowContract::oracle_resolve_dispute(&mut env, 1, payload(9_999, 5_000), 0),
        Err(EscrowError::OracleSignatureInvalid)
    );
    assert_eq!(env.escrows.get(&1).unwrap().status, EscrowStatus::Disputed);
    assert_eq!(
        EscrowContract::oracle_resolve_dispute(&mut env, 0, payload(9_999, 5_000), 0),
        Ok(())
    );
}

#[test]
fn the_arbiter_resolves_a_dispute() {
    let mut env = with_escrow();
    assert_eq!(
        EscrowContract::resolve_dispute(&mut env, address(ARBITER), 0, 1_000, 0),
        Err(EscrowError::EscrowNotDisputed)
    );
    EscrowContract::raise_dispute(&mut env, address(CLIENT), 0, None).unwrap();
    next_request(&mut env);
    assert!(EscrowContract::resolve_in_range(&env, &address(ARBITER), 0, 250, 750));
    assert_eq!(EscrowContract::resolve_dispute(&mut env, address(ARBITER), 0, 250, 750), Ok(()));
    assert!(!env.instance_touched);
    assert_eq!(
        transfers(&env),
        vec![paid(CONTRACT, CLIENT, 250), paid(CONTRACT, FREELANCER, 750)]
    );
    assert_eq!(env.escrows.get(&0).unwrap().remaining_balance, 0);
    assert_eq!(
        EscrowContract::get_escrow_ids_by_status(&env, EscrowStatus::Completed, 0, 10),
        vec![0]
    );
    let record = EscrowContract::get_reputation(&mut env, address(CLIENT)).unwrap();
    assert_eq!(record.disputed_escrows, 1);
    assert_eq!(record.total_score, 0);
}

#[test]
fn shares_that_do_not_fit_are_found_out() {
    let mut env = with_escrow();
    EscrowContract::raise_dispute(&mut env, address(CLIENT), 0, None).unwrap();
    assert!(!EscrowContract::resolve_in_range(&env, &address(ADMIN), 0, i128::MAX, 1));
    assert!(EscrowContract::resolve_in_range(&env, &address(STRANGER), 0, i128::MAX, 1));
}

#[test]
fn the_oracle_settles_stalled_disputes() {
    let mut env = with_escrow();
    EscrowContract::raise_dispute(&mut env, address(CLIENT), 0, None).unwrap();
    env.timestamp = 1_100;
    assert_eq!(
        EscrowContract::oracle_resolve_dispute(&mut env, 0, payload(1_100, 3_333), 101),
        Err(EscrowError::GracePeriodNotElapsed)
    );
    assert_eq!(
        EscrowContract::oracle_resolve_dispute(&mut env, 0, payload(1_100, 3_333), 100),
        Err(EscrowError::OracleNotConfigured)
    );
    EscrowContract::set_trusted_oracle_key(&mut env, address(ADMIN), [8; 32]).unwrap();
    next_request(&mut env);
    assert!(EscrowContract::oracle_in_range(&env, 0, &payload(1_100, 3_333), 100));
    assert_eq!(
        EscrowContract::oracle_resolve_dispute(&mut env, 0, payload(1_100, 3_333), 100),
        Ok(())
    );
    let mut message = vec![0, 0, 0, 0, 0, 0, 0, 0];
    message.extend_from_slice(&[0x05, 0x0d, 0, 0]);
    message.extend_from_slice(&[0x0b, 0x1a, 0, 0]);
    message.extend_from_slice(&[0x4c, 0x04, 0, 0, 0, 0, 0, 0]);
    assert_eq!(
        env.calls[0],
        HostCall::VerifySignature { public_key: [8; 32], message, signature: [9; 64] }
    );
    assert_eq!(
        transfers(&env),
        vec![paid(CONTRACT, CLIENT, 333), paid(CONTRACT, FREELANCER, 667)]
    );
}

#[test]
fn a_disputed_cancellation_can_go_to_the_oracle() {
    let mut env = with_escrow();
    request_cancellation(&mut env, CLIENT).unwrap();
    env.timestamp = 1_500;
    EscrowContract::dispute_cancellation(&mut env, address(FREELANCER), 0).unwrap();
    assert_eq!(env.escrows.get(&0).unwrap().dispute_start_ledger, Some(1_500));
    EscrowContract::set_trusted_oracle_key(&mut env, address(ADMIN), [8; 32]).unwrap();
    assert_eq!(
        EscrowContract::oracle_resolve_dispute(&mut env, 0, payload(9_999, 5_000), 1),
        Err(EscrowError::GracePeriodNotElapsed)
    );
    assert_eq!(
        EscrowContract::oracle_resolve_dispute(&mut env, 0, payload(9_999, 5_000), 0),
        Ok(())
    );
}

#[test]
fn a_dispute_without_a_start_is_refused() {
    let mut env = with_escrow();
    EscrowContract::raise_dispute(&mut env, address(CLIENT), 0, None).unwrap();
    let mut meta = env.escrows.get(&0).unwrap().clone();
    meta.dispute_start_ledger = None;
    env.escrows.set(0, meta);
    assert_eq!(
        EscrowContract::oracle_resolve_dispute(&mut env, 0, payload(9_999, 5_000), 0),
        Err(EscrowError::DisputeStartNotRecorded)
    );
}

// --- Reputation ---

#[test]
fn reputation_scores() {
    let mut env = fresh();
    for (volume, score) in [(0, 10), (999, 20), (5_000, 35), (1_000_000, 55), (-20_000, 65)] {
        EscrowContract::update_reputation(&mut env, address(CLIENT), true, false, volume).unwrap();
        let record = EscrowContract::get_reputation(&mut env, address(CLIENT)).unwrap();
        assert_eq!(record.total_score, score);
    }
    EscrowContract::update_reputation(&mut env, address(CLIENT), false, true, 0).unwrap();
    let record = EscrowContract::get_reputation(&mut env, address(CLIENT)).unwrap();
    assert_eq!(record.total_score, 60);
    assert_eq!(record.completed_escrows, 5);
    assert_eq!(record.disputed_escrows, 1);
    assert_eq!(record.total_volume, 985_999);
    EscrowContract::update_reputation(&mut env, address(STRANGER), false, true, 0).unwrap();
    let record = EscrowContract::get_reputation(&mut env, address(STRANGER)).unwrap();
    assert_eq!(record.total_score, 0);
    EscrowContract::pause(&mut env, address(ADMIN)).unwrap();
    assert_eq!(
        EscrowContract::update_reputation(&mut env, address(CLIENT), true, false, 0),
        Err(EscrowError::ContractPaused)
    );
}

#[test]
fn reputation_ranges() {
    let mut env = fresh();
    let fits = |env: &Env, completed, disputed| {
        EscrowContract::reputation_in_range(env, &address(CLIENT), completed, disputed)
    };
    assert!(fits(&env, true, true));
    EscrowContract::update_reputation(&mut env, address(CLIENT), true, false, 0).unwrap();
    let mut record = *env.reputations.get(&address(CLIENT)).unwrap();
    record.completed_escrows = u32::MAX;
    env.reputations.set(address(CLIENT), record);
    assert!(!fits(&env, true, false));
    assert!(fits(&env, false, true));
}

// --- Cancelling ---

#[test]
fn pending_work_blocks_a_cancellation() {
    let mut env = with_escrow();
    add(&mut env, 100).unwrap();
    submit(&mut env, 0).unwrap();
    assert_eq!(
        EscrowContract::cancel_escrow(&mut env, address(CLIENT), 0),
        Err(EscrowError::CannotCancelWithPendingFunds)
    );
    EscrowContract::reject_milestone(&mut env, address(CLIENT), 0, 0).unwrap();
    assert_eq!(
        EscrowContract::cancel_escrow(&mut env, address(FREELANCER), 0),
        Err(EscrowError::ClientOnly)
    );
    next_request(&mut env);
    assert_eq!(EscrowContract::cancel_escrow(&mut env, address(CLIENT), 0), Ok(()));
    assert_eq!(transfers(&env), vec![paid(CONTRACT, CLIENT, 1_000)]);
    assert_eq!(events(&env), vec![Event::EscrowCancelled { escrow_id: 0, returned: 1_000 }]);
    assert_eq!(
        EscrowContract::get_escrow_ids_by_status(&env, EscrowStatus::Cancelled, 0, 10),
        vec![0]
    );
}

#[test]
fn released_work_does_not_block_a_cancellation() {
    let mut env = with_escrow();
    add(&mut env, 100).unwrap();
    add(&mut env, 100).unwrap();
    submit(&mut env, 0).unwrap();
    approve(&mut env, 0).unwrap();
    next_request(&mut env);
    assert_eq!(EscrowContract::cancel_escrow(&mut env, address(CLIENT), 0), Ok(()));
    assert_eq!(transfers(&env), vec![paid(CONTRACT, CLIENT, 900)]);
}

#[test]
fn cancellation_requests() {
    let mut env = with_escrow();
    assert_eq!(request_cancellation(&mut env, STRANGER), Err(EscrowError::Unauthorized));
    assert!(matches!(
        EscrowContract::get_cancellation_request(&mut env, 0),
        Err(EscrowError::CancellationNotFound)
    ));
    assert_eq!(
        EscrowContract::execute_cancellation(&mut env, 0),
        Err(EscrowError::CancellationNotFound)
    );
    assert_eq!(request_cancellation(&mut env, FREELANCER), Ok(()));
    assert_eq!(request_cancellation(&mut env, CLIENT), Err(EscrowError::EscrowNotActive));
    let request = EscrowContract::get_cancellation_request(&mut env, 0).unwrap();
    assert_eq!(request.requester, address(FREELANCER));
    assert_eq!(request.reason, text("why"));
    assert_eq!(request.dispute_deadline, 1_000 + CANCELLATION_DISPUTE_PERIOD);
    assert_eq!(
        EscrowContract::get_escrow_ids_by_status(&env, EscrowStatus::CancellationPending, 0, 9),
        vec![0]
    );
    for who in [FREELANCER, STRANGER] {
        assert_eq!(
            EscrowContract::dispute_cancellation(&mut env, address(who), 0),
            Err(EscrowError::Unauthorized)
        );
    }
    assert_eq!(EscrowContract::dispute_cancellation(&mut env, address(CLIENT), 0), Ok(()));
    assert_eq!(
        EscrowContract::dispute_cancellation(&mut env, address(CLIENT), 0),
        Err(EscrowError::CancellationAlreadyDisputed)
    );
}

#[test]
fn a_second_request_is_refused() {
    let mut env = with_escrow();
    request_cancellation(&mut env, CLIENT).unwrap();
    let mut meta = env.escrows.get(&0).unwrap().clone();
    meta.status = EscrowStatus::Active;
    env.escrows.set(0, meta);
    assert_eq!(
        request_cancellation(&mut env, CLIENT),
        Err(EscrowError::CancellationAlreadyExists)
    );
}

#[test]
fn a_late_dispute_is_refused() {
    let mut env = with_escrow();
    request_cancellation(&mut env, CLIENT).unwrap();
    env.timestamp += CANCELLATION_DISPUTE_PERIOD;
    assert_eq!(
        EscrowContract::dispute_cancellation(&mut env, address(FREELANCER), 0),
        Err(EscrowError::CancellationDisputeDeadlineExpired)
    );
    assert!(EscrowContract::execution_in_range(&env, 0));
    assert_eq!(EscrowContract::execute_cancellation(&mut env, 0), Ok(()));
}

fn slashed() -> Env {
    let mut env = with_escrow();
    request_cancellation(&mut env, CLIENT).unwrap();
    env.timestamp += CANCELLATION_DISPUTE_PERIOD;
    next_request(&mut env);
    EscrowContract::execute_cancellation(&mut env, 0).unwrap();
    env
}

#[test]
fn a_cancellation_costs_a_tenth() {
    let env = slashed();
    assert_eq!(
        transfers(&env),
        vec![paid(CONTRACT, ADMIN, 2), paid(CONTRACT, CLIENT, 900)]
    );
    let record = env.slashes.get(&0).unwrap();
    assert_eq!(record.amount, 100);
    assert_eq!(record.slashed_user, address(CLIENT));
    assert_eq!(record.recipient, address(FREELANCER));
    assert_eq!(record.reason, text("Escrow cancellation"));
    assert_eq!(
        events(&env).last(),
        Some(&Event::CancellationExecuted { escrow_id: 0, returned: 900, slashed: 100 })
    );
    assert_eq!(EscrowContract::calculate_slash_amount(1_009), 100);
    assert_eq!(EscrowContract::calculate_slash_amount(-19), -1);
    assert_eq!(EscrowContract::calculate_slash_amount(0), 0);
}

#[test]
fn a_slash_is_finalized_after_its_period() {
    let mut env = slashed();
    assert_eq!(
        EscrowContract::finalize_slash(&mut env, 0),
        Err(EscrowError::SlashDisputeDeadlineExpired)
    );
    env.timestamp += SLASH_DISPUTE_PERIOD;
    assert_eq!(
        EscrowContract::dispute_slash(&mut env, address(CLIENT), 0),
        Err(EscrowError::SlashDisputeDeadlineExpired)
    );
    next_request(&mut env);
    assert_eq!(EscrowContract::finalize_slash(&mut env, 0), Ok(()));
    assert_eq!(transfers(&env), vec![paid(CONTRACT, FREELANCER, 100)]);
    assert_eq!(EscrowContract::finalize_slash(&mut env, 0), Err(EscrowError::SlashNotFound));
    assert!(EscrowContract::get_slash_records_by_address(&mut env, address(CLIENT)).is_empty());
}

#[test]
fn a_slash_can_be_disputed_and_upheld() {
    let mut env = slashed();
    assert_eq!(
        EscrowContract::dispute_slash(&mut env, address(FREELANCER), 0),
        Err(EscrowError::Unauthorized)
    );
    assert_eq!(
        EscrowContract::resolve_slash_dispute(&mut env, address(ADMIN), 0, true),
        Err(EscrowError::SlashNotFound)
    );
    assert_eq!(EscrowContract::dispute_slash(&mut env, address(CLIENT), 0), Ok(()));
    assert_eq!(
        EscrowContract::dispute_slash(&mut env, address(CLIENT), 0),
        Err(EscrowError::SlashAlreadyDisputed)
    );
    assert_eq!(
        EscrowContract::finalize_slash(&mut env, 0),
        Err(EscrowError::SlashAlreadyDisputed)
    );
    assert_eq!(
        EscrowContract::resolve_slash_dispute(&mut env, address(STRANGER), 0, true),
        Err(EscrowError::AdminOnly)
    );
    assert!(EscrowContract::get_slash_record(&mut env, 0).unwrap().disputed);
    next_request(&mut env);
    assert_eq!(
        EscrowContract::resolve_slash_dispute(&mut env, address(ARBITER), 0, true),
        Ok(())
    );
    assert_eq!(transfers(&env), vec![paid(CONTRACT, FREELANCER, 100)]);
    assert_eq!(
        events(&env),
        vec![Event::SlashDisputeResolved { escrow_id: 0, upheld: true, amount: 100 }]
    );
    assert!(matches!(
        EscrowContract::get_slash_record(&mut env, 0),
        Err(EscrowError::SlashNotFound)
    ));
}

// --- Rent ---

#[test]
fn rent_is_settled_on_access() {
    let mut env = with_escrow();
    env.timestamp += 3 * RENT_PERIOD_SECONDS + 5;
    assert_eq!(add(&mut env, 100), Ok(0));
    assert_eq!(
        transfers(&env),
        vec![paid(CONTRACT, ADMIN, 3), paid(CLIENT, CONTRACT, 30)]
    );
    assert_eq!(
        events(&env)[0],
        Event::RentCollected {
            escrow_id: 0,
            collected: 3,
            balance: 27,
            expires_at: 1_000 + 31 * RENT_PERIOD_SECONDS,
        }
    );
    let meta = env.escrows.get(&0).unwrap();
    assert_eq!(meta.rent_balance, 57);
    assert_eq!(meta.last_rent_collection_at, 1_000 + 3 * RENT_PERIOD_SECONDS);
    next_request(&mut env);
    assert_eq!(submit(&mut env, 0), Ok(()));
    assert!(transfers(&env).is_empty());
}

#[test]
fn a_new_escrow_lives_for_its_reserve() {
    let mut env = with_escrow();
    env.timestamp = 1_000 + 31 * RENT_PERIOD_SECONDS - 1;
    let meta = env.escrows.get(&0).unwrap().clone();
    assert!(!ContractStorage::rent_has_expired(&env, &meta));
    assert_eq!(
        ContractStorage::rent_expires_at(&env, &meta),
        1_000 + 31 * RENT_PERIOD_SECONDS
    );
    assert!(EscrowContract::get_escrow(&mut env.clone(), 0).is_ok());
    env.timestamp += 1;
    assert!(ContractStorage::rent_has_expired(&env, &meta));
    assert!(ContractStorage::rent_in_range(&env, 0));
    assert!(matches!(
        EscrowContract::get_escrow(&mut env, 0),
        Err(EscrowError::EscrowNotFound)
    ));
    next_request(&mut env);
    assert!(ContractStorage::collect_in_range(&env, 0));
    assert_eq!(EscrowContract::collect_rent(&mut env, 0), Ok(30));
    assert_eq!(
        transfers(&env),
        vec![paid(CONTRACT, ADMIN, 30), paid(CONTRACT, CLIENT, 1_000)]
    );
    assert_eq!(
        events(&env).last(),
        Some(&Event::RentExpired { escrow_id: 0, refund: 1_000, remaining: 1_000 })
    );
    assert_eq!(EscrowContract::collect_rent(&mut env, 0), Err(EscrowError::EscrowNotFound));
    assert!(
        EscrowContract::get_escrow_ids_by_status(&env, EscrowStatus::Active, 0, 9).is_empty()
    );
    for who in [CLIENT, FREELANCER] {
        assert!(
            EscrowContract::get_escrow_ids_by_participant(&env, address(who), 0, 9).is_empty()
        );
    }
}

#[test]
fn a_held_slash_is_paid_when_an_escrow_is_wound_up() {
    let mut env = slashed();
    env.timestamp += 40 * RENT_PERIOD_SECONDS;
    next_request(&mut env);
    let reserve = env.escrows.get(&0).unwrap().rent_balance;
    assert_eq!(EscrowContract::collect_rent(&mut env, 0), Ok(reserve));
    assert_eq!(
        transfers(&env),
        vec![paid(CONTRACT, ADMIN, reserve), paid(CONTRACT, FREELANCER, 100)]
    );
    assert!(env.slashes.get(&0).is_none());
}

#[test]
fn a_slash_in_dispute_is_paid_to_nobody_when_an_escrow_is_wound_up() {
    let mut env = slashed();
    EscrowContract::dispute_slash(&mut env, address(CLIENT), 0).unwrap();
    env.timestamp += 40 * RENT_PERIOD_SECONDS;
    next_request(&mut env);
    let reserve = env.escrows.get(&0).unwrap().rent_balance;
    assert_eq!(EscrowContract::collect_rent(&mut env, 0), Ok(reserve));
    assert_eq!(transfers(&env), vec![paid(CONTRACT, ADMIN, reserve)]);
    assert!(env.slashes.get(&0).is_none());

    // So is one that can still be disputed.
    let mut env = slashed();
    env.timestamp += 40 * RENT_PERIOD_SECONDS;
    let mut record = env.slashes.get(&0).unwrap().clone();
    record.slashed_at = env.timestamp - SLASH_DISPUTE_PERIOD + 1;
    env.slashes.set(0, record);
    next_request(&mut env);
    EscrowContract::collect_rent(&mut env, 0).unwrap();
    assert_eq!(transfers(&env), vec![paid(CONTRACT, ADMIN, reserve)]);
}

#[test]
fn ranges_matter_only_where_nothing_is_refused() {
    let mut env = with_escrow();
    env.escrow_counter = Some(u64::MAX);
    let token = address(TOKEN);
    assert!(!EscrowContract::creation_in_range(&env, &token, 1, None, None));
    assert!(EscrowContract::creation_in_range(&env, &token, 0, None, None));
    let daily = RecurringInterval::Daily;
    assert!(!EscrowContract::schedule_in_range(&env, 1, daily, 2_000, None, Some(1)));
    assert!(EscrowContract::schedule_in_range(&env, 1, daily, 2_000, None, Some(0)));
    assert!(EscrowContract::request_in_range(&env, &address(CLIENT), 0));

    let mut env = slashed();
    let slashed_at = env.slashes.get(&0).unwrap().slashed_at;
    assert!(EscrowContract::finalizing_in_range(&env, 0));
    let mut record = env.slashes.get(&0).unwrap().clone();
    record.slashed_at = u64::MAX;
    env.slashes.set(0, record.clone());
    assert!(!EscrowContract::finalizing_in_range(&env, 0));
    assert!(!EscrowContract::disputing_in_range(&env, &address(CLIENT), 0));
    assert!(EscrowContract::disputing_in_range(&env, &address(STRANGER), 0));
    record.slashed_at = slashed_at;
    record.disputed = true;
    env.slashes.set(0, record);
    assert!(EscrowContract::finalizing_in_range(&env, 0));
}

#[test]
fn a_request_goes_with_its_escrow() {
    let mut env = with_escrow();
    request_cancellation(&mut env, CLIENT).unwrap();
    env.timestamp += 70 * RENT_PERIOD_SECONDS;
    EscrowContract::collect_rent(&mut env, 0).unwrap();
    assert!(EscrowContract::list_cancellations_by_requester(&env, address(CLIENT)).is_empty());
}

#[test]
fn topping_up_buys_periods() {
    let mut env = with_escrow();
    add(&mut env, 100).unwrap();
    next_request(&mut env);
    assert_eq!(
        EscrowContract::top_up_rent(&mut env, address(FREELANCER), 0, 5),
        Err(EscrowError::ClientOnly)
    );
    assert_eq!(EscrowContract::top_up_rent(&mut env, address(CLIENT), 0, 0), Ok(0));
    assert!(transfers(&env).is_empty());
    assert_eq!(EscrowContract::top_up_rent(&mut env, address(CLIENT), 0, 5), Ok(10));
    assert_eq!(transfers(&env), vec![paid(CLIENT, CONTRACT, 10)]);
    assert_eq!(env.escrows.get(&0).unwrap().rent_balance, 70);
    let meta = env.escrows.get(&0).unwrap().clone();
    assert_eq!(
        ContractStorage::rent_expires_at(&env, &meta),
        1_000 + 36 * RENT_PERIOD_SECONDS
    );
}

#[test]
fn an_overfull_reserve_is_refused() {
    let mut env = with_escrow();
    let mut meta = env.escrows.get(&0).unwrap().clone();
    meta.rent_balance = i128::MAX - 29;
    env.escrows.set(0, meta);
    assert_eq!(add(&mut env, 1), Err(EscrowError::AmountMismatch));
    assert_eq!(
        EscrowContract::top_up_rent(&mut env, address(CLIENT), 0, 30),
        Err(EscrowError::AmountMismatch)
    );
    assert_eq!(EscrowContract::top_up_rent(&mut env, address(CLIENT), 0, 29), Ok(29));
}

#[test]
fn a_horizon_out_of_range_is_found_out() {
    let mut env = with_escrow();
    assert!(ContractStorage::rent_in_range(&env, 0));
    env.timestamp = u64::MAX;
    let mut meta = env.escrows.get(&0).unwrap().clone();
    meta.last_rent_collection_at = u64::MAX - RENT_PERIOD_SECONDS;
    env.escrows.set(0, meta);
    assert!(!ContractStorage::rent_in_range(&env, 0));
    assert!(ContractStorage::rent_in_range(&env, 1));
}

#[test]
fn reserves_grow_with_the_entries() {
    assert_eq!(ContractStorage::reserve_for_entries(0), 0);
    assert_eq!(ContractStorage::reserve_for_entries(1), 30);
    assert_eq!(ContractStorage::reserve_for_entries(20), 600);
    assert_eq!(ContractStorage::reserve_for_entries(-2), -60);
}

// --- Views and lists ---

#[test]
fn touched_entries_are_kept_alive() {
    let mut env = with_escrow();
    add(&mut env, 100).unwrap();
    next_request(&mut env);
    EscrowContract::get_milestone(&mut env, 0, 0).unwrap();
    assert!(env.touched.contains(&EntryKey::Packed(PackedDataKey::EscrowMeta(0))));
    assert!(env.touched.contains(&EntryKey::Packed(PackedDataKey::Milestone(0, 0))));
    assert!(!env.instance_touched);
    EscrowContract::escrow_count(&mut env);
    assert!(env.instance_touched);
}

#[test]
fn a_missing_milestone_hides_the_escrow() {
    let mut env = with_escrow();
    add(&mut env, 100).unwrap();
    env.milestones.remove(&(0, 0));
    assert!(matches!(
        EscrowContract::get_escrow(&mut env, 0),
        Err(EscrowError::MilestoneNotFound)
    ));
}

#[test]
fn pages_cap_at_fifty() {
    let mut env = fresh();
    for _ in 0..60 {
        create_with(&mut env, 10, None, None).unwrap();
    }
    let page = |offset: u32, limit: u32| {
        EscrowContract::get_escrow_ids_by_status(&env, EscrowStatus::Active, offset, limit)
    };
    assert_eq!(page(0, 100).len(), 50);
    assert_eq!(page(50, 100), vec![50, 51, 52, 53, 54, 55, 56, 57, 58, 59]);
    assert_eq!(page(58, 1), vec![58]);
    assert!(page(60, 5).is_empty());
    assert!(page(u32::MAX, u32::MAX).is_empty());
    assert!(page(0, 0).is_empty());
}

#[test]
fn tables_hold_the_last_value() {
    let mut table: Table<u64, u64> = Table::new();
    assert!(!table.has(&1));
    table.set(1, 10);
    table.set(2, 20);
    table.set(1, 11);
    assert_eq!(table.get(&1), Some(&11));
    assert_eq!(table.len(), 2);
    table.remove(&1);
    assert_eq!(table.get(&1), None);
    assert_eq!(table.get(&2), Some(&20));
}

#[test]
fn errors_have_their_numbers() {
    for (error, code) in [
        (EscrowError::AlreadyInitialized, 1),
        (EscrowError::EscrowNotFound, 8),
        (EscrowError::CancellationNotFound, 32),
        (EscrowError::StorageMigrationFailed, 42),
        (EscrowError::BridgeError, 54),
        (EscrowError::DisputeStartNotRecorded, 59),
    ] {
        assert_eq!(error.code(), code);
    }
}
