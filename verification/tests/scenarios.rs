use escrow_contract::cancellation::{CANCELLATION_DISPUTE_PERIOD, SLASH_DISPUTE_PERIOD};
use escrow_contract::contract::EscrowContract;
use escrow_contract::errors::EscrowError;
use escrow_contract::ledger::{EntryKey, Env, HostCall};
use escrow_contract::rent::{RENT_PERIOD_SECONDS, RENT_RESERVE_PERIODS};
use escrow_contract::storage::ContractStorage;
use escrow_contract::types::{
    Address, DataKey, EscrowStatus, MultisigConfig, OracleResolutionPayload, PackedDataKey,
    RecurringInterval, Text,
};

/// A ledger together with the token balances that the contract's transfers act on.
struct World {
    env: Env,
    addresses: u8,
    balances: Vec<(Address, Address, i128)>,
}

impl World {
    fn new() -> World {
        World {
            env: Env::new(1_000, address(255)),
            addresses: 0,
            balances: Vec::new(),
        }
    }

    fn address(&mut self) -> Address {
        self.addresses += 1;
        address(self.addresses)
    }

    fn contract(&self) -> Address {
        self.env.contract
    }

    fn advance(&mut self, seconds: u64) {
        self.env.timestamp += seconds;
    }

    fn balance(&self, token: &Address, who: &Address) -> i128 {
        let mut sum = 0;
        for (t, w, amount) in &self.balances {
            if t == token && w == who {
                sum += amount;
            }
        }
        sum
    }

    fn mint(&mut self, token: &Address, who: &Address, amount: i128) {
        self.balances.push((*token, *who, amount));
    }

    /// Makes a request. What an accepted one asks of the host is done; a refused one has asked
    /// for nothing.
    fn request<T>(
        &mut self,
        f: impl FnOnce(&mut Env) -> Result<T, EscrowError>,
    ) -> Result<T, EscrowError> {
        let result = f(&mut self.env);
        if result.is_err() {
            assert!(self.env.calls.is_empty());
        }
        self.perform();
        result
    }

    fn perform(&mut self) {
        let calls = std::mem::take(&mut self.env.calls);
        self.env.auths.clear();
        self.env.touched.clear();
        self.env.instance_touched = false;
        for call in calls {
            match call {
                HostCall::Transfer { token, from, to, amount } => {
                    assert!(amount >= 0);
                    assert!(self.balance(&token, &from) >= amount);
                    self.balances.push((token, from, -amount));
                    self.balances.push((token, to, amount));
                }
                HostCall::VerifySignature { public_key, message, signature } => {
                    assert_eq!(signature, sign(&public_key, &message));
                }
                _ => {}
            }
        }
    }
}

fn address(n: u8) -> Address {
    Address { strkey: [n; 56] }
}

fn text(s: &str) -> Text {
    s.as_bytes().to_vec()
}

fn no_multisig() -> MultisigConfig {
    MultisigConfig { approvers: Vec::new(), weights: Vec::new(), threshold: 0 }
}

fn public_key(secret: &[u8; 32]) -> [u8; 32] {
    let mut key = [0u8; 32];
    for i in 0..32 {
        key[i] = secret[i].wrapping_mul(3).wrapping_add(i as u8);
    }
    key
}

fn sign(public_key: &[u8; 32], message: &[u8]) -> [u8; 64] {
    let mut signature = [0u8; 64];
    for i in 0..64 {
        signature[i] = public_key[i % 32] ^ message[i % message.len()];
    }
    signature
}

fn setup() -> (World, Address, Address) {
    let mut w = World::new();
    let admin = w.address();
    let contract_id = w.contract();
    (w, admin, contract_id)
}

fn create(
    w: &mut World,
    client: Address,
    freelancer: Address,
    token: Address,
    amount: i128,
    brief: u8,
) -> u64 {
    w.request(|env| {
        EscrowContract::create_escrow(
            env,
            client,
            freelancer,
            token,
            amount,
            [brief; 32],
            None,
            None,
            None,
            None,
            no_multisig(),
        )
    })
    .unwrap()
}

fn add(w: &mut World, caller: Address, id: u64, title: &str, hash: u8, amount: i128) -> u32 {
    w.request(|env| {
        EscrowContract::add_milestone(env, caller, id, text(title), [hash; 32], amount)
    })
    .unwrap()
}

fn initialize(w: &mut World, admin: Address) {
    w.request(|env| EscrowContract::initialize(env, admin)).unwrap();
}

fn create_recurring(
    w: &mut World,
    client: Address,
    freelancer: Address,
    token: Address,
    amount: i128,
    interval: RecurringInterval,
    start: u64,
    count: u32,
    brief: u8,
) -> u64 {
    w.request(|env| {
        EscrowContract::create_recurring_escrow(
            env,
            client,
            freelancer,
            token,
            amount,
            interval,
            start,
            None,
            Some(count),
            [brief; 32],
        )
    })
    .unwrap()
}

#[test]
fn test_create_recurring_escrow_stores_schedule() {
    let (mut w, admin, _) = setup();
    initialize(&mut w, admin);
    let escrow_client = w.address();
    let freelancer = w.address();
    let token_id = w.address();
    let total_reserve = 2 * ContractStorage::reserve_for_entries(1);
    w.mint(&token_id, &escrow_client, 300_i128 + total_reserve);

    let start_time = w.env.timestamp + 100;
    let escrow_id = create_recurring(
        &mut w,
        escrow_client,
        freelancer,
        token_id,
        100_i128,
        RecurringInterval::Weekly,
        start_time,
        3_u32,
        12,
    );

    let state = w.request(|env| EscrowContract::get_escrow(env, escrow_id)).unwrap();
    let recurring = w.request(|env| EscrowContract::get_recurring_config(env, escrow_id)).unwrap();
    assert_eq!(state.total_amount, 300_i128);
    assert_eq!(recurring.total_payments, 3);
    assert_eq!(recurring.payments_remaining, 3);
    assert_eq!(recurring.next_payment_at, start_time);
}

#[test]
fn test_process_recurring_payments_releases_due_amounts() {
    let (mut w, admin, _) = setup();
    initialize(&mut w, admin);
    let escrow_client = w.address();
    let freelancer = w.address();
    let token_id = w.address();
    let total_reserve = 2 * ContractStorage::reserve_for_entries(1);
    w.mint(&token_id, &escrow_client, 200_i128 + total_reserve);

    let start_time = w.env.timestamp + 10;
    let escrow_id = create_recurring(
        &mut w,
        escrow_client,
        freelancer,
        token_id,
        100_i128,
        RecurringInterval::Daily,
        start_time,
        2_u32,
        13,
    );

    w.advance(10);
    assert_eq!(
        w.request(|env| EscrowContract::process_recurring_payments(env, escrow_id)),
        Ok(1)
    );
    assert_eq!(w.balance(&token_id, &freelancer), 100_i128);
    let state = w.request(|env| EscrowContract::get_escrow(env, escrow_id)).unwrap();
    assert_eq!(state.remaining_balance, 100_i128);

    w.advance(86_400);
    assert_eq!(
        w.request(|env| EscrowContract::process_recurring_payments(env, escrow_id)),
        Ok(1)
    );
    assert_eq!(w.balance(&token_id, &freelancer), 200_i128);
    let state = w.request(|env| EscrowContract::get_escrow(env, escrow_id)).unwrap();
    assert_eq!(state.status, EscrowStatus::Completed);
}

#[test]
fn test_pause_and_resume_recurring_schedule() {
    let (mut w, admin, _) = setup();
    initialize(&mut w, admin);
    let escrow_client = w.address();
    let freelancer = w.address();
    let token_id = w.address();
    let total_reserve = 2 * ContractStorage::reserve_for_entries(1);
    w.mint(&token_id, &escrow_client, 200_i128 + total_reserve);

    let start_time = w.env.timestamp + 10;
    let escrow_id = create_recurring(
        &mut w,
        escrow_client,
        freelancer,
        token_id,
        100_i128,
        RecurringInterval::Daily,
        start_time,
        2_u32,
        14,
    );

    w.request(|env| EscrowContract::pause_recurring_schedule(env, escrow_client, escrow_id))
        .unwrap();
    w.advance(10);
    let paused_result = w.request(|env| EscrowContract::process_recurring_payments(env, escrow_id));
    assert!(matches!(paused_result, Err(EscrowError::RecurringSchedulePaused)));

    w.request(|env| EscrowContract::resume_recurring_schedule(env, escrow_client, escrow_id))
        .unwrap();
    let recurring = w.request(|env| EscrowContract::get_recurring_config(env, escrow_id)).unwrap();
    assert!(!recurring.paused);
    assert_eq!(
        w.request(|env| EscrowContract::process_recurring_payments(env, escrow_id)),
        Ok(1)
    );
}

#[test]
fn test_cancel_recurring_escrow_refunds_unreleased_balance() {
    let (mut w, admin, _) = setup();
    initialize(&mut w, admin);
    let escrow_client = w.address();
    let freelancer = w.address();
    let token_id = w.address();
    let total_reserve = 2 * ContractStorage::reserve_for_entries(1);
    w.mint(&token_id, &escrow_client, 300_i128 + total_reserve);

    let start_time = w.env.timestamp + 10;
    let escrow_id = create_recurring(
        &mut w,
        escrow_client,
        freelancer,
        token_id,
        100_i128,
        RecurringInterval::Daily,
        start_time,
        3_u32,
        15,
    );

    w.advance(10);
    w.request(|env| EscrowContract::process_recurring_payments(env, escrow_id)).unwrap();
    w.request(|env| EscrowContract::cancel_recurring_escrow(env, escrow_client, escrow_id))
        .unwrap();

    assert_eq!(w.balance(&token_id, &escrow_client), 200_i128);
    let state = w.request(|env| EscrowContract::get_escrow(env, escrow_id)).unwrap();
    assert_eq!(state.status, EscrowStatus::Cancelled);
    let recurring = w.request(|env| EscrowContract::get_recurring_config(env, escrow_id)).unwrap();
    assert!(recurring.cancelled);
}

#[test]
fn test_initialize_uses_instance_storage() {
    let (mut w, admin, _) = setup();
    initialize(&mut w, admin);
    assert!(w.env.instance_has(&DataKey::Admin));
    assert!(w.env.instance_has(&DataKey::EscrowCounter));
    assert!(!w.env.persistent_has(&EntryKey::Data(DataKey::Admin)));
    assert!(!w.env.persistent_has(&EntryKey::Data(DataKey::EscrowCounter)));
}

#[test]
fn test_create_escrow_packs_metadata_separately() {
    let (mut w, admin, contract_id) = setup();
    initialize(&mut w, admin);
    let escrow_client = w.address();
    let freelancer = w.address();
    let token_id = w.address();
    let expected_rent_reserve = ContractStorage::reserve_for_entries(1);
    w.mint(&token_id, &escrow_client, 1_000_i128 + expected_rent_reserve);

    let escrow_id = create(&mut w, escrow_client, freelancer, token_id, 1_000_i128, 1);

    assert_eq!(escrow_id, 0);
    assert_eq!(w.balance(&token_id, &contract_id), 1_000_i128 + expected_rent_reserve);
    assert!(w.env.persistent_has(&EntryKey::Packed(PackedDataKey::EscrowMeta(escrow_id))));
    assert!(!w.env.persistent_has(&EntryKey::Data(DataKey::Escrow(escrow_id))));
    let meta = w.env.escrows.get(&escrow_id).unwrap();
    assert_eq!(meta.rent_balance, expected_rent_reserve);
}

#[test]
fn test_get_milestone_reads_granular_storage_entry() {
    let (mut w, admin, _) = setup();
    initialize(&mut w, admin);
    let escrow_client = w.address();
    let freelancer = w.address();
    let token_id = w.address();
    w.mint(
        &token_id,
        &escrow_client,
        1_000_i128 + (2 * ContractStorage::reserve_for_entries(1)),
    );

    let escrow_id = create(&mut w, escrow_client, freelancer, token_id, 1_000_i128, 2);
    let milestone_id = add(&mut w, escrow_client, escrow_id, "Design", 3, 300_i128);

    let milestone = w
        .request(|env| EscrowContract::get_milestone(env, escrow_id, milestone_id))
        .unwrap();
    assert_eq!(milestone.id, milestone_id);
    assert_eq!(milestone.amount, 300_i128);
    assert!(w
        .env
        .persistent_has(&EntryKey::Packed(PackedDataKey::Milestone(escrow_id, milestone_id))));
}

#[test]
fn test_get_reputation_returns_default_record() {
    let (mut w, _, _) = setup();
    let user = w.address();
    let record = w.request(|env| EscrowContract::get_reputation(env, user)).unwrap();
    assert_eq!(record.address, user);
    assert_eq!(record.total_score, 0);
    assert_eq!(record.completed_escrows, 0);
}

#[test]
fn test_approve_milestone_o1_completion_check() {
    let (mut w, admin, _) = setup();
    initialize(&mut w, admin);
    let escrow_client = w.address();
    let freelancer = w.address();
    let token_id = w.address();
    w.mint(
        &token_id,
        &escrow_client,
        500_i128 + (2 * ContractStorage::reserve_for_entries(1)),
    );

    let escrow_id = create(&mut w, escrow_client, freelancer, token_id, 500_i128, 4);
    let mid = add(&mut w, escrow_client, escrow_id, "Dev", 5, 500_i128);

    w.request(|env| EscrowContract::submit_milestone(env, freelancer, escrow_id, mid)).unwrap();
    w.request(|env| EscrowContract::approve_milestone(env, escrow_client, escrow_id, mid)).unwrap();

    let state = w.request(|env| EscrowContract::get_escrow(env, escrow_id)).unwrap();
    assert_eq!(state.status, EscrowStatus::Completed);

    let meta = w.env.escrows.get(&escrow_id).unwrap();
    assert_eq!(meta.approved_count, 1);
    assert_eq!(meta.milestone_count, 1);
}

#[test]
fn test_cancel_escrow() {
    let (mut w, admin, _) = setup();
    initialize(&mut w, admin);
    let escrow_client = w.address();
    let freelancer = w.address();
    let token_id = w.address();
    w.mint(&token_id, &escrow_client, 200_i128 + ContractStorage::reserve_for_entries(1));

    let escrow_id = create(&mut w, escrow_client, freelancer, token_id, 200_i128, 6);
    w.request(|env| EscrowContract::cancel_escrow(env, escrow_client, escrow_id)).unwrap();

    let state = w.request(|env| EscrowContract::get_escrow(env, escrow_id)).unwrap();
    assert_eq!(state.status, EscrowStatus::Cancelled);
    assert_eq!(w.balance(&token_id, &escrow_client), 200_i128);
}

#[test]
fn test_collect_rent_transfers_periodic_fees_to_admin() {
    let (mut w, admin, _) = setup();
    initialize(&mut w, admin);
    let escrow_client = w.address();
    let freelancer = w.address();
    let token_id = w.address();
    let start = w.env.timestamp;
    w.mint(&token_id, &escrow_client, 1_000_i128 + ContractStorage::reserve_for_entries(1));

    let escrow_id = create(&mut w, escrow_client, freelancer, token_id, 1_000_i128, 7);
    w.advance(3 * RENT_PERIOD_SECONDS);

    let collected = w.request(|env| EscrowContract::collect_rent(env, escrow_id)).unwrap();
    assert_eq!(collected, 3);
    assert_eq!(w.balance(&token_id, &admin), 3);

    let meta = w.env.escrows.get(&escrow_id).unwrap();
    assert_eq!(meta.rent_balance, 27);
    assert_eq!(meta.last_rent_collection_at, start + (3 * RENT_PERIOD_SECONDS));
}

#[test]
fn test_expired_escrow_is_cleaned_up_by_collect_rent() {
    let (mut w, admin, _) = setup();
    initialize(&mut w, admin);
    let escrow_client = w.address();
    let freelancer = w.address();
    let token_id = w.address();
    w.mint(
        &token_id,
        &escrow_client,
        200_i128 + (2 * ContractStorage::reserve_for_entries(1)),
    );

    let escrow_id = create(&mut w, escrow_client, freelancer, token_id, 200_i128, 8);
    let milestone_id = add(&mut w, escrow_client, escrow_id, "Scope", 9, 200_i128);

    w.advance((RENT_RESERVE_PERIODS + 1) * RENT_PERIOD_SECONDS);

    let collected = w.request(|env| EscrowContract::collect_rent(env, escrow_id)).unwrap();
    assert_eq!(collected, 60);
    assert_eq!(w.balance(&token_id, &admin), 60);
    assert_eq!(w.balance(&token_id, &escrow_client), 200);

    let result = w.request(|env| EscrowContract::get_milestone(env, escrow_id, milestone_id));
    assert!(matches!(result, Err(EscrowError::EscrowNotFound)));
    assert!(!w.env.persistent_has(&EntryKey::Packed(PackedDataKey::EscrowMeta(escrow_id))));
    assert!(!w
        .env
        .persistent_has(&EntryKey::Packed(PackedDataKey::Milestone(escrow_id, milestone_id))));
}

#[test]
fn test_top_up_rent_extends_escrow_lifetime() {
    let (mut w, admin, _) = setup();
    initialize(&mut w, admin);
    let escrow_client = w.address();
    let freelancer = w.address();
    let token_id = w.address();
    w.mint(
        &token_id,
        &escrow_client,
        100_i128 + (2 * ContractStorage::reserve_for_entries(1)),
    );

    let escrow_id = create(&mut w, escrow_client, freelancer, token_id, 100_i128, 10);
    let topped_up = w
        .request(|env| EscrowContract::top_up_rent(env, escrow_client, escrow_id, 5_u64))
        .unwrap();
    assert_eq!(topped_up, 5);

    w.advance((RENT_RESERVE_PERIODS + 3) * RENT_PERIOD_SECONDS);

    let state = w.request(|env| EscrowContract::get_escrow(env, escrow_id)).unwrap();
    assert_eq!(state.status, EscrowStatus::Active);

    let meta = w.env.escrows.get(&escrow_id).unwrap();
    assert_eq!(meta.rent_balance, 2);
    assert_eq!(
        meta.last_rent_collection_at,
        state.created_at + ((RENT_RESERVE_PERIODS + 3) * RENT_PERIOD_SECONDS)
    );
}

#[test]
fn test_cancellation_request_funds_extra_storage_rent() {
    let (mut w, admin, contract_id) = setup();
    initialize(&mut w, admin);
    let escrow_client = w.address();
    let freelancer = w.address();
    let token_id = w.address();
    w.mint(
        &token_id,
        &escrow_client,
        250_i128 + (2 * ContractStorage::reserve_for_entries(1)),
    );

    let escrow_id = create(&mut w, escrow_client, freelancer, token_id, 250_i128, 11);
    request_cancellation(&mut w, escrow_client, escrow_id, "Need to stop");

    assert_eq!(
        w.balance(&token_id, &contract_id),
        250_i128 + (2 * ContractStorage::reserve_for_entries(1))
    );

    w.advance(RENT_PERIOD_SECONDS);

    let collected = w.request(|env| EscrowContract::collect_rent(env, escrow_id)).unwrap();
    assert_eq!(collected, 2);
    assert_eq!(w.balance(&token_id, &admin), 2);

    let meta = w.env.escrows.get(&escrow_id).unwrap();
    assert_eq!(meta.rent_balance, 58);
    assert!(w.env.persistent_has(&EntryKey::Data(DataKey::CancellationRequest(escrow_id))));
}

fn request_cancellation(w: &mut World, caller: Address, id: u64, reason: &str) {
    w.request(|env| EscrowContract::request_cancellation(env, caller, id, text(reason))).unwrap();
}

#[test]
fn test_full_escrow_lifecycle() {
    let (mut w, admin, contract_id) = setup();
    initialize(&mut w, admin);
    let (escrow_client, freelancer, token_id, escrow_id) = setup_funded_escrow(&mut w, 100_i128);
    w.mint(&token_id, &escrow_client, ContractStorage::reserve_for_entries(1));

    let first = add(&mut w, escrow_client, escrow_id, "Design", 1, 40_i128);
    let second = add(&mut w, escrow_client, escrow_id, "Build", 2, 60_i128);
    w.request(|env| EscrowContract::submit_milestone(env, freelancer, escrow_id, first)).unwrap();
    w.request(|env| EscrowContract::reject_milestone(env, escrow_client, escrow_id, first))
        .unwrap();
    w.request(|env| EscrowContract::submit_milestone(env, freelancer, escrow_id, first)).unwrap();
    w.request(|env| EscrowContract::approve_milestone(env, escrow_client, escrow_id, first))
        .unwrap();
    let state = w.request(|env| EscrowContract::get_escrow(env, escrow_id)).unwrap();
    assert_eq!(state.status, EscrowStatus::Active);
    assert_eq!(state.remaining_balance, 60_i128);
    assert_eq!(w.balance(&token_id, &freelancer), 40_i128);

    w.request(|env| EscrowContract::submit_milestone(env, freelancer, escrow_id, second)).unwrap();
    w.request(|env| EscrowContract::approve_milestone(env, escrow_client, escrow_id, second))
        .unwrap();
    let state = w.request(|env| EscrowContract::get_escrow(env, escrow_id)).unwrap();
    assert_eq!(state.status, EscrowStatus::Completed);
    assert_eq!(state.remaining_balance, 0);
    assert_eq!(w.balance(&token_id, &freelancer), 100_i128);
    assert_eq!(
        w.balance(&token_id, &contract_id),
        3 * ContractStorage::reserve_for_entries(1)
    );
}

#[test]
fn test_dispute_resolution() {
    let (mut w, admin, _) = setup();
    initialize(&mut w, admin);
    let (escrow_client, freelancer, token_id, escrow_id) = setup_funded_escrow(&mut w, 100_i128);

    w.request(|env| EscrowContract::raise_dispute(env, freelancer, escrow_id, None)).unwrap();
    assert_eq!(
        w.request(|env| EscrowContract::resolve_dispute(env, freelancer, escrow_id, 30, 70)),
        Err(EscrowError::AdminOnly)
    );
    assert_eq!(
        w.request(|env| EscrowContract::resolve_dispute(env, admin, escrow_id, 30, 71)),
        Err(EscrowError::AmountMismatch)
    );
    w.request(|env| EscrowContract::resolve_dispute(env, admin, escrow_id, 30, 70)).unwrap();

    // Thirty of the hundred, besides the reserve that was never used.
    assert_eq!(
        w.balance(&token_id, &escrow_client),
        30 + ContractStorage::reserve_for_entries(1)
    );
    assert_eq!(w.balance(&token_id, &freelancer), 70);
    let state = w.request(|env| EscrowContract::get_escrow(env, escrow_id)).unwrap();
    assert_eq!(state.status, EscrowStatus::Completed);
    for who in [escrow_client, freelancer] {
        let record = w.request(|env| EscrowContract::get_reputation(env, who)).unwrap();
        assert_eq!(record.disputed_escrows, 1);
    }
}

fn setup_funded_escrow(w: &mut World, amount: i128) -> (Address, Address, Address, u64) {
    let escrow_client = w.address();
    let freelancer = w.address();
    let token_id = w.address();
    w.mint(
        &token_id,
        &escrow_client,
        amount + (2 * ContractStorage::reserve_for_entries(1)),
    );
    let escrow_id = create(w, escrow_client, freelancer, token_id, amount, 99);
    (escrow_client, freelancer, token_id, escrow_id)
}

#[test]
fn test_execute_cancellation_slashes_requester_and_distributes() {
    let (mut w, admin, _) = setup();
    initialize(&mut w, admin);
    let (escrow_client, freelancer, token_id, escrow_id) = setup_funded_escrow(&mut w, 100_i128);
    request_cancellation(&mut w, escrow_client, escrow_id, "Changed my mind");

    w.advance(CANCELLATION_DISPUTE_PERIOD + 1);
    w.request(|env| EscrowContract::execute_cancellation(env, escrow_id)).unwrap();

    assert_eq!(w.balance(&token_id, &escrow_client), 90_i128);
    assert_eq!(w.balance(&token_id, &freelancer), 0_i128);

    w.advance(SLASH_DISPUTE_PERIOD + 1);
    w.request(|env| EscrowContract::finalize_slash(env, escrow_id)).unwrap();
    assert_eq!(w.balance(&token_id, &freelancer), 10_i128);

    let state = w.request(|env| EscrowContract::get_escrow(env, escrow_id)).unwrap();
    assert_eq!(state.status, EscrowStatus::Cancelled);
    assert_eq!(state.remaining_balance, 0);
}

#[test]
fn test_execute_cancellation_freelancer_requester_slashes_to_client() {
    let (mut w, admin, _) = setup();
    initialize(&mut w, admin);
    let (escrow_client, freelancer, token_id, escrow_id) = setup_funded_escrow(&mut w, 200_i128);
    w.mint(&token_id, &freelancer, ContractStorage::reserve_for_entries(1));
    request_cancellation(&mut w, freelancer, escrow_id, "Cannot deliver");

    w.advance(CANCELLATION_DISPUTE_PERIOD + 1);
    w.request(|env| EscrowContract::execute_cancellation(env, escrow_id)).unwrap();

    assert_eq!(w.balance(&token_id, &freelancer), 180_i128);
    assert_eq!(w.balance(&token_id, &escrow_client), 30_i128);

    w.advance(SLASH_DISPUTE_PERIOD + 1);
    w.request(|env| EscrowContract::finalize_slash(env, escrow_id)).unwrap();
    assert_eq!(w.balance(&token_id, &escrow_client), 50_i128);
}

#[test]
fn test_execute_cancellation_fails_during_dispute_period() {
    let (mut w, admin, _) = setup();
    initialize(&mut w, admin);
    let (escrow_client, _, _, escrow_id) = setup_funded_escrow(&mut w, 100_i128);
    request_cancellation(&mut w, escrow_client, escrow_id, "reason");

    let result = w.request(|env| EscrowContract::execute_cancellation(env, escrow_id));
    assert!(matches!(result, Err(EscrowError::CancellationDisputePeriodActive)));
}

#[test]
fn test_dispute_cancellation_blocks_execution() {
    let (mut w, admin, _) = setup();
    initialize(&mut w, admin);
    let (escrow_client, freelancer, _, escrow_id) = setup_funded_escrow(&mut w, 100_i128);
    request_cancellation(&mut w, escrow_client, escrow_id, "reason");

    w.request(|env| EscrowContract::dispute_cancellation(env, freelancer, escrow_id)).unwrap();

    w.advance(CANCELLATION_DISPUTE_PERIOD + 1);

    let result = w.request(|env| EscrowContract::execute_cancellation(env, escrow_id));
    assert!(matches!(result, Err(EscrowError::CancellationDisputed)));

    let state = w.request(|env| EscrowContract::get_escrow(env, escrow_id)).unwrap();
    assert_eq!(state.status, EscrowStatus::Disputed);
}

#[test]
fn test_slash_reputation_updated_on_cancellation() {
    let (mut w, admin, _) = setup();
    initialize(&mut w, admin);
    let (escrow_client, _, _, escrow_id) = setup_funded_escrow(&mut w, 100_i128);
    request_cancellation(&mut w, escrow_client, escrow_id, "reason");

    w.advance(CANCELLATION_DISPUTE_PERIOD + 1);
    w.request(|env| EscrowContract::execute_cancellation(env, escrow_id)).unwrap();

    let rep = w.request(|env| EscrowContract::get_reputation(env, escrow_client)).unwrap();
    assert_eq!(rep.slash_count, 1);
    assert_eq!(rep.total_slashed, 10_i128);
}

#[test]
fn test_dispute_slash_reversal_restores_funds_and_reputation() {
    let (mut w, admin, _) = setup();
    initialize(&mut w, admin);
    let (escrow_client, freelancer, token_id, escrow_id) = setup_funded_escrow(&mut w, 100_i128);
    request_cancellation(&mut w, escrow_client, escrow_id, "reason");

    w.advance(CANCELLATION_DISPUTE_PERIOD + 1);
    w.request(|env| EscrowContract::execute_cancellation(env, escrow_id)).unwrap();
    assert_eq!(w.balance(&token_id, &freelancer), 0_i128);

    w.request(|env| EscrowContract::dispute_slash(env, escrow_client, escrow_id)).unwrap();
    w.request(|env| EscrowContract::resolve_slash_dispute(env, admin, escrow_id, false)).unwrap();
    assert_eq!(w.balance(&token_id, &escrow_client), 100_i128);

    let rep = w.request(|env| EscrowContract::get_reputation(env, escrow_client)).unwrap();
    assert_eq!(rep.slash_count, 0);
    assert_eq!(rep.total_slashed, 0_i128);
}

fn setup_pause_escrow(amount: i128) -> (World, Address, Address, Address, Address, u64) {
    let (mut w, admin, _) = setup();
    initialize(&mut w, admin);
    let escrow_client = w.address();
    let freelancer = w.address();
    let token_id = w.address();
    let reserve = 2 * ContractStorage::reserve_for_entries(1);
    w.mint(&token_id, &escrow_client, amount + reserve);
    let escrow_id = create(&mut w, escrow_client, freelancer, token_id, amount, 0u8);
    (w, admin, escrow_client, freelancer, token_id, escrow_id)
}

fn pause(w: &mut World, caller: Address) {
    w.request(|env| EscrowContract::pause(env, caller)).unwrap();
}

fn unpause(w: &mut World, caller: Address) {
    w.request(|env| EscrowContract::unpause(env, caller)).unwrap();
}

#[test]
fn test_pause_sets_state_and_emits_event() {
    let (mut w, admin, _, _, _, _) = setup_pause_escrow(100);
    assert!(!EscrowContract::is_paused(&w.env));
    pause(&mut w, admin);
    assert!(EscrowContract::is_paused(&w.env));
}

#[test]
fn test_unpause_clears_state_and_emits_event() {
    let (mut w, admin, _, _, _, _) = setup_pause_escrow(100);
    pause(&mut w, admin);
    assert!(EscrowContract::is_paused(&w.env));
    unpause(&mut w, admin);
    assert!(!EscrowContract::is_paused(&w.env));
}

#[test]
fn test_pause_is_idempotent() {
    let (mut w, admin, _, _, _, _) = setup_pause_escrow(100);
    pause(&mut w, admin);
    pause(&mut w, admin);
    assert!(EscrowContract::is_paused(&w.env));
}

#[test]
fn test_unpause_is_idempotent() {
    let (mut w, admin, _, _, _, _) = setup_pause_escrow(100);
    unpause(&mut w, admin);
    assert!(!EscrowContract::is_paused(&w.env));
}

#[test]
#[should_panic]
fn test_pause_non_admin_rejected() {
    let (mut w, _, escrow_client, _, _, _) = setup_pause_escrow(100);
    pause(&mut w, escrow_client);
}

#[test]
#[should_panic]
fn test_unpause_non_admin_rejected() {
    let (mut w, admin, escrow_client, _, _, _) = setup_pause_escrow(100);
    pause(&mut w, admin);
    unpause(&mut w, escrow_client);
}

#[test]
#[should_panic]
fn test_create_escrow_blocked_when_paused() {
    let (mut w, admin, escrow_client, freelancer, token_id, _) = setup_pause_escrow(100);
    pause(&mut w, admin);
    w.mint(&token_id, &escrow_client, 200_i128);
    create(&mut w, escrow_client, freelancer, token_id, 100_i128, 1u8);
}

#[test]
#[should_panic]
fn test_add_milestone_blocked_when_paused() {
    let (mut w, admin, escrow_client, _, _, escrow_id) = setup_pause_escrow(100);
    pause(&mut w, admin);
    add(&mut w, escrow_client, escrow_id, "M1", 0u8, 50_i128);
}

#[test]
#[should_panic]
fn test_submit_milestone_blocked_when_paused() {
    let (mut w, admin, escrow_client, freelancer, _, escrow_id) = setup_pause_escrow(100);
    add(&mut w, escrow_client, escrow_id, "M1", 0u8, 50_i128);
    pause(&mut w, admin);
    w.request(|env| EscrowContract::submit_milestone(env, freelancer, escrow_id, 0)).unwrap();
}

#[test]
#[should_panic]
fn test_approve_milestone_blocked_when_paused() {
    let (mut w, admin, escrow_client, freelancer, _, escrow_id) = setup_pause_escrow(100);
    add(&mut w, escrow_client, escrow_id, "M1", 0u8, 50_i128);
    w.request(|env| EscrowContract::submit_milestone(env, freelancer, escrow_id, 0)).unwrap();
    pause(&mut w, admin);
    w.request(|env| EscrowContract::approve_milestone(env, escrow_client, escrow_id, 0)).unwrap();
}

#[test]
#[should_panic]
fn test_cancel_escrow_blocked_when_paused() {
    let (mut w, admin, escrow_client, _, _, escrow_id) = setup_pause_escrow(100);
    pause(&mut w, admin);
    w.request(|env| EscrowContract::cancel_escrow(env, escrow_client, escrow_id)).unwrap();
}

#[test]
#[should_panic]
fn test_raise_dispute_blocked_when_paused() {
    let (mut w, admin, escrow_client, _, _, escrow_id) = setup_pause_escrow(100);
    pause(&mut w, admin);
    w.request(|env| EscrowContract::raise_dispute(env, escrow_client, escrow_id, None)).unwrap();
}

#[test]
#[should_panic]
fn test_request_cancellation_blocked_when_paused() {
    let (mut w, admin, escrow_client, _, _, escrow_id) = setup_pause_escrow(100);
    pause(&mut w, admin);
    request_cancellation(&mut w, escrow_client, escrow_id, "reason");
}

#[test]
fn test_view_functions_work_when_paused() {
    let (mut w, admin, _, _, _, escrow_id) = setup_pause_escrow(100);
    pause(&mut w, admin);
    w.request(|env| EscrowContract::get_escrow(env, escrow_id)).unwrap();
    assert_eq!(EscrowContract::escrow_count(&mut w.env), 1);
    assert!(EscrowContract::is_paused(&w.env));
}

#[test]
fn test_pause_unpause_cycle_restores_mutations() {
    let (mut w, admin, escrow_client, _, _, escrow_id) = setup_pause_escrow(100);
    pause(&mut w, admin);
    assert!(EscrowContract::is_paused(&w.env));

    let result = w.request(|env| {
        EscrowContract::add_milestone(env, escrow_client, escrow_id, text("M1"), [0u8; 32], 50_i128)
    });
    assert!(result.is_err(), "add_milestone should fail while paused");

    unpause(&mut w, admin);
    assert!(!EscrowContract::is_paused(&w.env));

    let mid = add(&mut w, escrow_client, escrow_id, "M1", 0u8, 50_i128);
    assert_eq!(mid, 0);
}

#[test]
fn test_get_escrow_ids_by_participant_indexes_client_and_freelancer() {
    let (mut w, admin, _) = setup();
    let escrow_client = w.address();
    let freelancer = w.address();
    let token_id = w.address();
    let reserve = ContractStorage::reserve_for_entries(1);
    w.mint(&token_id, &escrow_client, 200_i128 + 2 * reserve);
    initialize(&mut w, admin);

    let eid1 = create(&mut w, escrow_client, freelancer, token_id, 100_i128, 1u8);
    let eid2 = create(&mut w, escrow_client, freelancer, token_id, 100_i128, 2u8);

    let client_ids = EscrowContract::get_escrow_ids_by_participant(&w.env, escrow_client, 0, 50);
    assert_eq!(client_ids.len(), 2);
    assert_eq!(client_ids[0], eid1);
    assert_eq!(client_ids[1], eid2);

    let freelancer_ids = EscrowContract::get_escrow_ids_by_participant(&w.env, freelancer, 0, 50);
    assert_eq!(freelancer_ids.len(), 2);
}

#[test]
fn test_get_escrow_ids_by_participant_pagination() {
    let (mut w, admin, _) = setup();
    let escrow_client = w.address();
    let freelancer = w.address();
    let token_id = w.address();
    let reserve = ContractStorage::reserve_for_entries(1);
    w.mint(&token_id, &escrow_client, 500_i128 + 5 * reserve);
    initialize(&mut w, admin);

    for i in 0u8..5 {
        create(&mut w, escrow_client, freelancer, token_id, 100_i128, i);
    }

    let page = EscrowContract::get_escrow_ids_by_participant(&w.env, escrow_client, 2, 2);
    assert_eq!(page.len(), 2);
    assert_eq!(page, vec![2, 3]);

    let all = EscrowContract::get_escrow_ids_by_participant(&w.env, escrow_client, 0, 100);
    assert_eq!(all.len(), 5);
}

#[test]
fn test_get_escrow_ids_by_participant_empty_for_unknown_address() {
    let (mut w, admin, _) = setup();
    initialize(&mut w, admin);
    let unknown = w.address();
    let ids = EscrowContract::get_escrow_ids_by_participant(&w.env, unknown, 0, 50);
    assert_eq!(ids.len(), 0);
}

#[test]
fn test_get_escrow_ids_by_status_active_on_creation() {
    let (mut w, admin, _) = setup();
    let escrow_client = w.address();
    let freelancer = w.address();
    let token_id = w.address();
    let reserve = ContractStorage::reserve_for_entries(1);
    w.mint(&token_id, &escrow_client, 100_i128 + reserve);
    initialize(&mut w, admin);
    let eid = create(&mut w, escrow_client, freelancer, token_id, 100_i128, 1u8);

    let active = EscrowContract::get_escrow_ids_by_status(&w.env, EscrowStatus::Active, 0, 50);
    assert_eq!(active.len(), 1);
    assert_eq!(active[0], eid);
}

#[test]
fn test_get_escrow_ids_by_status_disputed_after_raise_dispute() {
    let (mut w, admin, _) = setup();
    let escrow_client = w.address();
    let freelancer = w.address();
    let token_id = w.address();
    let reserve = ContractStorage::reserve_for_entries(1);
    w.mint(&token_id, &escrow_client, 100_i128 + reserve);
    initialize(&mut w, admin);
    let eid = create(&mut w, escrow_client, freelancer, token_id, 100_i128, 1u8);

    w.request(|env| EscrowContract::raise_dispute(env, escrow_client, eid, None)).unwrap();

    let active = EscrowContract::get_escrow_ids_by_status(&w.env, EscrowStatus::Active, 0, 50);
    assert_eq!(active.len(), 0);

    let disputed = EscrowContract::get_escrow_ids_by_status(&w.env, EscrowStatus::Disputed, 0, 50);
    assert_eq!(disputed.len(), 1);
    assert_eq!(disputed[0], eid);
}

#[test]
fn test_get_escrow_ids_by_status_completed_after_all_milestones() {
    let (mut w, admin, _) = setup();
    let escrow_client = w.address();
    let freelancer = w.address();
    let token_id = w.address();
    let reserve = ContractStorage::reserve_for_entries(1);
    w.mint(&token_id, &escrow_client, 100_i128 + 2 * reserve);
    initialize(&mut w, admin);
    let eid = create(&mut w, escrow_client, freelancer, token_id, 100_i128, 1u8);

    add(&mut w, escrow_client, eid, "M1", 0u8, 100_i128);
    w.request(|env| EscrowContract::submit_milestone(env, freelancer, eid, 0)).unwrap();
    w.request(|env| EscrowContract::approve_milestone(env, escrow_client, eid, 0)).unwrap();

    let completed =
        EscrowContract::get_escrow_ids_by_status(&w.env, EscrowStatus::Completed, 0, 50);
    assert_eq!(completed.len(), 1);
    assert_eq!(completed[0], eid);

    let active = EscrowContract::get_escrow_ids_by_status(&w.env, EscrowStatus::Active, 0, 50);
    assert_eq!(active.len(), 0);
}

fn setup_listed_escrow() -> (World, Address, u64) {
    let (mut w, admin, _) = setup();
    let escrow_client = w.address();
    let freelancer = w.address();
    let token_id = w.address();
    let reserve = ContractStorage::reserve_for_entries(1);
    w.mint(&token_id, &escrow_client, 100_i128 + 2 * reserve);
    initialize(&mut w, admin);
    let eid = create(&mut w, escrow_client, freelancer, token_id, 100_i128, 1u8);
    (w, escrow_client, eid)
}

#[test]
fn test_list_cancellations_by_requester_populated_after_request() {
    let (mut w, escrow_client, eid) = setup_listed_escrow();
    request_cancellation(&mut w, escrow_client, eid, "reason");

    let ids = EscrowContract::list_cancellations_by_requester(&w.env, escrow_client);
    assert_eq!(ids.len(), 1);
    assert_eq!(ids[0], eid);
}

#[test]
fn test_list_cancellations_by_requester_cleared_after_execute() {
    let (mut w, escrow_client, eid) = setup_listed_escrow();
    request_cancellation(&mut w, escrow_client, eid, "reason");

    w.advance(8 * 24 * 60 * 60);
    w.request(|env| EscrowContract::execute_cancellation(env, eid)).unwrap();

    let ids = EscrowContract::list_cancellations_by_requester(&w.env, escrow_client);
    assert_eq!(ids.len(), 0);
}

#[test]
fn test_list_cancellations_by_requester_empty_for_unknown() {
    let (mut w, admin, _) = setup();
    initialize(&mut w, admin);
    let unknown = w.address();
    let ids = EscrowContract::list_cancellations_by_requester(&w.env, unknown);
    assert_eq!(ids.len(), 0);
}

#[test]
fn test_get_slash_records_by_address_after_cancellation() {
    let (mut w, escrow_client, eid) = setup_listed_escrow();
    request_cancellation(&mut w, escrow_client, eid, "reason");

    w.advance(8 * 24 * 60 * 60);
    w.request(|env| EscrowContract::execute_cancellation(env, eid)).unwrap();

    let records = EscrowContract::get_slash_records_by_address(&mut w.env, escrow_client);
    assert_eq!(records.len(), 1);
    assert_eq!(records[0].escrow_id, eid);
}

#[test]
fn test_get_slash_records_by_address_empty_for_no_slashes() {
    let (mut w, admin, _) = setup();
    initialize(&mut w, admin);
    let unknown = w.address();
    let records = EscrowContract::get_slash_records_by_address(&mut w.env, unknown);
    assert_eq!(records.len(), 0);
}

fn make_oracle_payload(
    escrow_id: u64,
    client_bps: u32,
    freelancer_bps: u32,
    expires_at: u64,
    secret: &[u8; 32],
) -> OracleResolutionPayload {
    let mut message = [0u8; 24];
    message[0..8].copy_from_slice(&escrow_id.to_le_bytes());
    message[8..12].copy_from_slice(&client_bps.to_le_bytes());
    message[12..16].copy_from_slice(&freelancer_bps.to_le_bytes());
    message[16..24].copy_from_slice(&expires_at.to_le_bytes());
    let oracle_pubkey = public_key(secret);
    OracleResolutionPayload {
        escrow_id,
        client_bps,
        freelancer_bps,
        expires_at,
        signature: sign(&oracle_pubkey, &message),
        oracle_pubkey,
    }
}

fn setup_oracle_dispute(
    brief: u8,
    secret: &[u8; 32],
) -> (World, Address, Address, Address, u64) {
    let (mut w, admin, _) = setup();
    initialize(&mut w, admin);
    let escrow_client = w.address();
    let freelancer = w.address();
    let token_id = w.address();
    let reserve = ContractStorage::reserve_for_entries(1);
    w.mint(&token_id, &escrow_client, 100_i128 + reserve);
    let escrow_id = create(&mut w, escrow_client, freelancer, token_id, 100_i128, brief);
    w.request(|env| EscrowContract::raise_dispute(env, escrow_client, escrow_id, None)).unwrap();
    let key = public_key(secret);
    w.request(|env| EscrowContract::set_trusted_oracle_key(env, admin, key)).unwrap();
    (w, escrow_client, freelancer, token_id, escrow_id)
}

#[test]
fn test_oracle_resolve_dispute_after_grace_period() {
    let oracle_secret = [42u8; 32];
    let (mut w, escrow_client, freelancer, token_id, escrow_id) =
        setup_oracle_dispute(1u8, &oracle_secret);

    let grace = 7 * 24 * 60 * 60_u64;
    w.advance(grace + 1);
    let expires_at = w.env.timestamp + 3600;
    let payload = make_oracle_payload(escrow_id, 6000, 4000, expires_at, &oracle_secret);

    w.request(|env| EscrowContract::oracle_resolve_dispute(env, escrow_id, payload, grace))
        .unwrap();

    let state = w.request(|env| EscrowContract::get_escrow(env, escrow_id)).unwrap();
    assert_eq!(state.status, EscrowStatus::Completed);
    assert_eq!(state.remaining_balance, 0);
    assert_eq!(w.balance(&token_id, &escrow_client), 60_i128);
    assert_eq!(w.balance(&token_id, &freelancer), 40_i128);
}

#[test]
fn test_oracle_resolve_dispute_rejected_before_grace_period() {
    let oracle_secret = [43u8; 32];
    let (mut w, _, _, _, escrow_id) = setup_oracle_dispute(2u8, &oracle_secret);

    let grace = 7 * 24 * 60 * 60_u64;
    let expires_at = w.env.timestamp + 3600;
    let payload = make_oracle_payload(escrow_id, 5000, 5000, expires_at, &oracle_secret);

    let result =
        w.request(|env| EscrowContract::oracle_resolve_dispute(env, escrow_id, payload, grace));
    assert!(matches!(result, Err(EscrowError::GracePeriodNotElapsed)));
}

#[test]
fn test_oracle_resolve_dispute_rejected_stale_payload() {
    let oracle_secret = [44u8; 32];
    let (mut w, _, _, _, escrow_id) = setup_oracle_dispute(3u8, &oracle_secret);

    let grace = 7 * 24 * 60 * 60_u64;
    w.advance(grace + 1);
    let expires_at = w.env.timestamp - 1;
    let payload = make_oracle_payload(escrow_id, 5000, 5000, expires_at, &oracle_secret);

    let result =
        w.request(|env| EscrowContract::oracle_resolve_dispute(env, escrow_id, payload, grace));
    assert!(matches!(result, Err(EscrowError::OraclePayloadStale)));
}

#[test]
fn test_oracle_resolve_dispute_rejected_invalid_bps() {
    let oracle_secret = [45u8; 32];
    let (mut w, _, _, _, escrow_id) = setup_oracle_dispute(4u8, &oracle_secret);

    let grace = 7 * 24 * 60 * 60_u64;
    w.advance(grace + 1);
    let expires_at = w.env.timestamp + 3600;
    let payload = make_oracle_payload(escrow_id, 5000, 4999, expires_at, &oracle_secret);

    let result =
        w.request(|env| EscrowContract::oracle_resolve_dispute(env, escrow_id, payload, grace));
    assert!(matches!(result, Err(EscrowError::OraclePayoutInvalid)));
}

#[test]
fn test_oracle_resolve_dispute_rejected_wrong_key() {
    let trusted_secret = [46u8; 32];
    let (mut w, _, _, _, escrow_id) = setup_oracle_dispute(5u8, &trusted_secret);

    let grace = 7 * 24 * 60 * 60_u64;
    w.advance(grace + 1);
    let expires_at = w.env.timestamp + 3600;
    let wrong_secret = [99u8; 32];
    let payload = make_oracle_payload(escrow_id, 5000, 5000, expires_at, &wrong_secret);

    let result =
        w.request(|env| EscrowContract::oracle_resolve_dispute(env, escrow_id, payload, grace));
    assert!(matches!(result, Err(EscrowError::OracleSignatureInvalid)));
}
