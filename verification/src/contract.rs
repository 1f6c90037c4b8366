//! The contract itself: its set-up, its admin's settings, pausing, upgrading and bridged
//! tokens.
use vstd::prelude::*;

use crate::errors::EscrowError;
use crate::ledger::{Env, Event, HostCall, Ledger};
use crate::storage::ContractStorage;
use crate::types::{
    copy_list, Address, BridgeConfirmation, BridgeConfirmationView, BridgeProtocol, Text,
    WrappedTokenInfo, WrappedTokenInfoView,
};

verus! {

/// The escrow contract. Each entry point takes the ledger as its first argument and is an
/// all-or-nothing request: a refused one leaves the ledger as it was, but for the
/// authorization that it demanded.
pub struct EscrowContract;

// ---------------------------------------------------------------------------
// The model
// ---------------------------------------------------------------------------

impl Ledger {
    /// The contract is set up.
    pub open spec fn initialize_done(self, admin: Address) -> Ledger {
        Ledger { admin: Some(admin), escrow_counter: Some(0), ..self }.calling(
            HostCall::InitStorageVersion,
        ).touching_instance()
    }

    /// The contract is paused or resumed by the admin, and nothing is announced where it was so
    /// already.
    pub open spec fn pause_done(self, caller: Address, paused: bool) -> Ledger {
        let read = self.demanding(caller).touching_instance();
        if self.is_paused() == paused {
            read
        } else {
            Ledger { paused: Some(paused), ..read }.publishing(
                if paused {
                    Event::ContractPaused { by: caller }
                } else {
                    Event::ContractUnpaused { by: caller }
                },
            )
        }
    }

    /// The contract's code is replaced, after its storage was migrated.
    pub open spec fn upgrade_done(self, caller: Address, hash: [u8; 32]) -> Ledger {
        self.demanding(caller).touching_instance().calling(HostCall::MigrateStorage).calling(
            HostCall::UpdateWasm { hash },
        )
    }

    /// A wrapped token is registered, or its registration replaced.
    pub open spec fn register_token_done(
        self,
        caller: Address,
        info: WrappedTokenInfoView,
    ) -> Ledger {
        let read = self.touching_instance().demanding(caller);
        Ledger {
            wrapped_tokens: read.wrapped_tokens.insert(info.stellar_address, info),
            ..read
        }.publishing(
            Event::WrappedTokenRegistered {
                token: info.stellar_address,
                origin_chain: info.origin_chain,
            },
        )
    }

    /// The confirmation state of a cross-chain transfer is recorded. The transfer is final with
    /// the required number of confirmations.
    pub open spec fn confirm_bridge_done(
        self,
        transfer_id: Seq<u8>,
        bridge: BridgeProtocol,
        confirmations: u32,
        required: u32,
    ) -> Ledger {
        let is_finalized = confirmations >= required;
        let read = self.touching_instance();
        Ledger {
            bridge_confirmations: read.bridge_confirmations.insert(
                transfer_id,
                BridgeConfirmationView {
                    transfer_id,
                    bridge,
                    confirmations,
                    is_finalized,
                    updated_at: self.now,
                },
            ),
            ..read
        }.publishing(
            Event::BridgeConfirmationUpdated { transfer_id, confirmations, is_finalized },
        )
    }
}

// ---------------------------------------------------------------------------
// The entry points
// ---------------------------------------------------------------------------

impl EscrowContract {
    /// Sets the contract up, once.
    pub fn initialize(env: &mut Env, admin: Address) -> (r: Result<(), EscrowError>)
        ensures
            old(env)@.admin is Some ==> r == Err::<(), _>(EscrowError::AlreadyInitialized)
                && final(env)@ == old(env)@,
            old(env)@.admin is None ==> r == Ok::<_, EscrowError>(()) && final(env)@
                == old(env)@.initialize_done(admin),
    {
        ContractStorage::initialize(env, &admin)
    }

    /// The admin sets the address of the price oracle.
    pub fn set_oracle(env: &mut Env, caller: Address, oracle: Address) -> (r: Result<
        (),
        EscrowError,
    >)
        ensures
            match old(env)@.admin_refusal(caller) {
                Some(e) => r == Err::<(), _>(e) && final(env)@ == old(env)@,
                None => r == Ok::<_, EscrowError>(()) && final(env)@ == (Ledger {
                    oracle: Some(oracle),
                    ..old(env)@
                }).demanding(caller).touching_instance(),
            },
    {
        ContractStorage::require_admin(env, &caller)?;
        env.require_auth(&caller);
        env.oracle = Some(oracle);
        env.touch_instance();
        Ok(())
    }

    /// The admin sets the address of the fallback oracle.
    pub fn set_fallback_oracle(env: &mut Env, caller: Address, oracle: Address) -> (r: Result<
        (),
        EscrowError,
    >)
        ensures
            match old(env)@.admin_refusal(caller) {
                Some(e) => r == Err::<(), _>(e) && final(env)@ == old(env)@,
                None => r == Ok::<_, EscrowError>(()) && final(env)@ == (Ledger {
                    fallback_oracle: Some(oracle),
                    ..old(env)@
                }).demanding(caller).touching_instance(),
            },
    {
        ContractStorage::require_admin(env, &caller)?;
        env.require_auth(&caller);
        env.fallback_oracle = Some(oracle);
        env.touch_instance();
        Ok(())
    }

    /// The price of an asset. `quote` is what the configured oracle answered for it.
    pub fn get_price(env: &mut Env, quote: Result<i128, EscrowError>) -> (r: Result<
        i128,
        EscrowError,
    >)
        ensures
            match old(env)@.uninitialized_refusal() {
                Some(e) => r == Err::<i128, _>(e) && final(env)@ == old(env)@,
                None => r == quote && final(env)@ == (if quote is Ok {
                    old(env)@.touching_instance()
                } else {
                    old(env)@
                }),
            },
    {
        ContractStorage::require_initialized(env)?;
        if quote.is_ok() {
            env.touch_instance();
        }
        quote
    }

    /// An amount of one asset in units of another. `conversion` is what the configured oracle's
    /// prices make of it.
    pub fn convert_amount(env: &mut Env, conversion: Result<i128, EscrowError>) -> (r: Result<
        i128,
        EscrowError,
    >)
        ensures
            match old(env)@.uninitialized_refusal() {
                Some(e) => r == Err::<i128, _>(e) && final(env)@ == old(env)@,
                None => r == conversion && final(env)@ == (if conversion is Ok {
                    old(env)@.touching_instance()
                } else {
                    old(env)@
                }),
            },
    {
        ContractStorage::require_initialized(env)?;
        if conversion.is_ok() {
            env.touch_instance();
        }
        conversion
    }

    /// The admin sets the address of the token bridge.
    pub fn set_wormhole_bridge(env: &mut Env, caller: Address, bridge_addr: Address) -> (r: Result<
        (),
        EscrowError,
    >)
        ensures
            match old(env)@.admin_refusal(caller) {
                Some(e) => r == Err::<(), _>(e) && final(env)@ == old(env)@,
                None => r == Ok::<_, EscrowError>(()) && final(env)@ == (Ledger {
                    wormhole_bridge: Some(bridge_addr),
                    ..old(env)@
                }).demanding(caller).touching_instance(),
            },
    {
        ContractStorage::require_admin(env, &caller)?;
        env.require_auth(&caller);
        env.wormhole_bridge = Some(bridge_addr);
        env.touch_instance();
        Ok(())
    }

    /// The admin registers a wrapped token. Only an approved one can be used in escrows.
    pub fn register_wrapped_token(env: &mut Env, caller: Address, info: WrappedTokenInfo) -> (r:
        Result<(), EscrowError>)
        ensures
            match old(env)@.admin_refusal(caller) {
                Some(e) => r == Err::<(), _>(e) && final(env)@ == old(env)@,
                None => r == Ok::<_, EscrowError>(()) && final(env)@
                    == old(env)@.register_token_done(caller, info@),
            },
    {
        ContractStorage::require_admin(env, &caller)?;
        env.touch_instance();
        env.require_auth(&caller);
        let token: Address = info.stellar_address;
        let origin_chain: Text = copy_list(&info.origin_chain);
        env.wrapped_tokens.set(token, info);
        env.publish(Event::WrappedTokenRegistered { token, origin_chain });
        Ok(())
    }

    /// The metadata of a wrapped token, if it is registered.
    pub fn get_wrapped_token_info(env: &Env, token: Address) -> (r: Option<WrappedTokenInfo>)
        ensures
            env@.wrapped_tokens.contains_key(token) ==> r is Some && r->0@
                == env@.wrapped_tokens[token],
            !env@.wrapped_tokens.contains_key(token) ==> r is None,
    {
        match env.wrapped_tokens.get(&token) {
            Some(info) => Some(info.copied()),
            None => None,
        }
    }

    /// Records the confirmation state of a cross-chain transfer, which is final with
    /// `min_confirmations` of them. Anyone may call this.
    pub fn update_bridge_confirmation(
        env: &mut Env,
        transfer_id: Text,
        bridge_protocol: BridgeProtocol,
        confirmations: u32,
        min_confirmations: u32,
    ) -> (r: Result<(), EscrowError>)
        ensures
            match old(env)@.uninitialized_refusal() {
                Some(e) => r == Err::<(), _>(e) && final(env)@ == old(env)@,
                None => r == Ok::<_, EscrowError>(()) && final(env)@
                    == old(env)@.confirm_bridge_done(
                    transfer_id@,
                    bridge_protocol,
                    confirmations,
                    min_confirmations,
                ),
            },
    {
        ContractStorage::require_initialized(env)?;
        env.touch_instance();
        let is_finalized: bool = confirmations >= min_confirmations;
        let updated_at: u64 = env.timestamp;
        env.bridge_confirmations.set(
            copy_list(&transfer_id),
            BridgeConfirmation {
                transfer_id: copy_list(&transfer_id),
                bridge: bridge_protocol,
                confirmations,
                is_finalized,
                updated_at,
            },
        );
        env.publish(Event::BridgeConfirmationUpdated { transfer_id, confirmations, is_finalized });
        Ok(())
    }

    /// The confirmation state of a cross-chain transfer, if it is recorded.
    pub fn get_bridge_confirmation(env: &Env, transfer_id: Text) -> (r: Option<BridgeConfirmation>)
        ensures
            env@.bridge_confirmations.contains_key(transfer_id@) ==> r is Some && r->0@
                == env@.bridge_confirmations[transfer_id@],
            !env@.bridge_confirmations.contains_key(transfer_id@) ==> r is None,
    {
        match env.bridge_confirmations.get(&transfer_id) {
            Some(confirmation) => Some(confirmation.copied()),
            None => None,
        }
    }

    /// The admin sets the public key of the oracle that may resolve stalled disputes.
    pub fn set_trusted_oracle_key(env: &mut Env, caller: Address, pubkey: [u8; 32]) -> (r: Result<
        (),
        EscrowError,
    >)
        ensures
            match old(env)@.admin_refusal(caller) {
                Some(e) => r == Err::<(), _>(e) && final(env)@ == old(env)@,
                None => r == Ok::<_, EscrowError>(()) && final(env)@ == (Ledger {
                    trusted_oracle_key: Some(pubkey),
                    ..old(env)@
                }).demanding(caller).touching_instance(),
            },
    {
        ContractStorage::require_admin(env, &caller)?;
        env.require_auth(&caller);
        env.trusted_oracle_key = Some(pubkey);
        env.touch_instance();
        Ok(())
    }

    /// The admin replaces the contract's code, after a migration of its storage.
    pub fn upgrade(env: &mut Env, caller: Address, new_wasm_hash: [u8; 32]) -> (r: Result<
        (),
        EscrowError,
    >)
        ensures
            match old(env)@.admin_refusal(caller) {
                Some(e) => r == Err::<(), _>(e) && final(env)@ == old(env)@.demanding(caller),
                None => r == Ok::<_, EscrowError>(()) && final(env)@
                    == old(env)@.upgrade_done(caller, new_wasm_hash),
            },
    {
        env.require_auth(&caller);
        ContractStorage::require_admin(env, &caller)?;
        env.touch_instance();
        env.call(HostCall::MigrateStorage);
        env.call(HostCall::UpdateWasm { hash: new_wasm_hash });
        Ok(())
    }

    /// The admin pauses the contract.
    pub fn pause(env: &mut Env, caller: Address) -> (r: Result<(), EscrowError>)
        ensures
            match old(env)@.admin_refusal(caller) {
                Some(e) => r == Err::<(), _>(e) && final(env)@ == old(env)@.demanding(caller),
                None => r == Ok::<_, EscrowError>(()) && final(env)@ == old(env)@.pause_done(
                    caller,
                    true,
                ),
            },
    {
        env.require_auth(&caller);
        ContractStorage::require_admin(env, &caller)?;
        env.touch_instance();
        if ContractStorage::is_paused(env) {
            return Ok(());
        }
        ContractStorage::set_paused(env, true);
        env.publish(Event::ContractPaused { by: caller });
        Ok(())
    }

    /// The admin resumes the contract.
    pub fn unpause(env: &mut Env, caller: Address) -> (r: Result<(), EscrowError>)
        ensures
            match old(env)@.admin_refusal(caller) {
                Some(e) => r == Err::<(), _>(e) && final(env)@ == old(env)@.demanding(caller),
                None => r == Ok::<_, EscrowError>(()) && final(env)@ == old(env)@.pause_done(
                    caller,
                    false,
                ),
            },
    {
        env.require_auth(&caller);
        ContractStorage::require_admin(env, &caller)?;
        env.touch_instance();
        if !ContractStorage::is_paused(env) {
            return Ok(());
        }
        ContractStorage::set_paused(env, false);
        env.publish(Event::ContractUnpaused { by: caller });
        Ok(())
    }

    /// Whether the contract is paused.
    pub fn is_paused(env: &Env) -> (r: bool)
        ensures
            r == env@.is_paused(),
    {
        ContractStorage::is_paused(env)
    }
}

} // verus!
