use std::collections::BTreeMap;

use erc20_vault::flow::{
    Action, BuildEvmTx, ExistenceRequirement, Reply, SerializationFormat, Settlement, SignLimits,
    SignRespond, Step, Transfer,
};
use erc20_vault::types::{AffinePoint, CallError, RawOrigin, Signature};
use erc20_vault::{Config, DispatchResult, Error, Event, EvmTx, Pallet, PendingData};
use frame_support::traits::ConstU32;
use frame_support::BoundedVec;
use secp256k1::{Message, PublicKey, Secp256k1, SecretKey};
use sp_io::hashing::keccak_256;
use sp_runtime::{DispatchError, TokenError};

#[derive(Debug, PartialEq)]
struct Test;

impl Config for Test {
    type AccountId = u64;
    type Balance = u128;
}

const GAS_TOPUP_PALLET_ID: [u8; 8] = *b"py/gastp";
const SIGNET_ACCOUNT: u64 = u64::MAX;

const LIMITS: SignLimits = SignLimits {
    path: 256,
    algo: 32,
    dest: 64,
    params: 1024,
    explorer_deserialization_schema: 4096,
    callback_serialization_schema: 4096,
};

/// A runtime around the vault: balances, a signing service and a transaction
/// builder. A failed call leaves no trace in it.
struct Runtime {
    vault: Pallet<Test>,
    balances: BTreeMap<u64, u128>,
    signature_deposit: u128,
    built: Vec<BuildEvmTx<u64>>,
    signed: Vec<SignRespond<u64>>,
    refuse_signing: bool,
}

fn new_runtime() -> Runtime {
    new_runtime_with(LIMITS)
}

fn new_runtime_with(limits: SignLimits) -> Runtime {
    Runtime {
        vault: Pallet::new(GAS_TOPUP_PALLET_ID, limits),
        balances: BTreeMap::new(),
        signature_deposit: 0,
        built: Vec::new(),
        signed: Vec::new(),
        refuse_signing: false,
    }
}

impl Runtime {
    fn deposit_creating(&mut self, who: u64, amount: u128) {
        *self.balances.entry(who).or_insert(0) += amount;
    }

    fn free_balance(&self, who: u64) -> u128 {
        self.balances.get(&who).copied().unwrap_or(0)
    }

    fn initialize_signet(&mut self, signature_deposit: u128) {
        self.signature_deposit = signature_deposit;
    }

    fn transfer(&mut self, from: u64, to: u64, amount: u128) -> Result<(), DispatchError> {
        let left = self
            .free_balance(from)
            .checked_sub(amount)
            .ok_or(DispatchError::Token(TokenError::FundsUnavailable))?;
        self.balances.insert(from, left);
        *self.balances.entry(to).or_insert(0) += amount;
        Ok(())
    }

    fn perform_transfer(&mut self, transfer: Transfer<u64, u128>) -> Result<(), DispatchError> {
        assert_eq!(transfer.existence, ExistenceRequirement::AllowDeath);
        self.transfer(transfer.from, transfer.to, transfer.amount)
    }

    fn perform(&mut self, action: Action<u64, u128>) -> Reply {
        match action {
            Action::Transfer(transfer) => self.perform_transfer(transfer).map(|_| Vec::new()),
            Action::BuildEvmTx(build) => {
                let mut bytes = build.to.unwrap().to_vec();
                bytes.extend_from_slice(&build.data);
                bytes.extend_from_slice(&build.nonce.to_be_bytes());
                bytes.extend_from_slice(&build.chain_id.to_be_bytes());
                self.built.push(build);
                Ok(bytes)
            }
            Action::SignRespond(order) => {
                if self.refuse_signing {
                    return Err(DispatchError::Unavailable);
                }
                match order.origin {
                    RawOrigin::Signed(who) => {
                        self.transfer(who, SIGNET_ACCOUNT, self.signature_deposit)?
                    }
                    _ => return Err(DispatchError::BadOrigin),
                }
                self.signed.push(order);
                Ok(Vec::new())
            }
        }
    }

    fn request_fund(
        &mut self,
        origin: RawOrigin<u64>,
        to: [u8; 20],
        amount_wei: u128,
        pay_amount: u128,
        faucet: [u8; 20],
        tx: EvmTx,
    ) -> DispatchResult {
        let before = self.balances.clone();
        let mut step = self.vault.request_fund(
            origin,
            to,
            amount_wei,
            pay_amount,
            faucet,
            tx,
            self.signature_deposit,
        );
        loop {
            match step {
                Step::Perform { request, action } => {
                    let reply = self.perform(action);
                    step = self.vault.resume_fund(request, reply);
                }
                Step::Finished(result) => {
                    if result.is_err() {
                        self.balances = before;
                    }
                    return result;
                }
            }
        }
    }

    fn respond_fund(
        &mut self,
        origin: RawOrigin<u64>,
        request_id: [u8; 32],
        output: BoundedVec<u8, ConstU32<65536>>,
        signature: Signature,
    ) -> DispatchResult {
        match self.vault.respond_fund(origin, request_id, output, signature)? {
            Settlement::Kept => Ok(()),
            Settlement::Refund { refund, transfer } => {
                let reply = self.perform_transfer(transfer);
                self.vault.finish_refund(refund, reply)
            }
        }
    }

    /// What a call that fails must leave as it is.
    fn trace(&self) -> (Option<[u8; 20]>, usize, BTreeMap<u64, u128>, usize) {
        (
            self.vault.config_data(),
            self.vault.events().len(),
            self.balances.clone(),
            self.signed.len(),
        )
    }
}

fn refused(error: Error) -> DispatchResult {
    Err(CallError::Vault(error))
}

fn evm_tx() -> EvmTx {
    EvmTx {
        value: 0,
        gas_limit: 100_000,
        max_fee_per_gas: 30_000_000_000,
        max_priority_fee_per_gas: 1_000_000_000,
        nonce: 0,
        chain_id: 11155111,
    }
}

fn test_sk() -> SecretKey {
    SecretKey::from_slice(&[42u8; 32]).unwrap()
}

fn test_pk() -> PublicKey {
    PublicKey::from_secret_key(&Secp256k1::new(), &test_sk())
}

fn pk_to_addr(pk: &PublicKey) -> [u8; 20] {
    let u = pk.serialize_uncompressed();
    let h = keccak_256(&u[1..]);
    let mut a = [0u8; 20];
    a.copy_from_slice(&h[12..]);
    a
}

fn sign_hash32(h: [u8; 32]) -> Signature {
    let secp = Secp256k1::new();
    let sig = secp.sign_ecdsa_recoverable(&Message::from_digest_slice(&h).unwrap(), &test_sk());
    let (rid, bytes) = sig.serialize_compact();
    let mut r = [0u8; 32];
    r.copy_from_slice(&bytes[..32]);
    let mut s = [0u8; 32];
    s.copy_from_slice(&bytes[32..]);
    Signature {
        big_r: AffinePoint { x: r, y: [0u8; 32] },
        s,
        recovery_id: rid.to_i32() as u8,
    }
}

fn get_last_request_id_from_events(runtime: &Runtime) -> [u8; 32] {
    let mut id = [0u8; 32];
    for e in runtime.vault.events().iter().rev() {
        if let Event::FundRequested { request_id, .. } = e {
            id = *request_id;
            break;
        }
    }
    id
}

fn hash_msg(req_id: [u8; 32], out: &[u8]) -> [u8; 32] {
    let mut v = Vec::with_capacity(32 + out.len());
    v.extend_from_slice(&req_id);
    v.extend_from_slice(out);
    keccak_256(&v)
}

/// A runtime with a funded user, an initialised vault and one pending request.
fn with_pending_request(pay_amount: u128) -> (Runtime, u64, [u8; 32]) {
    let user = 2u64;
    let mut runtime = new_runtime();
    runtime.deposit_creating(user, 2_000_000);
    runtime.initialize_signet(100);
    let mpc = pk_to_addr(&test_pk());
    assert_eq!(runtime.vault.initialize(RawOrigin::Signed(1), mpc), Ok(()));
    assert_eq!(
        runtime.request_fund(
            RawOrigin::Signed(user),
            [5u8; 20],
            1_000_000_000_000_000,
            pay_amount,
            [7u8; 20],
            evm_tx(),
        ),
        Ok(())
    );
    let id = get_last_request_id_from_events(&runtime);
    (runtime, user, id)
}

#[test]
fn initialize_works() {
    let mut runtime = new_runtime();
    let mpc = [1u8; 20];
    assert_eq!(runtime.vault.initialize(RawOrigin::Signed(1), mpc), Ok(()));
    assert_eq!(runtime.vault.config_data(), Some(mpc));
    assert_eq!(runtime.vault.events().last(), Some(&Event::Initialized { mpc }));
}

#[test]
fn initialize_twice_fails() {
    let mut runtime = new_runtime();
    let mpc = [2u8; 20];
    assert_eq!(runtime.vault.initialize(RawOrigin::Signed(1), mpc), Ok(()));
    let before = runtime.trace();
    assert_eq!(
        runtime.vault.initialize(RawOrigin::Signed(2), [3u8; 20]),
        refused(Error::AlreadyInitialized)
    );
    assert_eq!(runtime.trace(), before);
    assert_eq!(runtime.vault.config_data(), Some(mpc));
}

#[test]
fn request_fund_fails_when_not_initialized() {
    let mut runtime = new_runtime();
    let requester = 10u64;
    runtime.deposit_creating(requester, 1_000_000);
    let before = runtime.trace();
    assert_eq!(
        runtime.request_fund(
            RawOrigin::Signed(requester),
            [5u8; 20],
            1_000_000_000_000_000u128,
            500u128,
            [7u8; 20],
            evm_tx(),
        ),
        refused(Error::NotInitialized)
    );
    assert_eq!(runtime.trace(), before);
}

#[test]
fn request_fund_emits_event_stores_pending_and_deducts_balances() {
    let mut runtime = new_runtime();
    let admin = 1u64;
    let requester = 2u64;
    let mpc = [9u8; 20];
    let to = [5u8; 20];
    let faucet = [7u8; 20];
    let amount_wei = 1_000_000_000_000_000u128;
    let pay_amount: u128 = 1_234;

    runtime.deposit_creating(requester, 2_000_000);
    runtime.initialize_signet(100);

    assert_eq!(runtime.vault.initialize(RawOrigin::Signed(admin), mpc), Ok(()));

    let pallet_acc = runtime.vault.account_id();
    let bal_req_before = runtime.free_balance(requester);
    let bal_pal_before = runtime.free_balance(pallet_acc);
    let sig_deposit = runtime.signature_deposit;

    assert_eq!(
        runtime.request_fund(
            RawOrigin::Signed(requester),
            to,
            amount_wei,
            pay_amount,
            faucet,
            evm_tx(),
        ),
        Ok(())
    );

    let mut req_id_opt: Option<[u8; 32]> = None;
    for e in runtime.vault.events().iter() {
        if let Event::FundRequested { request_id, requester: who, to: t, amount_wei: a, pay_amount: p } =
            e
        {
            assert_eq!(*who, requester);
            assert_eq!(*t, to);
            assert_eq!(*a, amount_wei);
            assert_eq!(*p, pay_amount);
            req_id_opt = Some(*request_id);
        }
    }
    let request_id = req_id_opt.expect("FundRequested not found");

    let pending = runtime.vault.pending(&request_id).expect("pending missing");
    assert_eq!(pending.requester, requester);
    assert_eq!(pending.to, to);
    assert_eq!(pending.amount_wei, amount_wei);
    assert_eq!(pending.pay_amount, pay_amount);

    assert_eq!(runtime.signed.len(), 1);

    let bal_req_after = runtime.free_balance(requester);
    let bal_pal_after = runtime.free_balance(pallet_acc);
    println!("{}", sig_deposit);
    assert_eq!(bal_req_before - bal_req_after, sig_deposit + pay_amount);
    assert_eq!(bal_pal_after - bal_pal_before, pay_amount);
}

#[test]
fn request_fund_duplicate_request_id_fails() {
    let mut runtime = new_runtime();
    let admin = 1u64;
    let requester = 2u64;
    let mpc = [9u8; 20];
    let to = [5u8; 20];
    let faucet = [7u8; 20];
    let amount_wei = 1_000_000_000_000_000u128;
    let pay_amount: u128 = 777;

    runtime.deposit_creating(requester, 2_000_000);
    runtime.initialize_signet(100);
    assert_eq!(runtime.vault.initialize(RawOrigin::Signed(admin), mpc), Ok(()));

    let tx = evm_tx();

    assert_eq!(
        runtime.request_fund(
            RawOrigin::Signed(requester),
            to,
            amount_wei,
            pay_amount,
            faucet,
            tx.clone(),
        ),
        Ok(())
    );

    let before = runtime.trace();
    assert_eq!(
        runtime.request_fund(RawOrigin::Signed(requester), to, amount_wei, pay_amount, faucet, tx),
        refused(Error::DuplicateRequest)
    );
    assert_eq!(runtime.trace(), before);
    let id = get_last_request_id_from_events(&runtime);
    assert!(runtime.vault.pending(&id).is_some());
}

#[test]
fn respond_fund_succeeds_and_keeps_funds_on_true() {
    let mut runtime = new_runtime();
    let admin = 1u64;
    let user = 2u64;
    let mpc = pk_to_addr(&test_pk());
    let pay_amount: u128 = 555;

    runtime.deposit_creating(user, 2_000_000);
    runtime.initialize_signet(100);
    assert_eq!(runtime.vault.initialize(RawOrigin::Signed(admin), mpc), Ok(()));

    let sig_deposit = runtime.signature_deposit;

    let bal_user_before = runtime.free_balance(user);
    assert_eq!(
        runtime.request_fund(
            RawOrigin::Signed(user),
            [5u8; 20],
            1_000_000_000_000_000,
            pay_amount,
            [7u8; 20],
            evm_tx(),
        ),
        Ok(())
    );
    let req_id = get_last_request_id_from_events(&runtime);

    let out = vec![1u8];
    let sig = sign_hash32(hash_msg(req_id, &out));
    assert_eq!(
        runtime.respond_fund(
            RawOrigin::Signed(user),
            req_id,
            BoundedVec::try_from(out).unwrap(),
            sig
        ),
        Ok(())
    );

    assert!(runtime.vault.pending(&req_id).is_none());
    assert!(runtime.vault.events().contains(&Event::FundSucceeded { request_id: req_id }));
    let bal_user_after = runtime.free_balance(user);
    println!("{} {}", sig_deposit, pay_amount);
    assert_eq!(bal_user_before - bal_user_after, sig_deposit + pay_amount);
}

#[test]
fn respond_fund_refunds_on_false() {
    let mut runtime = new_runtime();
    let admin = 1u64;
    let user = 2u64;
    let mpc = pk_to_addr(&test_pk());
    let pay_amount: u128 = 777;

    runtime.deposit_creating(user, 2_000_000);
    runtime.initialize_signet(100);
    assert_eq!(runtime.vault.initialize(RawOrigin::Signed(admin), mpc), Ok(()));

    assert_eq!(
        runtime.request_fund(
            RawOrigin::Signed(user),
            [5u8; 20],
            2_000_000_000_000_000,
            pay_amount,
            [7u8; 20],
            evm_tx(),
        ),
        Ok(())
    );
    let req_id = get_last_request_id_from_events(&runtime);

    let bal_user_mid = runtime.free_balance(user);
    let out = vec![0u8];
    let sig = sign_hash32(hash_msg(req_id, &out));
    assert_eq!(
        runtime.respond_fund(
            RawOrigin::Signed(user),
            req_id,
            BoundedVec::try_from(out).unwrap(),
            sig
        ),
        Ok(())
    );

    assert!(runtime
        .vault
        .events()
        .contains(&Event::FundFailed { request_id: req_id, refunded: pay_amount }));
    let bal_user_after = runtime.free_balance(user);
    assert_eq!(bal_user_after, bal_user_mid + pay_amount);
    assert!(runtime.vault.pending(&req_id).is_none());
}

#[test]
fn respond_fund_invalid_signature_fails() {
    let mut runtime = new_runtime();
    let admin = 1u64;
    let user = 2u64;
    let mpc = pk_to_addr(&test_pk());
    let pay_amount: u128 = 111;

    runtime.deposit_creating(user, 2_000_000);
    runtime.initialize_signet(100);
    assert_eq!(runtime.vault.initialize(RawOrigin::Signed(admin), mpc), Ok(()));

    assert_eq!(
        runtime.request_fund(
            RawOrigin::Signed(user),
            [9u8; 20],
            3_000_000_000_000_000,
            pay_amount,
            [7u8; 20],
            evm_tx(),
        ),
        Ok(())
    );
    let req_id = get_last_request_id_from_events(&runtime);

    let out = vec![1u8];
    let wrong_hash = hash_msg([3u8; 32], &out);
    let sig = sign_hash32(wrong_hash);

    let before = runtime.trace();
    assert_eq!(
        runtime.respond_fund(
            RawOrigin::Signed(user),
            req_id,
            BoundedVec::try_from(out).unwrap(),
            sig
        ),
        refused(Error::InvalidSigner)
    );
    assert_eq!(runtime.trace(), before);
    assert!(runtime.vault.pending(&req_id).is_some());
}

#[test]
fn respond_fund_not_found_fails() {
    let mut runtime = new_runtime();
    let admin = 1u64;
    let user = 2u64;
    let mpc = pk_to_addr(&test_pk());
    runtime.initialize_signet(100);
    assert_eq!(runtime.vault.initialize(RawOrigin::Signed(admin), mpc), Ok(()));

    let out = vec![1u8];
    let sig = sign_hash32(hash_msg([9u8; 32], &out));

    let before = runtime.trace();
    assert_eq!(
        runtime.respond_fund(
            RawOrigin::Signed(user),
            [9u8; 32],
            BoundedVec::try_from(out).unwrap(),
            sig
        ),
        refused(Error::NotFound)
    );
    assert_eq!(runtime.trace(), before);
}

#[test]
fn unsigned_calls_are_refused() {
    let (mut runtime, _, id) = with_pending_request(5);
    let sig = sign_hash32(hash_msg(id, &[1]));
    let output = || BoundedVec::try_from(vec![1u8]).unwrap();
    let before = runtime.trace();
    assert_eq!(
        runtime.vault.initialize(RawOrigin::Unsigned, [1; 20]),
        Err(CallError::BadOrigin)
    );
    assert_eq!(
        runtime.request_fund(RawOrigin::Root, [1; 20], 1, 1, [1; 20], evm_tx()),
        Err(CallError::BadOrigin)
    );
    assert_eq!(
        runtime.respond_fund(RawOrigin::Root, id, output(), sig),
        Err(CallError::BadOrigin)
    );
    assert_eq!(runtime.trace(), before);
    assert!(runtime.vault.pending(&id).is_some());
}

#[test]
fn request_without_funds_changes_nothing() {
    let mut runtime = new_runtime();
    runtime.initialize_signet(100);
    assert_eq!(runtime.vault.initialize(RawOrigin::Signed(1), [9; 20]), Ok(()));
    let unavailable =
        Err(CallError::Runtime(DispatchError::Token(TokenError::FundsUnavailable)));

    // Too poor for the deposit.
    runtime.deposit_creating(2, 99);
    let before = runtime.trace();
    assert_eq!(
        runtime.request_fund(RawOrigin::Signed(2), [5; 20], 1, 10, [7; 20], evm_tx()),
        unavailable
    );
    assert_eq!(runtime.trace(), before);

    // Too poor for the payment.
    runtime.deposit_creating(2, 10);
    let before = runtime.trace();
    assert_eq!(
        runtime.request_fund(RawOrigin::Signed(2), [5; 20], 1, 10, [7; 20], evm_tx()),
        unavailable
    );
    assert_eq!(runtime.trace(), before);

    // Just rich enough.
    runtime.deposit_creating(2, 1);
    assert_eq!(
        runtime.request_fund(RawOrigin::Signed(2), [5; 20], 1, 10, [7; 20], evm_tx()),
        Ok(())
    );
    assert_eq!(runtime.free_balance(2), 0);
}

#[test]
fn request_that_the_service_refuses_is_taken_back() {
    let (mut runtime, user, first) = with_pending_request(5);
    runtime.refuse_signing = true;
    let before = runtime.trace();
    let tx = EvmTx { nonce: 1, ..evm_tx() };
    assert_eq!(
        runtime.request_fund(RawOrigin::Signed(user), [5; 20], 1, 10, [7; 20], tx),
        Err(CallError::Runtime(DispatchError::Unavailable))
    );
    assert_eq!(runtime.trace(), before);
    assert!(runtime.vault.pending(&first).is_some());

    // The same request can be made once the service is back.
    runtime.refuse_signing = false;
    assert_eq!(
        runtime.request_fund(RawOrigin::Signed(user), [5; 20], 1, 10, [7; 20], tx),
        Ok(())
    );
    let second = get_last_request_id_from_events(&runtime);
    assert_ne!(first, second);
    assert!(runtime.vault.pending(&first).is_some());
    assert!(runtime.vault.pending(&second).is_some());
}

#[test]
fn request_hands_the_faucet_call_to_the_service() {
    let (runtime, user, id) = with_pending_request(5);

    assert_eq!(runtime.built.len(), 2);
    let draft = &runtime.built[0];
    let last = &runtime.built[1];
    assert_eq!(draft.origin, RawOrigin::Signed(user));
    assert_eq!(draft.to, Some([7u8; 20]));
    assert_eq!(draft.value, 0);
    assert_eq!(draft.nonce, 0);
    assert_eq!(draft.gas_limit, 100_000);
    assert_eq!(draft.max_fee_per_gas, 30_000_000_000);
    assert_eq!(draft.max_priority_fee_per_gas, 1_000_000_000);
    assert_eq!(draft.access_list, vec![]);
    assert_eq!(draft.chain_id, 11155111);
    assert_eq!(draft.data[68..], [0u8; 32]);
    assert_eq!(last.data[68..], id);
    assert_eq!(draft.data[..68], last.data[..68]);

    let order = &runtime.signed[0];
    assert_eq!(order.origin, RawOrigin::Signed(runtime.vault.account_id()));
    assert_eq!(order.serialized_transaction[20..120], last.data[..]);
    assert_eq!(order.slip44_chain_id, 60);
    assert_eq!(order.key_version, 0);
    assert_eq!(order.path, user.to_le_bytes().to_vec());
    assert_eq!(order.algo, b"ecdsa".to_vec());
    assert_eq!(order.dest, b"ethereum".to_vec());
    assert_eq!(order.params, Vec::<u8>::new());
    assert_eq!(order.explorer_deserialization_format, SerializationFormat::AbiJson);
    assert_eq!(order.explorer_deserialization_schema, Vec::<u8>::new());
    assert_eq!(order.callback_serialization_format, SerializationFormat::Borsh);
    assert_eq!(order.callback_serialization_schema, b"\"bool\"".to_vec());
}

#[test]
fn order_beyond_the_limits_is_refused() {
    let short = |limits: SignLimits| {
        let mut runtime = new_runtime_with(limits);
        runtime.deposit_creating(2, 1_000);
        assert_eq!(runtime.vault.initialize(RawOrigin::Signed(1), [9; 20]), Ok(()));
        let before = runtime.trace();
        let result = runtime.request_fund(RawOrigin::Signed(2), [5; 20], 1, 10, [7; 20], evm_tx());
        if result.is_err() {
            assert_eq!(runtime.trace(), before);
        }
        result
    };
    assert_eq!(short(SignLimits { path: 7, ..LIMITS }), refused(Error::Serialization));
    assert_eq!(short(SignLimits { path: 8, ..LIMITS }), Ok(()));
    assert_eq!(short(SignLimits { algo: 4, ..LIMITS }), refused(Error::Serialization));
    assert_eq!(short(SignLimits { algo: 5, ..LIMITS }), Ok(()));
    assert_eq!(short(SignLimits { dest: 7, ..LIMITS }), refused(Error::Serialization));
    assert_eq!(short(SignLimits { dest: 8, ..LIMITS }), Ok(()));
    assert_eq!(
        short(SignLimits { callback_serialization_schema: 5, ..LIMITS }),
        refused(Error::Serialization)
    );
    assert_eq!(short(SignLimits { callback_serialization_schema: 6, ..LIMITS }), Ok(()));
    assert_eq!(
        short(SignLimits { params: 0, explorer_deserialization_schema: 0, ..LIMITS }),
        Ok(())
    );
}

#[test]
fn transaction_beyond_the_bound_is_refused() {
    let record = |length: usize| {
        let mut runtime = new_runtime();
        let step = runtime.vault.record(
            erc20_vault::flow::FundRequest {
                requester: 2,
                to: [5; 20],
                amount_wei: 1,
                pay_amount: 10,
                faucet: [7; 20],
                tx: evm_tx(),
                stage: erc20_vault::flow::Stage::BuildingFinal { request_id: [4; 32] },
            },
            [4; 32],
            vec![0u8; length],
        );
        (step, runtime.vault.pending(&[4; 32]).is_some())
    };
    let (step, pending) = record(65536);
    assert!(matches!(step, Step::Perform { .. }));
    assert!(pending);
    let (step, pending) = record(65537);
    assert_eq!(step, Step::Finished(refused(Error::Serialization)));
    assert!(!pending);
}

#[test]
fn request_is_settled_once() {
    for outcome in [0u8, 1u8] {
        let (mut runtime, user, id) = with_pending_request(5);
        let sig = sign_hash32(hash_msg(id, &[outcome]));
        let output = || BoundedVec::try_from(vec![outcome]).unwrap();
        assert_eq!(runtime.respond_fund(RawOrigin::Signed(user), id, output(), sig), Ok(()));
        let before = runtime.trace();
        assert_eq!(
            runtime.respond_fund(RawOrigin::Signed(user), id, output(), sig),
            refused(Error::NotFound)
        );
        assert_eq!(runtime.trace(), before);
    }
}

#[test]
fn refund_costs_the_requester_the_deposit_only() {
    let (mut runtime, user, id) = with_pending_request(777);
    assert_eq!(runtime.free_balance(user), 2_000_000 - 100 - 777);
    let sig = sign_hash32(hash_msg(id, &[0]));
    // Anyone may bring the response.
    assert_eq!(
        runtime.respond_fund(
            RawOrigin::Signed(77),
            id,
            BoundedVec::try_from(vec![0u8]).unwrap(),
            sig
        ),
        Ok(())
    );
    assert_eq!(runtime.free_balance(user), 2_000_000 - 100);
    assert_eq!(runtime.free_balance(runtime.vault.account_id()), 0);
    assert_eq!(runtime.free_balance(77), 0);
}

#[test]
fn refund_that_cannot_be_paid_leaves_the_request_pending() {
    let (mut runtime, user, id) = with_pending_request(777);
    let vault = runtime.vault.account_id();
    runtime.balances.insert(vault, 776);
    let before = runtime.trace();
    let sig = sign_hash32(hash_msg(id, &[0]));
    assert_eq!(
        runtime.respond_fund(
            RawOrigin::Signed(user),
            id,
            BoundedVec::try_from(vec![0u8]).unwrap(),
            sig
        ),
        Err(CallError::Runtime(DispatchError::Token(TokenError::FundsUnavailable)))
    );
    assert_eq!(runtime.trace(), before);
    assert_eq!(
        runtime.vault.pending(&id),
        Some(&PendingData {
            requester: user,
            pay_amount: 777,
            to: [5u8; 20],
            amount_wei: 1_000_000_000_000_000
        })
    );
}

#[test]
fn output_that_is_no_bool_is_refused() {
    let (mut runtime, user, id) = with_pending_request(5);
    let before = runtime.trace();
    for output in [vec![], vec![2u8], vec![1u8, 0u8]] {
        let sig = sign_hash32(hash_msg(id, &output));
        assert_eq!(
            runtime.respond_fund(
                RawOrigin::Signed(user),
                id,
                BoundedVec::try_from(output).unwrap(),
                sig
            ),
            refused(Error::InvalidOutput)
        );
        assert_eq!(runtime.trace(), before);
        assert!(runtime.vault.pending(&id).is_some());
    }
}

#[test]
fn signature_that_recovers_to_nothing_is_refused() {
    let (mut runtime, user, id) = with_pending_request(5);
    let good = sign_hash32(hash_msg(id, &[1]));
    let output = || BoundedVec::try_from(vec![1u8]).unwrap();
    let before = runtime.trace();
    // A recovery id out of range.
    assert_eq!(
        runtime.respond_fund(
            RawOrigin::Signed(user),
            id,
            output(),
            Signature { recovery_id: 4, ..good }
        ),
        refused(Error::InvalidSignature)
    );
    assert_eq!(
        runtime.respond_fund(
            RawOrigin::Signed(user),
            id,
            output(),
            Signature { recovery_id: good.recovery_id + 27, ..good }
        ),
        refused(Error::InvalidSignature)
    );
    // No point of the curve.
    assert_eq!(
        runtime.respond_fund(
            RawOrigin::Signed(user),
            id,
            output(),
            Signature { s: [0xff; 32], ..good }
        ),
        refused(Error::InvalidSignature)
    );
    assert_eq!(runtime.trace(), before);
    // The second coordinate does not count.
    let odd = Signature { big_r: AffinePoint { x: good.big_r.x, y: [0xaa; 32] }, ..good };
    assert_eq!(runtime.respond_fund(RawOrigin::Signed(user), id, output(), odd), Ok(()));
}

#[test]
fn response_before_initialisation_is_refused() {
    let data = PendingData { requester: 2u64, pay_amount: 5u128, to: [5; 20], amount_wei: 1 };
    let mut vault: Pallet<Test> =
        Pallet::load(GAS_TOPUP_PALLET_ID, LIMITS, None, Some(([4; 32], data)));
    let sig = sign_hash32(hash_msg([4; 32], &[1]));
    assert_eq!(
        vault.respond_fund(
            RawOrigin::Signed(2),
            [4; 32],
            BoundedVec::try_from(vec![1u8]).unwrap(),
            sig
        ),
        Err(CallError::Vault(Error::NotInitialized))
    );
    assert!(vault.pending(&[4; 32]).is_some());
}

#[test]
fn excerpt_of_the_vault_answers_like_the_whole() {
    let (runtime, user, id) = with_pending_request(5);
    let data = runtime.vault.pending(&id).unwrap().clone();
    let mut part: Pallet<Test> = Pallet::load(
        GAS_TOPUP_PALLET_ID,
        LIMITS,
        runtime.vault.config_data(),
        Some((id, data)),
    );
    let sig = sign_hash32(hash_msg(id, &[1]));
    assert_eq!(
        part.respond_fund(
            RawOrigin::Signed(user),
            id,
            BoundedVec::try_from(vec![1u8]).unwrap(),
            sig
        ),
        Ok(Settlement::Kept)
    );
    assert!(part.pending(&id).is_none());
    assert_eq!(part.events(), &vec![Event::FundSucceeded { request_id: id }]);
}

#[test]
fn reports_match_what_is_pending_and_only_grow() {
    let (mut runtime, user, id) = with_pending_request(5);
    let pending = runtime.vault.pending(&id).unwrap();
    let report = Event::FundRequested {
        request_id: id,
        requester: pending.requester,
        to: pending.to,
        amount_wei: pending.amount_wei,
        pay_amount: pending.pay_amount,
    };
    let mpc = pk_to_addr(&test_pk());
    assert_eq!(runtime.vault.events(), &vec![Event::Initialized { mpc }, report]);
    let sig = sign_hash32(hash_msg(id, &[0]));
    assert_eq!(
        runtime.respond_fund(
            RawOrigin::Signed(user),
            id,
            BoundedVec::try_from(vec![0u8]).unwrap(),
            sig
        ),
        Ok(())
    );
    let events = runtime.vault.events();
    assert_eq!(events.len(), 3);
    assert_eq!(events[0], Event::Initialized { mpc });
    assert_eq!(events[2], Event::FundFailed { request_id: id, refunded: 5 });
}

#[derive(Debug, PartialEq)]
struct LongAccounts;

impl Config for LongAccounts {
    type AccountId = [u8; 32];
    type Balance = u64;
}

#[test]
fn accounts_of_32_bytes_make_requests() {
    let mut vault: Pallet<LongAccounts> = Pallet::new(GAS_TOPUP_PALLET_ID, LIMITS);
    assert_eq!(vault.initialize(RawOrigin::Signed([1; 32]), [9; 20]), Ok(()));
    let step = vault.request_fund(
        RawOrigin::Signed([2; 32]),
        [5; 20],
        1,
        10,
        [7; 20],
        evm_tx(),
        100,
    );
    let (request, action) = match step {
        Step::Perform { request, action } => (request, action),
        Step::Finished(_) => panic!("refused"),
    };
    let mut account = [0u8; 32];
    account[..12].copy_from_slice(b"modlpy/gastp");
    assert_eq!(
        action,
        Action::Transfer(Transfer {
            from: [2; 32],
            to: account,
            amount: 100,
            existence: ExistenceRequirement::AllowDeath,
        })
    );
    let step = vault.resume_fund(request, Ok(Vec::new()));
    let action = match step {
        Step::Perform { action, .. } => action,
        Step::Finished(_) => panic!("refused"),
    };
    assert_eq!(
        action,
        Action::Transfer(Transfer {
            from: [2; 32],
            to: account,
            amount: 10,
            existence: ExistenceRequirement::AllowDeath,
        })
    );
}

#[test]
fn vault_covers_its_pending_requests() {
    let (mut runtime, user, first) = with_pending_request(500);
    let vault = runtime.vault.account_id();
    let mut ids = vec![first];
    for (nonce, pay_amount) in [(1u64, 70u128), (2, 0), (3, 9_000)] {
        let tx = EvmTx { nonce, ..evm_tx() };
        assert_eq!(
            runtime.request_fund(
                RawOrigin::Signed(user),
                [5u8; 20],
                1,
                pay_amount,
                [7u8; 20],
                tx
            ),
            Ok(())
        );
        ids.push(get_last_request_id_from_events(&runtime));
    }
    let owed = |runtime: &Runtime| -> u128 {
        ids.iter().filter_map(|id| runtime.vault.pending(id)).map(|p| p.pay_amount).sum()
    };
    assert_eq!(owed(&runtime), 9_570);
    assert_eq!(runtime.free_balance(vault), 9_570);
    assert_eq!(runtime.free_balance(SIGNET_ACCOUNT), 400);

    let left = [(0u8, 9_070u128, 9_070u128), (1, 9_000, 9_070), (0, 9_000, 9_070), (0, 0, 70)];
    for (id, (output, still_owed, balance)) in ids.iter().zip(left) {
        let sig = sign_hash32(hash_msg(*id, &[output]));
        assert_eq!(
            runtime.respond_fund(
                RawOrigin::Signed(user),
                *id,
                BoundedVec::try_from(vec![output]).unwrap(),
                sig
            ),
            Ok(())
        );
        assert_eq!(owed(&runtime), still_owed);
        assert_eq!(runtime.free_balance(vault), balance);
    }
    assert_eq!(runtime.free_balance(user), 2_000_000 - 400 - 70);
}

#[test]
fn refused_request_leaves_the_vault_covered() {
    let (mut runtime, user, id) = with_pending_request(500);
    let vault = runtime.vault.account_id();
    runtime.refuse_signing = true;
    let tx = EvmTx { nonce: 1, ..evm_tx() };
    assert_eq!(
        runtime.request_fund(RawOrigin::Signed(user), [5u8; 20], 1, 70, [7u8; 20], tx),
        Err(CallError::Runtime(DispatchError::Unavailable))
    );
    assert_eq!(runtime.vault.pending(&id).unwrap().pay_amount, 500);
    assert_eq!(runtime.free_balance(vault), 500);
}
