//! The vault: its storage and its calls.
use vstd::prelude::*;
use vstd::utf8::encode_utf8;

use crate::abi::fund_call;
use crate::bytes::padded;
use crate::bytes::zeros;
use crate::config::lemma_pallet_account_unique;
use crate::config::Account;
use crate::config::Config;
use crate::flow::reply_view;
use crate::flow::Action;
use crate::flow::BuildEvmTx;
use crate::flow::ExistenceRequirement;
use crate::flow::FundRequest;
use crate::flow::Refund;
use crate::flow::Reply;
use crate::flow::SerializationFormat;
use crate::flow::Settlement;
use crate::flow::SignLimits;
use crate::flow::SignRespond;
use crate::flow::Stage;
use crate::flow::Step;
use crate::flow::Transfer;
use crate::laws::formats::identifying_bytes;
use crate::laws::formats::lemma_identifying_bytes;
use crate::messages::decode_outcome;
use crate::messages::generate_request_id;
use crate::messages::hash_message;
use crate::messages::verify_signature_from_address;
use crate::outside::bound_bytes;
use crate::outside::bounded_bytes;
use crate::outside::bounded_slice;
use crate::outside::json_string;
use crate::outside::keccak_256_digest;
use crate::outside::BoundedBytes;
use crate::requests::RequestMap;
use crate::rules::faucet_call;
use crate::rules::lemma_array_of;
use crate::rules::response_schema;
use crate::rules::State;
use crate::rules::ECDSA;
use crate::rules::ETHEREUM;
use crate::rules::KEY_VERSION;
use crate::rules::SLIP44_ETHEREUM;
use crate::types::ensure_signed;
use crate::types::CallError;
use crate::types::DispatchResult;
use crate::types::Error;
use crate::types::Event;
use crate::types::EvmTx;
use crate::types::PendingData;
use crate::types::RawOrigin;
use crate::types::Signature;

verus! {

/// The vault on the chain `T`.
pub struct Pallet<T: Config> {
    pallet_id: [u8; 8],
    limits: SignLimits,
    config_data: Option<[u8; 20]>,
    pending: RequestMap<PendingData<T::AccountId, T::Balance>>,
    events: Vec<Event<T>>,
}

impl<T: Config> View for Pallet<T> {
    type V = State<T>;

    closed spec fn view(&self) -> State<T> {
        State {
            pallet_id: self.pallet_id,
            limits: self.limits,
            config: self.config_data,
            pending: self.pending@,
            events: self.events@,
        }
    }
}

/// The order for the faucet call of a request, under the id `request_id`.
fn build_faucet_call<A: Account, B>(
    request: &FundRequest<A, B>,
    request_id: [u8; 32],
) -> (action: Action<A, B>)
    ensures
        action@ == faucet_call(*request, request_id@),
{
    Action::BuildEvmTx(
        BuildEvmTx {
            origin: RawOrigin::Signed(request.requester.duplicate()),
            to: Some(request.faucet),
            value: 0,
            data: fund_call(request.to, request.amount_wei, request_id),
            nonce: request.tx.nonce,
            gas_limit: request.tx.gas_limit,
            max_fee_per_gas: request.tx.max_fee_per_gas,
            max_priority_fee_per_gas: request.tx.max_priority_fee_per_gas,
            access_list: Vec::new(),
            chain_id: request.tx.chain_id,
        },
    )
}

/// The schema of a response, as JSON.
pub fn callback_schema() -> (schema: Result<Vec<u8>, Error>)
    ensures
        schema matches Ok(s) && s@ == response_schema(),
{
    proof {
        reveal_strlit("bool");
        vstd::utf8::is_ascii_chars_encode_utf8("bool"@);
        assert(encode_utf8("bool"@) =~= seq![0x62u8, 0x6fu8, 0x6fu8, 0x6cu8]);
        assert(seq![0x22u8] + encode_utf8("bool"@) + seq![0x22u8] =~= response_schema());
    }
    match json_string("bool") {
        Ok(json) => Ok(json),
        Err(_) => Err(Error::Serialization),
    }
}

impl<T: Config> Pallet<T> {
    /// A vault that is not initialised, with the account of `pallet_id`.
    pub fn new(pallet_id: [u8; 8], limits: SignLimits) -> (vault: Self)
        ensures
            vault@ == (State::<T> {
                pallet_id,
                limits,
                config: None,
                pending: Map::empty(),
                events: Seq::empty(),
            }),
    {
        Pallet {
            pallet_id,
            limits,
            config_data: None,
            pending: RequestMap::new(),
            events: Vec::new(),
        }
    }

    /// A vault as far as a call needs it: its configuration and at most one of
    /// its pending requests. A call touches no other request than its own.
    pub fn load(
        pallet_id: [u8; 8],
        limits: SignLimits,
        config_data: Option<[u8; 20]>,
        slot: Option<([u8; 32], PendingData<T::AccountId, T::Balance>)>,
    ) -> (vault: Self)
        ensures
            vault@ == (State::<T> {
                pallet_id,
                limits,
                config: config_data,
                pending: match slot {
                    Some((request_id, data)) => Map::empty().insert(request_id, data),
                    None => Map::empty(),
                },
                events: Seq::empty(),
            }),
    {
        let mut pending = RequestMap::new();
        if let Some((request_id, data)) = slot {
            pending.insert(request_id, data);
        }
        Pallet { pallet_id, limits, config_data, pending, events: Vec::new() }
    }

    /// The signing service's address, once it is set.
    pub fn config_data(&self) -> (mpc: Option<[u8; 20]>)
        ensures
            mpc == self@.config,
    {
        self.config_data
    }

    /// A request that waits for its response.
    pub fn pending(&self, request_id: &[u8; 32]) -> (data: Option<
        &PendingData<T::AccountId, T::Balance>,
    >)
        ensures
            match data {
                Some(d) => self@.pending.dom().contains(*request_id) && self@.pending[*request_id]
                    == *d,
                None => !self@.pending.dom().contains(*request_id),
            },
    {
        self.pending.get(request_id)
    }

    /// What was reported to the chain, oldest first.
    pub fn events(&self) -> (events: &Vec<Event<T>>)
        ensures
            events@ == self@.events,
    {
        &self.events
    }

    /// The vault's own account.
    pub fn account_id(&self) -> (account: T::AccountId)
        ensures
            account == self@.account(),
            account.encoded() == padded(
                seq![0x6du8, 0x6fu8, 0x64u8, 0x6cu8] + self@.pallet_id@,
                T::AccountId::width(),
            ),
    {
        let account = T::AccountId::of_pallet(self.pallet_id);
        proof {
            lemma_pallet_account_unique(account, self.pallet_id);
        }
        account
    }

    /// Sets the signing service's address. It can be set once.
    pub fn initialize(&mut self, origin: RawOrigin<T::AccountId>, mpc: [u8; 20]) -> (result:
        DispatchResult)
        ensures
            final(self)@ == old(self)@.initialize(origin, mpc).0,
            result == old(self)@.initialize(origin, mpc).1,
    {
        match ensure_signed(origin) {
            Err(error) => return Err(error),
            Ok(_) => {},
        }
        if self.config_data.is_some() {
            return Err(CallError::Vault(Error::AlreadyInitialized));
        }
        self.config_data = Some(mpc);
        self.events.push(Event::Initialized { mpc });
        Ok(())
    }

    /// A charge on the requester in favour of the vault.
    fn charge(&self, requester: &T::AccountId, amount: T::Balance) -> (action: Action<
        T::AccountId,
        T::Balance,
    >)
        ensures
            action@ == self@.charge(*requester, amount),
    {
        Action::Transfer(
            Transfer {
                from: requester.duplicate(),
                to: self.account_id(),
                amount,
                existence: ExistenceRequirement::AllowDeath,
            },
        )
    }

    /// Opens a request to send `amount_wei` to `to`, for `pay_amount` and the
    /// signing deposit. The request goes on with [`Pallet::resume_fund`].
    pub fn request_fund(
        &self,
        origin: RawOrigin<T::AccountId>,
        to: [u8; 20],
        amount_wei: u128,
        pay_amount: T::Balance,
        faucet: [u8; 20],
        tx: EvmTx,
        signature_deposit: T::Balance,
    ) -> (step: Step<T::AccountId, T::Balance>)
        ensures
            step@ == self@.request_fund(
                origin,
                to,
                amount_wei,
                pay_amount,
                faucet,
                tx,
                signature_deposit,
            ),
    {
        let requester = match ensure_signed(origin) {
            Err(error) => return Step::Finished(Err(error)),
            Ok(requester) => requester,
        };
        if self.config_data.is_none() {
            return Step::Finished(Err(CallError::Vault(Error::NotInitialized)));
        }
        let action = self.charge(&requester, signature_deposit);
        let request = FundRequest {
            requester,
            to,
            amount_wei,
            pay_amount,
            faucet,
            tx,
            stage: Stage::ChargingDeposit,
        };
        Step::Perform { request, action }
    }

    /// Goes on with a request whose id has been found.
    pub fn identify(
        &self,
        request: FundRequest<T::AccountId, T::Balance>,
        request_id: [u8; 32],
    ) -> (step: Step<T::AccountId, T::Balance>)
        ensures
            step@ == self@.identify(request, request_id),
    {
        let action = build_faucet_call(&request, request_id);
        Step::Perform {
            request: FundRequest { stage: Stage::BuildingFinal { request_id }, ..request },
            action,
        }
    }

    /// Records a request whose transaction is built, and hands it to the signing
    /// service.
    pub fn record(
        &mut self,
        request: FundRequest<T::AccountId, T::Balance>,
        request_id: [u8; 32],
        transaction: Vec<u8>,
    ) -> (step: Step<T::AccountId, T::Balance>)
        ensures
            final(self)@ == old(self)@.record(request, request_id, transaction@).0,
            step@ == old(self)@.record(request, request_id, transaction@).1,
    {
        if self.pending.contains(&request_id) {
            return Step::Finished(Err(CallError::Vault(Error::DuplicateRequest)));
        }
        let serialization = Step::Finished(Err(CallError::Vault(Error::Serialization)));
        let schema = match callback_schema() {
            Ok(schema) => schema,
            Err(error) => return Step::Finished(Err(CallError::Vault(error))),
        };
        let serialized_transaction = match bound_bytes(transaction) {
            Ok(bounded) => bounded,
            Err(_) => return serialization,
        };
        let path = request.requester.encode();
        let limits = self.limits;
        if path.len() > limits.path || ECDSA.len() > limits.algo || ETHEREUM.len() > limits.dest
            || schema.len() > limits.callback_serialization_schema {
            return serialization;
        }
        let order = SignRespond {
            origin: RawOrigin::Signed(self.account_id()),
            serialized_transaction,
            slip44_chain_id: SLIP44_ETHEREUM,
            key_version: KEY_VERSION,
            path,
            algo: vstd::slice::slice_to_vec(&ECDSA),
            dest: vstd::slice::slice_to_vec(&ETHEREUM),
            params: Vec::new(),
            explorer_deserialization_format: SerializationFormat::AbiJson,
            explorer_deserialization_schema: Vec::new(),
            callback_serialization_format: SerializationFormat::Borsh,
            callback_serialization_schema: schema,
        };
        self.pending.insert(
            request_id,
            PendingData {
                requester: request.requester.duplicate(),
                pay_amount: request.pay_amount,
                to: request.to,
                amount_wei: request.amount_wei,
            },
        );
        Step::Perform {
            request: FundRequest { stage: Stage::Signing { request_id }, ..request },
            action: Action::SignRespond(order),
        }
    }

    /// Goes on with a request after the runtime's reply to its last action.
    pub fn resume_fund(
        &mut self,
        request: FundRequest<T::AccountId, T::Balance>,
        reply: Reply,
    ) -> (step: Step<T::AccountId, T::Balance>)
        ensures
            final(self)@ == old(self)@.resume_fund(request, reply_view(reply)).0,
            step@ == old(self)@.resume_fund(request, reply_view(reply)).1,
            (reply is Ok && request.stage == Stage::BuildingDraft) ==> (step matches Step::Perform {
                request: next,
                ..
            } && next.stage matches Stage::BuildingFinal { request_id } && request_id@
                == keccak_256_digest(identifying_bytes(request.requester, reply->Ok_0@))),
    {
        let bytes = match reply {
            Ok(bytes) => bytes,
            Err(error) => {
                if let Stage::Signing { request_id } = request.stage {
                    let _ = self.pending.remove(&request_id);
                }
                return Step::Finished(Err(CallError::Runtime(error)));
            },
        };
        match request.stage {
            Stage::ChargingDeposit => {
                let action = self.charge(&request.requester, request.pay_amount);
                Step::Perform {
                    request: FundRequest { stage: Stage::ChargingPayment, ..request },
                    action,
                }
            },
            Stage::ChargingPayment => {
                let no_id: [u8; 32] = [0u8;32];
                let action = build_faucet_call(&request, no_id);
                assert(no_id@ =~= zeros(32));
                Step::Perform {
                    request: FundRequest { stage: Stage::BuildingDraft, ..request },
                    action,
                }
            },
            Stage::BuildingDraft => {
                let path = request.requester.encode();
                let params: Vec<u8> = Vec::new();
                let request_id = generate_request_id(
                    &request.requester,
                    &bytes,
                    SLIP44_ETHEREUM,
                    KEY_VERSION,
                    &path,
                    &ECDSA,
                    &ETHEREUM,
                    &params,
                );
                proof {
                    lemma_array_of(request_id);
                    lemma_identifying_bytes(request.requester, bytes@);
                }
                self.identify(request, request_id)
            },
            Stage::BuildingFinal { request_id } => self.record(request, request_id, bytes),
            Stage::Signing { request_id } => {
                self.events.push(
                    Event::FundRequested {
                        request_id,
                        requester: request.requester,
                        to: request.to,
                        amount_wei: request.amount_wei,
                        pay_amount: request.pay_amount,
                    },
                );
                Step::Finished(Ok(()))
            },
        }
    }

    /// Settles a request on the findings about its response.
    pub fn settle(
        &mut self,
        request_id: [u8; 32],
        verdict: Result<(), Error>,
        outcome: Result<bool, Error>,
    ) -> (settlement: Result<Settlement<T::AccountId, T::Balance>, CallError>)
        ensures
            final(self)@ == old(self)@.settle(request_id, verdict, outcome).0,
            settlement == old(self)@.settle(request_id, verdict, outcome).1,
    {
        if !self.pending.contains(&request_id) {
            return Err(CallError::Vault(Error::NotFound));
        }
        if self.config_data.is_none() {
            return Err(CallError::Vault(Error::NotInitialized));
        }
        if let Err(error) = verdict {
            return Err(CallError::Vault(error));
        }
        let ok = match outcome {
            Ok(ok) => ok,
            Err(error) => return Err(CallError::Vault(error)),
        };
        let pending = match self.pending.remove(&request_id) {
            Some(pending) => pending,
            None => return Err(CallError::Vault(Error::NotFound)),
        };
        if ok {
            self.events.push(Event::FundSucceeded { request_id });
            Ok(Settlement::Kept)
        } else {
            let transfer = Transfer {
                from: self.account_id(),
                to: pending.requester.duplicate(),
                amount: pending.pay_amount,
                existence: ExistenceRequirement::AllowDeath,
            };
            Ok(Settlement::Refund { refund: Refund { request_id, pending }, transfer })
        }
    }

    /// Takes the response to a request in. A response that leads to a refund goes
    /// on with [`Pallet::finish_refund`].
    pub fn respond_fund(
        &mut self,
        origin: RawOrigin<T::AccountId>,
        request_id: [u8; 32],
        serialized_output: BoundedBytes,
        signature: Signature,
    ) -> (settlement: Result<Settlement<T::AccountId, T::Balance>, CallError>)
        ensures
            final(self)@ == old(self)@.respond_fund(
                origin,
                request_id,
                bounded_bytes(serialized_output),
                signature,
            ).0,
            settlement == old(self)@.respond_fund(
                origin,
                request_id,
                bounded_bytes(serialized_output),
                signature,
            ).1,
    {
        match ensure_signed(origin) {
            Err(error) => return Err(error),
            Ok(_) => {},
        }
        if !self.pending.contains(&request_id) {
            return Err(CallError::Vault(Error::NotFound));
        }
        let mpc = match self.config_data {
            Some(mpc) => mpc,
            None => return Err(CallError::Vault(Error::NotInitialized)),
        };
        let output = bounded_slice(&serialized_output);
        let digest = hash_message(&request_id, output);
        let verdict = verify_signature_from_address(&digest, &signature, &mpc);
        let outcome = decode_outcome(output);
        self.settle(request_id, verdict, outcome)
    }

    /// Finishes a refund after the runtime's reply to its transfer.
    pub fn finish_refund(
        &mut self,
        refund: Refund<T::AccountId, T::Balance>,
        reply: Result<(), sp_runtime::DispatchError>,
    ) -> (result: DispatchResult)
        ensures
            final(self)@ == old(self)@.finish_refund(refund, reply).0,
            result == old(self)@.finish_refund(refund, reply).1,
    {
        match reply {
            Ok(_) => {
                self.events.push(
                    Event::FundFailed {
                        request_id: refund.request_id,
                        refunded: refund.pending.pay_amount,
                    },
                );
                Ok(())
            },
            Err(error) => {
                self.pending.insert(refund.request_id, refund.pending);
                Err(CallError::Runtime(error))
            },
        }
    }
}

} // verus!
