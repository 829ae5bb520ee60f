//! The rules of the vault, as functions from a state to the next.
use vstd::prelude::*;

use crate::abi::fund_call_bytes;
use crate::bytes::zeros;
use crate::config::pallet_account;
use crate::config::Account;
use crate::config::Config;
use crate::flow::ActionView;
use crate::flow::BuildEvmTxView;
use crate::flow::ExistenceRequirement;
use crate::flow::FundRequest;
use crate::flow::Refund;
use crate::flow::ReplyView;
use crate::flow::SerializationFormat;
use crate::flow::Settlement;
use crate::flow::SignLimits;
use crate::flow::SignRespondView;
use crate::flow::Stage;
use crate::flow::StepView;
use crate::flow::Transfer;
use crate::messages::outcome_of;
use crate::messages::request_digest;
use crate::messages::signature_verdict;
use crate::outside::keccak_256_digest;
use crate::outside::MAX_SERIALIZED_OUTPUT_LENGTH;
use crate::types::signer_of;
use crate::types::CallError;
use crate::types::DispatchResult;
use crate::types::Error;
use crate::types::Event;
use crate::types::EvmTx;
use crate::types::PendingData;
use crate::types::RawOrigin;
use crate::types::Signature;

verus! {

/// Ether in the registry of coin types.
pub const SLIP44_ETHEREUM: u32 = 60;

/// The version of the signing service's key.
pub const KEY_VERSION: u32 = 0;

/// `ecdsa`, the signature scheme.
pub const ECDSA: [u8; 5] = [0x65, 0x63, 0x64, 0x73, 0x61];

/// `ethereum`, the chain that the transaction is sent on.
pub const ETHEREUM: [u8; 8] = [0x65, 0x74, 0x68, 0x65, 0x72, 0x65, 0x75, 0x6d];

/// `"bool"`, the schema of a response.
pub open spec fn response_schema() -> Seq<u8> {
    seq![0x22u8, 0x62u8, 0x6fu8, 0x6fu8, 0x6cu8, 0x22u8]
}

/// The vault as a whole.
#[verifier::ext_equal]
pub struct State<T: Config> {
    /// The id that the vault's account is made from.
    pub pallet_id: [u8; 8],
    /// What the signing service accepts.
    pub limits: SignLimits,
    /// The signing service's address, once it is set.
    pub config: Option<[u8; 20]>,
    /// The requests that wait for a response.
    pub pending: Map<[u8; 32], PendingData<T::AccountId, T::Balance>>,
    /// What was reported to the chain, oldest first.
    pub events: Seq<Event<T>>,
}

/// The array with the bytes `bytes`.
pub open spec fn array_of(bytes: Seq<u8>) -> [u8; 32] {
    choose|array: [u8; 32]| #[trigger] array@ == bytes
}

/// There is one array only with given bytes.
pub proof fn lemma_array_of(array: [u8; 32])
    ensures
        array == array_of(array@),
{
    assert(array =~= array_of(array@));
}

/// The id of a request by its requester and its draft transaction.
pub open spec fn request_id_of<A: Account>(requester: A, draft: Seq<u8>) -> [u8; 32] {
    array_of(
        request_digest(
            requester,
            draft,
            SLIP44_ETHEREUM,
            KEY_VERSION,
            requester.encoded(),
            ECDSA@,
            ETHEREUM@,
            Seq::empty(),
        ),
    )
}

/// The order for the faucet call of a request, under the id `request_id`.
pub open spec fn faucet_call<A, B>(request: FundRequest<A, B>, request_id: Seq<u8>) -> ActionView<
    A,
    B,
> {
    ActionView::BuildEvmTx(
        BuildEvmTxView {
            origin: RawOrigin::Signed(request.requester),
            to: Some(request.faucet),
            value: 0,
            data: fund_call_bytes(request.to@, request.amount_wei, request_id),
            nonce: request.tx.nonce,
            gas_limit: request.tx.gas_limit,
            max_fee_per_gas: request.tx.max_fee_per_gas,
            max_priority_fee_per_gas: request.tx.max_priority_fee_per_gas,
            access_list: Seq::empty(),
            chain_id: request.tx.chain_id,
        },
    )
}

/// What is kept of a request until its response.
pub open spec fn record_of<A, B>(request: FundRequest<A, B>) -> PendingData<A, B> {
    PendingData {
        requester: request.requester,
        pay_amount: request.pay_amount,
        to: request.to,
        amount_wei: request.amount_wei,
    }
}

/// A request at another stage.
pub open spec fn at_stage<A, B>(request: FundRequest<A, B>, stage: Stage) -> FundRequest<A, B> {
    FundRequest { stage, ..request }
}

/// Whether an order fits what the signing service accepts.
pub open spec fn within_limits<A>(order: SignRespondView<A>, limits: SignLimits) -> bool {
    &&& order.serialized_transaction.len() <= MAX_SERIALIZED_OUTPUT_LENGTH
    &&& order.path.len() <= limits.path
    &&& order.algo.len() <= limits.algo
    &&& order.dest.len() <= limits.dest
    &&& order.params.len() <= limits.params
    &&& order.explorer_deserialization_schema.len() <= limits.explorer_deserialization_schema
    &&& order.callback_serialization_schema.len() <= limits.callback_serialization_schema
}

/// A refusal by the vault.
pub open spec fn refused<A, B>(error: Error) -> StepView<A, B> {
    StepView::Finished(Err(CallError::Vault(error)))
}

impl<T: Config> State<T> {
    /// The vault's own account.
    pub open spec fn account(self) -> T::AccountId {
        pallet_account(self.pallet_id)
    }

    /// The state with one more event.
    pub open spec fn with_event(self, event: Event<T>) -> Self {
        State { events: self.events.push(event), ..self }
    }

    /// The state with a pending request.
    pub open spec fn with_pending(
        self,
        request_id: [u8; 32],
        data: PendingData<T::AccountId, T::Balance>,
    ) -> Self {
        State { pending: self.pending.insert(request_id, data), ..self }
    }

    /// The state without a pending request.
    pub open spec fn without_pending(self, request_id: [u8; 32]) -> Self {
        State { pending: self.pending.remove(request_id), ..self }
    }

    /// Setting the signing service's address, which can be done once.
    pub open spec fn initialize(self, origin: RawOrigin<T::AccountId>, mpc: [u8; 20]) -> (
        Self,
        DispatchResult,
    ) {
        match signer_of(origin) {
            Err(error) => (self, Err(error)),
            Ok(_) => if self.config is Some {
                (self, Err(CallError::Vault(Error::AlreadyInitialized)))
            } else {
                (
                    State { config: Some(mpc), ..self }.with_event(Event::Initialized { mpc }),
                    Ok(()),
                )
            },
        }
    }

    /// A charge on the requester in favour of the vault.
    pub open spec fn charge(self, requester: T::AccountId, amount: T::Balance) -> ActionView<
        T::AccountId,
        T::Balance,
    > {
        ActionView::Transfer(
            Transfer {
                from: requester,
                to: self.account(),
                amount,
                existence: ExistenceRequirement::AllowDeath,
            },
        )
    }

    /// Opening a request: the signing deposit is charged first.
    pub open spec fn request_fund(
        self,
        origin: RawOrigin<T::AccountId>,
        to: [u8; 20],
        amount_wei: u128,
        pay_amount: T::Balance,
        faucet: [u8; 20],
        tx: EvmTx,
        signature_deposit: T::Balance,
    ) -> StepView<T::AccountId, T::Balance> {
        match signer_of(origin) {
            Err(error) => StepView::Finished(Err(error)),
            Ok(requester) => if self.config is None {
                refused(Error::NotInitialized)
            } else {
                StepView::Perform {
                    request: FundRequest {
                        requester,
                        to,
                        amount_wei,
                        pay_amount,
                        faucet,
                        tx,
                        stage: Stage::ChargingDeposit,
                    },
                    action: self.charge(requester, signature_deposit),
                }
            },
        }
    }

    /// A request whose id has been found: the call is built again, with the id.
    pub open spec fn identify(
        self,
        request: FundRequest<T::AccountId, T::Balance>,
        request_id: [u8; 32],
    ) -> StepView<T::AccountId, T::Balance> {
        StepView::Perform {
            request: at_stage(request, Stage::BuildingFinal { request_id }),
            action: faucet_call(request, request_id@),
        }
    }

    /// The order that hands a request to the signing service.
    pub open spec fn signing_order(
        self,
        request: FundRequest<T::AccountId, T::Balance>,
        transaction: Seq<u8>,
    ) -> SignRespondView<T::AccountId> {
        SignRespondView {
            origin: RawOrigin::Signed(self.account()),
            serialized_transaction: transaction,
            slip44_chain_id: SLIP44_ETHEREUM,
            key_version: KEY_VERSION,
            path: request.requester.encoded(),
            algo: ECDSA@,
            dest: ETHEREUM@,
            params: Seq::empty(),
            explorer_deserialization_format: SerializationFormat::AbiJson,
            explorer_deserialization_schema: Seq::empty(),
            callback_serialization_format: SerializationFormat::Borsh,
            callback_serialization_schema: response_schema(),
        }
    }

    /// Recording a request whose transaction is built: a new id only, and only
    /// what the signing service accepts.
    pub open spec fn record(
        self,
        request: FundRequest<T::AccountId, T::Balance>,
        request_id: [u8; 32],
        transaction: Seq<u8>,
    ) -> (Self, StepView<T::AccountId, T::Balance>) {
        let order = self.signing_order(request, transaction);
        if self.pending.dom().contains(request_id) {
            (self, refused(Error::DuplicateRequest))
        } else if !within_limits(order, self.limits) {
            (self, refused(Error::Serialization))
        } else {
            (
                self.with_pending(request_id, record_of(request)),
                StepView::Perform {
                    request: at_stage(request, Stage::Signing { request_id }),
                    action: ActionView::SignRespond(order),
                },
            )
        }
    }

    /// The event that reports a request.
    pub open spec fn requested(
        self,
        request: FundRequest<T::AccountId, T::Balance>,
        request_id: [u8; 32],
    ) -> Event<T> {
        Event::FundRequested {
            request_id,
            requester: request.requester,
            to: request.to,
            amount_wei: request.amount_wei,
            pay_amount: request.pay_amount,
        }
    }

    /// Going on with a request after the runtime's reply. A failure ends it and
    /// takes back what was recorded.
    pub open spec fn resume_fund(
        self,
        request: FundRequest<T::AccountId, T::Balance>,
        reply: ReplyView,
    ) -> (Self, StepView<T::AccountId, T::Balance>) {
        match reply {
            Err(error) => (
                match request.stage {
                    Stage::Signing { request_id } => self.without_pending(request_id),
                    _ => self,
                },
                StepView::Finished(Err(CallError::Runtime(error))),
            ),
            Ok(bytes) => match request.stage {
                Stage::ChargingDeposit => (
                    self,
                    StepView::Perform {
                        request: at_stage(request, Stage::ChargingPayment),
                        action: self.charge(request.requester, request.pay_amount),
                    },
                ),
                Stage::ChargingPayment => (
                    self,
                    StepView::Perform {
                        request: at_stage(request, Stage::BuildingDraft),
                        action: faucet_call(request, zeros(32)),
                    },
                ),
                Stage::BuildingDraft => (
                    self,
                    self.identify(request, request_id_of(request.requester, bytes)),
                ),
                Stage::BuildingFinal { request_id } => self.record(request, request_id, bytes),
                Stage::Signing { request_id } => (
                    self.with_event(self.requested(request, request_id)),
                    StepView::Finished(Ok(())),
                ),
            },
        }
    }

    /// Settling a request on the findings about its response: whether the
    /// signature is the service's, and what the output says.
    pub open spec fn settle(
        self,
        request_id: [u8; 32],
        verdict: Result<(), Error>,
        outcome: Result<bool, Error>,
    ) -> (Self, Result<Settlement<T::AccountId, T::Balance>, CallError>) {
        let pending = self.pending[request_id];
        if !self.pending.dom().contains(request_id) {
            (self, Err(CallError::Vault(Error::NotFound)))
        } else if self.config is None {
            (self, Err(CallError::Vault(Error::NotInitialized)))
        } else {
            match (verdict, outcome) {
                (Err(error), _) => (self, Err(CallError::Vault(error))),
                (Ok(_), Err(error)) => (self, Err(CallError::Vault(error))),
                (Ok(_), Ok(true)) => (
                    self.without_pending(request_id).with_event(
                        Event::FundSucceeded { request_id },
                    ),
                    Ok(Settlement::Kept),
                ),
                (Ok(_), Ok(false)) => (
                    self.without_pending(request_id),
                    Ok(
                        Settlement::Refund {
                            refund: Refund { request_id, pending },
                            transfer: Transfer {
                                from: self.account(),
                                to: pending.requester,
                                amount: pending.pay_amount,
                                existence: ExistenceRequirement::AllowDeath,
                            },
                        },
                    ),
                ),
            }
        }
    }

    /// What the response's signature is found to be.
    pub open spec fn verdict_on(
        self,
        request_id: [u8; 32],
        output: Seq<u8>,
        signature: Signature,
    ) -> Result<(), Error> {
        match self.config {
            None => Err(Error::NotInitialized),
            Some(mpc) => signature_verdict(
                keccak_256_digest(request_id@ + output),
                signature,
                mpc@,
            ),
        }
    }

    /// Taking a response in.
    pub open spec fn respond_fund(
        self,
        origin: RawOrigin<T::AccountId>,
        request_id: [u8; 32],
        output: Seq<u8>,
        signature: Signature,
    ) -> (Self, Result<Settlement<T::AccountId, T::Balance>, CallError>) {
        match signer_of(origin) {
            Err(error) => (self, Err(error)),
            Ok(_) => self.settle(
                request_id,
                self.verdict_on(request_id, output, signature),
                outcome_of(output),
            ),
        }
    }

    /// Finishing a refund after the runtime's reply. A failure leaves the request
    /// pending.
    pub open spec fn finish_refund(
        self,
        refund: Refund<T::AccountId, T::Balance>,
        reply: Result<(), sp_runtime::DispatchError>,
    ) -> (Self, DispatchResult) {
        match reply {
            Ok(_) => (
                self.with_event(
                    Event::FundFailed {
                        request_id: refund.request_id,
                        refunded: refund.pending.pay_amount,
                    },
                ),
                Ok(()),
            ),
            Err(error) => (
                self.with_pending(refund.request_id, refund.pending),
                Err(CallError::Runtime(error)),
            ),
        }
    }
}

} // verus!
