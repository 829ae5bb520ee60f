//! What the vault has the runtime do, and where a request stands meanwhile.
use vstd::prelude::*;

use crate::outside::bounded_bytes;
use crate::outside::BoundedBytes;
use crate::types::DispatchResult;
use crate::types::EvmTx;
use crate::types::PendingData;
use crate::types::RawOrigin;

verus! {

/// Whether a transfer may close the account that it takes from.
#[derive(Clone, Copy, Debug, PartialEq, Eq)]
pub enum ExistenceRequirement {
    KeepAlive,
    AllowDeath,
}

/// A payment from one account to another.
#[derive(Debug, PartialEq)]
pub struct Transfer<AccountId, Balance> {
    pub from: AccountId,
    pub to: AccountId,
    pub amount: Balance,
    pub existence: ExistenceRequirement,
}

/// An entry of a transaction's access list.
#[derive(Clone, Debug, PartialEq)]
pub struct AccessListItem {
    pub address: [u8; 20],
    pub storage_keys: Vec<[u8; 32]>,
}

/// An order to build an unsigned EVM transaction.
#[derive(Debug, PartialEq)]
pub struct BuildEvmTx<AccountId> {
    /// On whose behalf.
    pub origin: RawOrigin<AccountId>,
    pub to: Option<[u8; 20]>,
    pub value: u128,
    pub data: Vec<u8>,
    pub nonce: u64,
    pub gas_limit: u64,
    pub max_fee_per_gas: u128,
    pub max_priority_fee_per_gas: u128,
    pub access_list: Vec<AccessListItem>,
    pub chain_id: u64,
}

/// How the signing service reads or writes a value.
#[derive(Clone, Copy, Debug, PartialEq, Eq)]
pub enum SerializationFormat {
    Borsh,
    AbiJson,
}

/// An order to the signing service: sign a transaction, send it and respond.
#[derive(Debug, PartialEq)]
pub struct SignRespond<AccountId> {
    /// On whose behalf.
    pub origin: RawOrigin<AccountId>,
    pub serialized_transaction: BoundedBytes,
    pub slip44_chain_id: u32,
    pub key_version: u32,
    pub path: Vec<u8>,
    pub algo: Vec<u8>,
    pub dest: Vec<u8>,
    pub params: Vec<u8>,
    pub explorer_deserialization_format: SerializationFormat,
    pub explorer_deserialization_schema: Vec<u8>,
    pub callback_serialization_format: SerializationFormat,
    pub callback_serialization_schema: Vec<u8>,
}

/// How long the fields of an order to the signing service may be.
#[derive(Clone, Copy, Debug, PartialEq, Eq)]
pub struct SignLimits {
    pub path: usize,
    pub algo: usize,
    pub dest: usize,
    pub params: usize,
    pub explorer_deserialization_schema: usize,
    pub callback_serialization_schema: usize,
}

/// Something for the runtime to do.
#[derive(Debug, PartialEq)]
pub enum Action<AccountId, Balance> {
    Transfer(Transfer<AccountId, Balance>),
    BuildEvmTx(BuildEvmTx<AccountId>),
    SignRespond(SignRespond<AccountId>),
}

/// What a request waits for.
#[derive(Clone, Copy, Debug, PartialEq, Eq)]
pub enum Stage {
    /// The signing deposit to be paid to the vault.
    ChargingDeposit,
    /// The payment to be made to the vault.
    ChargingPayment,
    /// The transaction without a request id, which the id is made from.
    BuildingDraft,
    /// The transaction with the request id.
    BuildingFinal { request_id: [u8; 32] },
    /// The signing service to take the request.
    Signing { request_id: [u8; 32] },
}

/// A request under way.
#[derive(Debug, PartialEq)]
pub struct FundRequest<AccountId, Balance> {
    pub requester: AccountId,
    pub to: [u8; 20],
    pub amount_wei: u128,
    pub pay_amount: Balance,
    pub faucet: [u8; 20],
    pub tx: EvmTx,
    pub stage: Stage,
}

/// What comes next for a request.
#[derive(Debug, PartialEq)]
pub enum Step<AccountId, Balance> {
    /// The runtime is to perform `action` and resume `request` with the reply.
    Perform { request: FundRequest<AccountId, Balance>, action: Action<AccountId, Balance> },
    /// The request is over.
    Finished(DispatchResult),
}

/// The runtime's answer to an action: the bytes of what was built, where
/// something was to be built, or its error.
pub type Reply = Result<Vec<u8>, sp_runtime::DispatchError>;

/// A refund under way.
#[derive(Debug, PartialEq)]
pub struct Refund<AccountId, Balance> {
    pub request_id: [u8; 32],
    pub pending: PendingData<AccountId, Balance>,
}

/// What a valid response leads to.
#[derive(Debug, PartialEq)]
pub enum Settlement<AccountId, Balance> {
    /// The call went through and the vault keeps the payment.
    Kept,
    /// The call failed: the runtime is to perform `transfer` and finish `refund`
    /// with the reply.
    Refund { refund: Refund<AccountId, Balance>, transfer: Transfer<AccountId, Balance> },
}

// ---- mathematical models ---------------------------------------------------

/// The model of [`BuildEvmTx`].
pub struct BuildEvmTxView<AccountId> {
    pub origin: RawOrigin<AccountId>,
    pub to: Option<[u8; 20]>,
    pub value: u128,
    pub data: Seq<u8>,
    pub nonce: u64,
    pub gas_limit: u64,
    pub max_fee_per_gas: u128,
    pub max_priority_fee_per_gas: u128,
    pub access_list: Seq<AccessListItem>,
    pub chain_id: u64,
}

impl<AccountId> View for BuildEvmTx<AccountId> {
    type V = BuildEvmTxView<AccountId>;

    open spec fn view(&self) -> BuildEvmTxView<AccountId> {
        BuildEvmTxView {
            origin: self.origin,
            to: self.to,
            value: self.value,
            data: self.data@,
            nonce: self.nonce,
            gas_limit: self.gas_limit,
            max_fee_per_gas: self.max_fee_per_gas,
            max_priority_fee_per_gas: self.max_priority_fee_per_gas,
            access_list: self.access_list@,
            chain_id: self.chain_id,
        }
    }
}

/// The model of [`SignRespond`].
pub struct SignRespondView<AccountId> {
    pub origin: RawOrigin<AccountId>,
    pub serialized_transaction: Seq<u8>,
    pub slip44_chain_id: u32,
    pub key_version: u32,
    pub path: Seq<u8>,
    pub algo: Seq<u8>,
    pub dest: Seq<u8>,
    pub params: Seq<u8>,
    pub explorer_deserialization_format: SerializationFormat,
    pub explorer_deserialization_schema: Seq<u8>,
    pub callback_serialization_format: SerializationFormat,
    pub callback_serialization_schema: Seq<u8>,
}

impl<AccountId> View for SignRespond<AccountId> {
    type V = SignRespondView<AccountId>;

    open spec fn view(&self) -> SignRespondView<AccountId> {
        SignRespondView {
            origin: self.origin,
            serialized_transaction: bounded_bytes(self.serialized_transaction),
            slip44_chain_id: self.slip44_chain_id,
            key_version: self.key_version,
            path: self.path@,
            algo: self.algo@,
            dest: self.dest@,
            params: self.params@,
            explorer_deserialization_format: self.explorer_deserialization_format,
            explorer_deserialization_schema: self.explorer_deserialization_schema@,
            callback_serialization_format: self.callback_serialization_format,
            callback_serialization_schema: self.callback_serialization_schema@,
        }
    }
}

/// The model of [`Action`].
pub enum ActionView<AccountId, Balance> {
    Transfer(Transfer<AccountId, Balance>),
    BuildEvmTx(BuildEvmTxView<AccountId>),
    SignRespond(SignRespondView<AccountId>),
}

impl<AccountId, Balance> View for Action<AccountId, Balance> {
    type V = ActionView<AccountId, Balance>;

    open spec fn view(&self) -> ActionView<AccountId, Balance> {
        match *self {
            Action::Transfer(transfer) => ActionView::Transfer(transfer),
            Action::BuildEvmTx(build) => ActionView::BuildEvmTx(build@),
            Action::SignRespond(sign) => ActionView::SignRespond(sign@),
        }
    }
}

/// The model of [`Step`].
pub enum StepView<AccountId, Balance> {
    Perform { request: FundRequest<AccountId, Balance>, action: ActionView<AccountId, Balance> },
    Finished(DispatchResult),
}

impl<AccountId, Balance> View for Step<AccountId, Balance> {
    type V = StepView<AccountId, Balance>;

    open spec fn view(&self) -> StepView<AccountId, Balance> {
        match *self {
            Step::Perform { request, action } => StepView::Perform { request, action: action@ },
            Step::Finished(result) => StepView::Finished(result),
        }
    }
}

/// The model of [`Reply`].
pub type ReplyView = Result<Seq<u8>, sp_runtime::DispatchError>;

/// A reply by the bytes in it.
pub open spec fn reply_view(reply: Reply) -> ReplyView {
    match reply {
        Ok(bytes) => Ok(bytes@),
        Err(error) => Err(error),
    }
}

} // verus!
