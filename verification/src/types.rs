//! The values that the vault stores, is asked with and answers with.
use vstd::prelude::*;

use crate::config::Config;

verus! {

/// The vault's address on the Sepolia test network.
pub const SEPOLIA_VAULT_ADDRESS: [u8; 20] = [
    0x00,
    0xA4,
    0x0C,
    0x26,
    0x61,
    0x29,
    0x3d,
    0x51,
    0x34,
    0xE5,
    0x3D,
    0xa5,
    0x29,
    0x51,
    0xA3,
    0xF7,
    0x76,
    0x78,
    0x36,
    0xEf,
];

/// A request that waits for its response.
#[derive(Clone, Debug, PartialEq)]
pub struct PendingData<AccountId, Balance> {
    /// Who asked, and is refunded when the call fails.
    pub requester: AccountId,
    /// What the requester paid for the gas.
    pub pay_amount: Balance,
    /// The EVM address to fund.
    pub to: [u8; 20],
    /// How much to fund it with.
    pub amount_wei: u128,
}

/// The parts of an EVM transaction that the requester chooses.
#[derive(Clone, Copy, Debug, PartialEq, Eq)]
pub struct EvmTx {
    /// Not used: the faucet is called with no value.
    pub value: u128,
    pub gas_limit: u64,
    pub max_fee_per_gas: u128,
    pub max_priority_fee_per_gas: u128,
    pub nonce: u64,
    pub chain_id: u64,
}

/// What the vault reports to the chain.
#[derive(Debug, PartialEq)]
pub enum Event<T: Config> {
    /// The signing service's address was set.
    Initialized { mpc: [u8; 20] },
    /// A request was paid for and handed to the signing service.
    FundRequested {
        request_id: [u8; 32],
        requester: T::AccountId,
        to: [u8; 20],
        amount_wei: u128,
        pay_amount: T::Balance,
    },
    /// The faucet call went through.
    FundSucceeded { request_id: [u8; 32] },
    /// The faucet call failed and the payment was given back.
    FundFailed { request_id: [u8; 32], refunded: T::Balance },
}

/// Why the vault itself refuses a call.
#[derive(Clone, Copy, Debug, PartialEq, Eq, Structural)]
pub enum Error {
    NotInitialized,
    AlreadyInitialized,
    DuplicateRequest,
    NotFound,
    Unauthorized,
    InvalidSignature,
    InvalidSigner,
    InvalidOutput,
    PalletUnderfunded,
    Serialization,
}

/// Why a call failed.
#[derive(Clone, Copy, Debug, PartialEq)]
pub enum CallError {
    /// The call was not signed.
    BadOrigin,
    /// The vault refused it.
    Vault(Error),
    /// The runtime failed to do its part.
    Runtime(sp_runtime::DispatchError),
}

/// How a call went.
pub type DispatchResult = Result<(), CallError>;

/// Where a call comes from.
#[derive(Clone, Debug, PartialEq)]
pub enum RawOrigin<AccountId> {
    /// The chain itself.
    Root,
    /// An account, by its signature.
    Signed(AccountId),
    /// Nobody.
    Unsigned,
}

/// The account that signed a call.
pub fn ensure_signed<AccountId>(origin: RawOrigin<AccountId>) -> (signer: Result<
    AccountId,
    CallError,
>)
    ensures
        signer == signer_of(origin),
{
    match origin {
        RawOrigin::Signed(who) => Ok(who),
        _ => Err(CallError::BadOrigin),
    }
}

/// The account that signed a call, where one did.
pub open spec fn signer_of<AccountId>(origin: RawOrigin<AccountId>) -> Result<
    AccountId,
    CallError,
> {
    match origin {
        RawOrigin::Signed(who) => Ok(who),
        _ => Err(CallError::BadOrigin),
    }
}

/// A point of the curve by its coordinates.
#[derive(Clone, Copy, Debug, PartialEq, Eq)]
pub struct AffinePoint {
    pub x: [u8; 32],
    pub y: [u8; 32],
}

/// A recoverable ECDSA signature.
#[derive(Clone, Copy, Debug, PartialEq, Eq)]
pub struct Signature {
    pub big_r: AffinePoint,
    pub s: [u8; 32],
    pub recovery_id: u8,
}

} // verus!
