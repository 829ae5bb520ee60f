//! The calls into outside crates, with what the library relies on of each.
use frame_support::traits::ConstU32;
use frame_support::BoundedVec;
use vstd::prelude::*;
use vstd::utf8::encode_utf8;
use vstd::utf8::valid_utf8;

use alloy_sol_types::SolValue;
use borsh::io::Error as BorshError;
use borsh::BorshDeserialize;
use parity_scale_codec::Encode;
use serde_json::Error as JsonError;
use sp_core::crypto::Ss58Codec;
use sp_runtime::traits::AccountIdConversion;

use crate::bytes::be_bytes;
use crate::bytes::le_bytes;
use crate::bytes::padded;
use crate::bytes::zeros;

verus! {

// ---- types -----------------------------------------------------------------

/// The error that a call into the runtime answers with.
#[verifier::external_type_specification]
#[verifier::external_body]
pub struct ExDispatchError(sp_runtime::DispatchError);

/// Why a public key could not be recovered from a signature.
#[verifier::external_type_specification]
#[verifier::external_body]
pub struct ExEcdsaVerifyError(sp_io::EcdsaVerifyError);

/// Why bytes are not the value they were read as.
#[verifier::external_type_specification]
#[verifier::external_body]
pub struct ExBorshError(BorshError);

/// Why a value could not be written as JSON.
#[verifier::external_type_specification]
#[verifier::external_body]
pub struct ExJsonError(JsonError);

/// Where bytes stop being UTF-8.
#[verifier::external_type_specification]
#[verifier::external_body]
pub struct ExUtf8Error(core::str::Utf8Error);

/// A vector whose length is bounded by its type.
#[verifier::external_type_specification]
#[verifier::external_body]
#[verifier::reject_recursive_types(T)]
#[verifier::reject_recursive_types(S)]
pub struct ExBoundedVec<T, S>(frame_support::BoundedVec<T, S>);

/// A number at the level of types.
#[verifier::external_type_specification]
#[verifier::external_body]
pub struct ExConstU32<const T: u32>(frame_support::traits::ConstU32<T>);

/// Bytes, at most [`MAX_SERIALIZED_OUTPUT_LENGTH`] of them.
pub type BoundedBytes = BoundedVec<u8, ConstU32<65536>>;

/// The bound of [`BoundedBytes`].
pub const MAX_SERIALIZED_OUTPUT_LENGTH: u32 = 65536;

// ---- names for outside results ---------------------------------------------

/// The bytes that a bounded vector holds.
pub uninterp spec fn bounded_bytes(bytes: BoundedVec<u8, ConstU32<65536>>) -> Seq<u8>;

/// The Keccak-256 digest of `data`.
pub uninterp spec fn keccak_256_digest(data: Seq<u8>) -> Seq<u8>;

/// The public key that the `R ++ S ++ V` signature `signature` of the hash
/// `message_hash` was made with, where there is one.
pub uninterp spec fn recovered_key(signature: Seq<u8>, message_hash: Seq<u8>) -> Option<Seq<u8>>;

/// The SS58 address of the account `account` on the network `prefix`.
pub uninterp spec fn ss58_address(account: Seq<u8>, prefix: u16) -> Seq<char>;

// ---- calls -----------------------------------------------------------------

/// `BoundedVec::try_from(Vec<u8>)`: succeeds on the vectors within the bound,
/// keeping their bytes, and hands any other vector back.
#[verifier::external_body]
pub(crate) fn bound_bytes(bytes: Vec<u8>) -> (bounded: Result<BoundedBytes, Vec<u8>>)
    ensures
        bounded is Ok <==> bytes@.len() <= MAX_SERIALIZED_OUTPUT_LENGTH,
        bounded matches Ok(b) ==> bounded_bytes(b) == bytes@,
        bounded matches Err(b) ==> b@ == bytes@,
{
    BoundedVec::try_from(bytes)
}

/// `BoundedVec::as_ref`: the bytes held, which are within the bound.
#[verifier::external_body]
pub(crate) fn bounded_slice(bytes: &BoundedBytes) -> (slice: &[u8])
    ensures
        slice@ == bounded_bytes(*bytes),
        slice@.len() <= MAX_SERIALIZED_OUTPUT_LENGTH,
{
    bytes.as_ref()
}

/// `sp_io::hashing::keccak_256`: a digest that depends on the data alone.
#[verifier::external_body]
pub(crate) fn keccak_256(data: &[u8]) -> (digest: [u8; 32])
    ensures
        digest@ == keccak_256_digest(data@),
{
    sp_io::hashing::keccak_256(data)
}

/// `sp_io::crypto::secp256k1_ecdsa_recover`: a key, or the finding that there is
/// none, which depends on the signature and the hash alone. Which of its errors
/// comes is left unsaid.
#[verifier::external_body]
pub(crate) fn ecdsa_recover(signature: &[u8; 65], message_hash: &[u8; 32]) -> (key: Result<
    [u8; 64],
    sp_io::EcdsaVerifyError,
>)
    ensures
        key is Ok <==> recovered_key(signature@, message_hash@) is Some,
        key matches Ok(k) ==> recovered_key(signature@, message_hash@) == Some(k@),
{
    sp_io::crypto::secp256k1_ecdsa_recover(signature, message_hash)
}

/// `Ss58Codec::to_ss58check_with_version` of an `AccountId32`: an address that
/// depends on the account's bytes and the network prefix alone.
#[verifier::external_body]
pub(crate) fn to_ss58check(account: [u8; 32], prefix: u16) -> (address: String)
    ensures
        address@ == ss58_address(account@, prefix),
{
    let format = sp_core::crypto::Ss58AddressFormat::custom(prefix);
    sp_runtime::AccountId32::from(account).to_ss58check_with_version(format)
}

/// `core::str::from_utf8`: succeeds exactly on UTF-8, and the text is written by
/// the bytes it was read from.
pub assume_specification[ core::str::from_utf8 ](v: &[u8]) -> (text: Result<
    &str,
    core::str::Utf8Error,
>)
    ensures
        text is Ok <==> valid_utf8(v@),
        text matches Ok(t) ==> encode_utf8(t@) == v@,
;

/// `SolValue::abi_encode_packed` of a tuple of strings, bytes and `uint32`s: the
/// parts in their order, strings as UTF-8, numbers as four bytes with the most
/// significant first, with nothing between them.
#[verifier::external_body]
pub(crate) fn abi_encode_packed(
    sender: &str,
    transaction_data: &[u8],
    slip44_chain_id: u32,
    key_version: u32,
    path: &str,
    algo: &str,
    dest: &str,
    params: &str,
) -> (packed: Vec<u8>)
    ensures
        packed@ == encode_utf8(sender@) + transaction_data@ + be_bytes(slip44_chain_id as nat, 4)
            + be_bytes(key_version as nat, 4) + encode_utf8(path@) + encode_utf8(algo@)
            + encode_utf8(dest@) + encode_utf8(params@),
{
    (sender, transaction_data, slip44_chain_id, key_version, path, algo, dest, params)
        .abi_encode_packed()
}

/// `SolValue::abi_encode_sequence` of `(address, uint256, bytes32)`: three words
/// of 32 bytes, the address and the number filled up with zeros on the left.
#[verifier::external_body]
pub(crate) fn abi_encode_sequence(to: [u8; 20], amount: u128, word: [u8; 32]) -> (encoded: Vec<u8>)
    ensures
        encoded@ == zeros(12) + to@ + be_bytes(amount as nat, 32) + word@,
{
    (
        alloy_primitives::Address::from_slice(&to),
        alloy_primitives::U256::from(amount),
        alloy_primitives::FixedBytes(word),
    ).abi_encode_sequence()
}

/// `bool::try_from_slice` of Borsh: `false` is the byte 0 and `true` the byte 1,
/// and nothing else is a `bool`.
#[verifier::external_body]
pub(crate) fn borsh_bool(bytes: &[u8]) -> (value: Result<bool, BorshError>)
    ensures
        value is Ok <==> (bytes@.len() == 1 && (bytes@[0] == 0 || bytes@[0] == 1)),
        value matches Ok(b) ==> (b <==> bytes@[0] == 1),
{
    bool::try_from_slice(bytes)
}

/// Whether JSON writes the bytes of a string as they are: no control character,
/// quotation mark or backslash among them.
pub open spec fn json_plain(text: Seq<u8>) -> bool {
    forall|i: int|
        0 <= i < text.len() ==> #[trigger] text[i] >= 0x20 && text[i] != 0x22 && text[i] != 0x5c
}

/// `serde_json::to_vec` of a string value: a text with nothing to escape is
/// written between quotation marks.
#[verifier::external_body]
pub(crate) fn json_string(text: &str) -> (json: Result<Vec<u8>, JsonError>)
    requires
        json_plain(encode_utf8(text@)),
    ensures
        json is Ok,
        json matches Ok(j) ==> j@ == seq![0x22u8] + encode_utf8(text@) + seq![0x22u8],
{
    serde_json::to_vec(&serde_json::Value::String(text.to_string()))
}

/// `Encode::encode` of a `u64`: its eight bytes, the least significant first.
#[verifier::external_body]
pub(crate) fn encode_u64(value: u64) -> (encoded: Vec<u8>)
    ensures
        encoded@ == le_bytes(value as nat, 8),
{
    value.encode()
}

/// `Encode::encode` of an array of bytes: the bytes, with no length before them.
#[verifier::external_body]
pub(crate) fn encode_array<const N: usize>(bytes: &[u8; N]) -> (encoded: Vec<u8>)
    ensures
        encoded@ == bytes@,
{
    bytes.encode()
}

/// The bytes that a pallet's account is made from: `modl`, then the pallet's id.
pub open spec fn pallet_seed(pallet_id: Seq<u8>) -> Seq<u8> {
    seq![0x6du8, 0x6fu8, 0x64u8, 0x6cu8] + pallet_id
}

/// `AccountIdConversion::into_account_truncating` of a `PalletId`, for `u64`
/// accounts: the number that is written by the first eight bytes of the seed.
#[verifier::external_body]
pub(crate) fn pallet_account_u64(pallet_id: [u8; 8]) -> (account: u64)
    ensures
        le_bytes(account as nat, 8) == padded(pallet_seed(pallet_id@), 8),
{
    frame_support::PalletId(pallet_id).into_account_truncating()
}

/// `AccountIdConversion::into_account_truncating` of a `PalletId`, for accounts
/// that are arrays of bytes: the seed, cut or filled up with zeros.
#[verifier::external_body]
pub(crate) fn pallet_account_array<const N: usize>(pallet_id: [u8; 8]) -> (account: [u8; N])
    ensures
        account@ == padded(pallet_seed(pallet_id@), N as nat),
{
    frame_support::PalletId(pallet_id).into_account_truncating()
}

} // verus!
