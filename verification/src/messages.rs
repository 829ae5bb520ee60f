//! What is hashed and signed: request ids, response digests and signatures.
use vstd::prelude::*;
use vstd::utf8::encode_utf8;
use vstd::utf8::valid_utf8;

use crate::bytes::append_bytes;
use crate::bytes::be_bytes;
use crate::bytes::padded;
use crate::bytes::same_bytes;
use crate::config::Account;
use crate::outside::abi_encode_packed;
use crate::outside::borsh_bool;
use crate::outside::ecdsa_recover;
use crate::outside::keccak_256;
use crate::outside::keccak_256_digest;
use crate::outside::recovered_key;
use crate::outside::ss58_address;
use crate::outside::to_ss58check;
use crate::types::Error;
use crate::types::Signature;

verus! {

// ---- request ids -----------------------------------------------------------

/// The bytes of a text field: those given, or none where they are not UTF-8.
pub open spec fn text_bytes(bytes: Seq<u8>) -> Seq<u8> {
    if valid_utf8(bytes) {
        bytes
    } else {
        Seq::empty()
    }
}

/// What a request id is the digest of, for a sender with the address `sender`.
pub open spec fn request_preimage(
    sender: Seq<char>,
    transaction_data: Seq<u8>,
    slip44_chain_id: u32,
    key_version: u32,
    path: Seq<u8>,
    algo: Seq<u8>,
    dest: Seq<u8>,
    params: Seq<u8>,
) -> Seq<u8> {
    encode_utf8(sender) + transaction_data + be_bytes(slip44_chain_id as nat, 4) + be_bytes(
        key_version as nat,
        4,
    ) + text_bytes(path) + text_bytes(algo) + text_bytes(dest) + text_bytes(params)
}

/// The text that `bytes` are, or the empty text where they are not UTF-8.
pub fn text_or_empty(bytes: &[u8]) -> (text: &str)
    ensures
        encode_utf8(text@) == text_bytes(bytes@),
{
    match core::str::from_utf8(bytes) {
        Ok(text) => text,
        Err(_) => {
            proof {
                reveal_strlit("");
            }
            ""
        },
    }
}

/// Packs a request for the sender with the address `sender`.
pub fn pack_request(
    sender: &str,
    transaction_data: &[u8],
    slip44_chain_id: u32,
    key_version: u32,
    path: &[u8],
    algo: &[u8],
    dest: &[u8],
    params: &[u8],
) -> (packed: Vec<u8>)
    ensures
        packed@ == request_preimage(
            sender@,
            transaction_data@,
            slip44_chain_id,
            key_version,
            path@,
            algo@,
            dest@,
            params@,
        ),
{
    abi_encode_packed(
        sender,
        transaction_data,
        slip44_chain_id,
        key_version,
        text_or_empty(path),
        text_or_empty(algo),
        text_or_empty(dest),
        text_or_empty(params),
    )
}

/// `bytes` cut or filled up with zeros to an account of 32 bytes.
pub fn account_bytes(bytes: &[u8]) -> (account: [u8; 32])
    ensures
        account@ == padded(bytes@, 32),
{
    let mut account: [u8; 32] = [0u8;32];
    let mut i: usize = 0;
    while i < 32 && i < bytes.len()
        invariant
            i <= 32,
            i <= bytes.len(),
            forall|j: int| 0 <= j < i ==> account@[j] == bytes@[j],
            forall|j: int| i <= j < 32 ==> account@[j] == 0,
        decreases 32 - i,
    {
        account[i] = bytes[i];
        i += 1;
    }
    assert(account@ =~= padded(bytes@, 32));
    account
}

/// The digest that identifies a request of `sender`.
pub open spec fn request_digest<A: Account>(
    sender: A,
    transaction_data: Seq<u8>,
    slip44_chain_id: u32,
    key_version: u32,
    path: Seq<u8>,
    algo: Seq<u8>,
    dest: Seq<u8>,
    params: Seq<u8>,
) -> Seq<u8> {
    keccak_256_digest(
        request_preimage(
            ss58_address(padded(sender.encoded(), 32), 0),
            transaction_data,
            slip44_chain_id,
            key_version,
            path,
            algo,
            dest,
            params,
        ),
    )
}

/// Identifies a request by its sender, taken as a 32 byte account on the network
/// with the prefix 0, and by everything that is to be signed.
pub fn generate_request_id<A: Account>(
    sender: &A,
    transaction_data: &[u8],
    slip44_chain_id: u32,
    key_version: u32,
    path: &[u8],
    algo: &[u8],
    dest: &[u8],
    params: &[u8],
) -> (request_id: [u8; 32])
    ensures
        request_id@ == request_digest(
            *sender,
            transaction_data@,
            slip44_chain_id,
            key_version,
            path@,
            algo@,
            dest@,
            params@,
        ),
{
    let encoded = sender.encode();
    let address = to_ss58check(account_bytes(&encoded), 0);
    let packed = pack_request(
        address.as_str(),
        transaction_data,
        slip44_chain_id,
        key_version,
        path,
        algo,
        dest,
        params,
    );
    keccak_256(&packed)
}

// ---- responses -------------------------------------------------------------

/// What the signing service signs: the request id, then the output.
pub fn response_preimage(request_id: &[u8; 32], output: &[u8]) -> (data: Vec<u8>)
    ensures
        data@ == request_id@ + output@,
{
    let mut data: Vec<u8> = Vec::new();
    append_bytes(&mut data, request_id);
    append_bytes(&mut data, output);
    data
}

/// The digest of a response.
pub fn hash_message(request_id: &[u8; 32], output: &[u8]) -> (digest: [u8; 32])
    ensures
        digest@ == keccak_256_digest(request_id@ + output@),
{
    let data = response_preimage(request_id, output);
    keccak_256(&data)
}

/// What the service's output says of the call: whether it went through.
pub open spec fn outcome_of(output: Seq<u8>) -> Result<bool, Error> {
    if output.len() == 1 && output[0] == 1 {
        Ok(true)
    } else if output.len() == 1 && output[0] == 0 {
        Ok(false)
    } else {
        Err(Error::InvalidOutput)
    }
}

/// Reads the service's output.
pub fn decode_outcome(output: &[u8]) -> (outcome: Result<bool, Error>)
    ensures
        outcome == outcome_of(output@),
{
    match borsh_bool(output) {
        Ok(ok) => Ok(ok),
        Err(_) => Err(Error::InvalidOutput),
    }
}

// ---- signatures ------------------------------------------------------------

/// A signature as `R ++ S ++ V`.
pub open spec fn rsv(signature: Signature) -> Seq<u8> {
    signature.big_r.x@ + signature.s@ + seq![signature.recovery_id]
}

/// Writes a signature down as `R ++ S ++ V`.
pub fn signature_bytes(signature: &Signature) -> (bytes: [u8; 65])
    ensures
        bytes@ == rsv(*signature),
{
    let mut bytes: [u8; 65] = [0u8;65];
    let mut i: usize = 0;
    while i < 32
        invariant
            i <= 32,
            forall|j: int| 0 <= j < i ==> bytes@[j] == signature.big_r.x@[j],
            forall|j: int| 0 <= j < i ==> bytes@[j + 32] == signature.s@[j],
        decreases 32 - i,
    {
        bytes[i] = signature.big_r.x[i];
        bytes[i + 32] = signature.s[i];
        i += 1;
    }
    bytes[64] = signature.recovery_id;
    proof {
        assert forall|j: int| 0 <= j < 65 implies bytes@[j] == rsv(*signature)[j] by {
            if 32 <= j < 64 {
                assert(bytes@[(j - 32) + 32] == signature.s@[j - 32]);
            }
        }
        assert(bytes@ =~= rsv(*signature));
    }
    bytes
}

/// The EVM address of the holder of a public key, by the key's digest.
pub open spec fn address_of(key_digest: Seq<u8>) -> Seq<u8> {
    key_digest.subrange(12, 32)
}

/// Whether the key with the digest `key_digest` belongs to `expected_address`.
pub fn check_signer(key_digest: &[u8; 32], expected_address: &[u8; 20]) -> (verdict: Result<
    (),
    Error,
>)
    ensures
        verdict == if address_of(key_digest@) == expected_address@ {
            Ok::<(), Error>(())
        } else {
            Err(Error::InvalidSigner)
        },
{
    let address = vstd::slice::slice_subrange(key_digest.as_slice(), 12, 32);
    if same_bytes(address, expected_address) {
        Ok(())
    } else {
        Err(Error::InvalidSigner)
    }
}

/// Whether `signature` is the one of `expected_address` on `message_hash`.
pub open spec fn signature_verdict(
    message_hash: Seq<u8>,
    signature: Signature,
    expected_address: Seq<u8>,
) -> Result<(), Error> {
    if signature.recovery_id >= 4 {
        Err(Error::InvalidSignature)
    } else {
        match recovered_key(rsv(signature), message_hash) {
            None => Err(Error::InvalidSignature),
            Some(key) => if address_of(keccak_256_digest(key)) == expected_address {
                Ok(())
            } else {
                Err(Error::InvalidSigner)
            },
        }
    }
}

/// Checks that `signature` is the one of `expected_address` on `message_hash`.
pub fn verify_signature_from_address(
    message_hash: &[u8; 32],
    signature: &Signature,
    expected_address: &[u8; 20],
) -> (verdict: Result<(), Error>)
    ensures
        verdict == signature_verdict(message_hash@, *signature, expected_address@),
{
    if signature.recovery_id >= 4 {
        return Err(Error::InvalidSignature);
    }
    let bytes = signature_bytes(signature);
    match ecdsa_recover(&bytes, message_hash) {
        Ok(key) => {
            let key_digest = keccak_256(key.as_slice());
            check_signer(&key_digest, expected_address)
        },
        Err(_) => Err(Error::InvalidSignature),
    }
}

} // verus!
