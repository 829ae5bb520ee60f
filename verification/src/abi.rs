//! The faucet's Solidity interface: `fund(address to, uint256 amount, bytes32 requestId)`.
use vstd::prelude::*;

use crate::bytes::append_bytes;
use crate::bytes::be_bytes;
use crate::bytes::lemma_integer_lengths;
use crate::bytes::zeros;
use crate::outside::abi_encode_sequence;

verus! {

/// The first four bytes of the Keccak-256 digest of `fund(address,uint256,bytes32)`.
pub const FUND_SELECTOR: [u8; 4] = [0xe9, 0x1b, 0x63, 0x4e];

/// The call data of `fund(to, amount, request_id)`.
pub open spec fn fund_call_bytes(to: Seq<u8>, amount: u128, request_id: Seq<u8>) -> Seq<u8> {
    seq![0xe9u8, 0x1bu8, 0x63u8, 0x4eu8] + (zeros(12) + to + be_bytes(amount as nat, 32)
        + request_id)
}

/// Encodes the call `fund(to, amount, request_id)`.
pub fn fund_call(to: [u8; 20], amount: u128, request_id: [u8; 32]) -> (data: Vec<u8>)
    ensures
        data@ == fund_call_bytes(to@, amount, request_id@),
        data@.len() == 100,
{
    let arguments = abi_encode_sequence(to, amount, request_id);
    let mut data: Vec<u8> = Vec::new();
    append_bytes(&mut data, &FUND_SELECTOR);
    append_bytes(&mut data, &arguments);
    proof {
        lemma_integer_lengths(amount as nat, 32);
        assert(FUND_SELECTOR@ =~= seq![0xe9u8, 0x1bu8, 0x63u8, 0x4eu8]);
    }
    data
}

} // verus!
