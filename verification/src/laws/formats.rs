//! What the byte formats hold, part by part.
use vstd::prelude::*;
use vstd::utf8::encode_utf8;
use vstd::utf8::encode_utf8_valid_utf8;
use vstd::utf8::is_ascii_chars_encode_utf8;
use vstd::utf8::valid_utf8;

use crate::abi::fund_call_bytes;
use crate::bytes::be_bytes;
use crate::bytes::le_bytes;
use crate::bytes::lemma_integer_lengths;
use crate::bytes::padded;
use crate::bytes::zeros;
use crate::config::lemma_pallet_account_unique;
use crate::config::Account;
use crate::config::Config;
use crate::flow::reply_view;
use crate::flow::Action;
use crate::flow::ActionView;
use crate::flow::BuildEvmTx;
use crate::flow::Reply;
use crate::flow::SignRespond;
use crate::flow::Step;
use crate::flow::StepView;
use crate::messages::outcome_of;
use crate::messages::request_digest;
use crate::messages::request_preimage;
use crate::messages::signature_verdict;
use crate::messages::text_bytes;
use crate::outside::bounded_bytes;
use crate::outside::keccak_256_digest;
use crate::outside::recovered_key;
use crate::outside::ss58_address;
use crate::rules::lemma_array_of;
use crate::rules::request_id_of;
use crate::rules::State;
use crate::rules::ECDSA;
use crate::rules::ETHEREUM;
use crate::rules::KEY_VERSION;
use crate::rules::SLIP44_ETHEREUM;
use crate::types::signer_of;
use crate::types::CallError;
use crate::types::Error;
use crate::types::RawOrigin;
use crate::types::Signature;
use crate::types::SEPOLIA_VAULT_ADDRESS;

verus! {

// ---- bytes and texts -------------------------------------------------------

/// Padding keeps the bytes that there is room for, in their places, and puts
/// zeros behind them: where there are no bytes, zeros only.
pub proof fn law_padding_keeps_a_prefix(bytes: Seq<u8>, width: nat, i: int)
    requires
        0 <= i < width,
    ensures
        padded(bytes, width).len() == width,
        i < bytes.len() ==> padded(bytes, width)[i] == bytes[i],
        i >= bytes.len() ==> padded(bytes, width)[i] == 0,
        zeros(width).len() == width,
        zeros(width)[i] == 0,
{
}

/// A text field holds exactly the bytes given where they are UTF-8, and nothing
/// where they are not.
pub proof fn law_text_is_all_or_nothing(bytes: Seq<u8>)
    ensures
        valid_utf8(bytes) ==> text_bytes(bytes) == bytes,
        !valid_utf8(bytes) ==> text_bytes(bytes).len() == 0,
{
}

/// The vault's account is the one encoded by the bytes `modl` and the vault's id,
/// cut or filled up to the width of an account.
pub proof fn law_vault_account_is_made_from_its_id<T: Config>(
    state: State<T>,
    account: T::AccountId,
)
    requires
        account.encoded() == padded(
            seq![0x6du8, 0x6fu8, 0x64u8, 0x6cu8] + state.pallet_id@,
            T::AccountId::width(),
        ),
    ensures
        state.account() == account,
{
    lemma_pallet_account_unique(account, state.pallet_id);
}

/// Accounts are encoded as SCALE does: a number by its eight bytes, the least
/// significant first, and an array by the bytes in it.
pub proof fn law_accounts_are_encoded_by_their_bytes<const N: usize>(number: u64, array: [u8; N])
    ensures
        number.encoded() == le_bytes(number as nat, 8),
        array.encoded() == array@,
{
}

/// Only a signature tells who makes a call.
pub proof fn law_only_signed_calls_have_a_signer<A>(origin: RawOrigin<A>)
    ensures
        match origin {
            RawOrigin::Signed(who) => signer_of(origin) == Ok::<A, CallError>(who),
            RawOrigin::Root => signer_of(origin) == Err::<A, CallError>(CallError::BadOrigin),
            RawOrigin::Unsigned => signer_of(origin) == Err::<A, CallError>(CallError::BadOrigin),
        },
{
}

/// The vault's address on the Sepolia test network, as the five words that it is.
pub proof fn law_sepolia_address()
    ensures
        SEPOLIA_VAULT_ADDRESS@ == be_bytes(0x00A40C26, 4) + be_bytes(0x61293d51, 4) + be_bytes(
            0x34E53Da5,
            4,
        ) + be_bytes(0x2951A3F7, 4) + be_bytes(0x767836Ef, 4),
{
    reveal_with_fuel(be_bytes, 5);
    assert(be_bytes(0x00A40C26, 4) =~= seq![0x00u8, 0xA4u8, 0x0Cu8, 0x26u8]);
    assert(be_bytes(0x61293d51, 4) =~= seq![0x61u8, 0x29u8, 0x3du8, 0x51u8]);
    assert(be_bytes(0x34E53Da5, 4) =~= seq![0x34u8, 0xE5u8, 0x3Du8, 0xa5u8]);
    assert(be_bytes(0x2951A3F7, 4) =~= seq![0x29u8, 0x51u8, 0xA3u8, 0xF7u8]);
    assert(be_bytes(0x767836Ef, 4) =~= seq![0x76u8, 0x78u8, 0x36u8, 0xEfu8]);
}

// ---- call data -------------------------------------------------------------

/// Whether `data` is a call of `fund(to, amount, word)`: the function's selector,
/// the address behind twelve zeros, the amount and the word.
pub open spec fn funds(data: Seq<u8>, to: Seq<u8>, amount: u128, word: Seq<u8>) -> bool {
    &&& data.len() == 100
    &&& data.subrange(0, 4) == seq![0xe9u8, 0x1bu8, 0x63u8, 0x4eu8]
    &&& data.subrange(4, 16) == zeros(12)
    &&& data.subrange(16, 36) == to
    &&& data.subrange(36, 68) == be_bytes(amount as nat, 32)
    &&& data.subrange(68, 100) == word
}

/// The call data of `fund` holds each argument in its own place.
pub proof fn law_call_data_holds_its_arguments(to: [u8; 20], amount: u128, word: Seq<u8>)
    requires
        word.len() == 32,
    ensures
        funds(fund_call_bytes(to@, amount, word), to@, amount, word),
{
    let data = fund_call_bytes(to@, amount, word);
    lemma_integer_lengths(amount as nat, 32);
    assert(data.subrange(0, 4) =~= seq![0xe9u8, 0x1bu8, 0x63u8, 0x4eu8]);
    assert(data.subrange(4, 16) =~= zeros(12));
    assert(data.subrange(16, 36) =~= to@);
    assert(data.subrange(36, 68) =~= be_bytes(amount as nat, 32));
    assert(data.subrange(68, 100) =~= word);
}

// ---- request ids -----------------------------------------------------------

/// A request id is the digest of the sender's address on the network with the
/// prefix 0, the transaction, both numbers and the four texts, in this order.
pub proof fn law_digest_covers_every_part<A: Account>(
    sender: A,
    transaction_data: Seq<u8>,
    slip44_chain_id: u32,
    key_version: u32,
    path: Seq<u8>,
    algo: Seq<u8>,
    dest: Seq<u8>,
    params: Seq<u8>,
)
    requires
        valid_utf8(path),
        valid_utf8(algo),
        valid_utf8(dest),
        valid_utf8(params),
    ensures
        request_digest(
            sender,
            transaction_data,
            slip44_chain_id,
            key_version,
            path,
            algo,
            dest,
            params,
        ) == keccak_256_digest(
            encode_utf8(ss58_address(padded(sender.encoded(), 32), 0)) + transaction_data
                + be_bytes(slip44_chain_id as nat, 4) + be_bytes(key_version as nat, 4) + path
                + algo + dest + params,
        ),
{
}

/// A text that is not UTF-8 counts as no text, whichever of the four it is.
pub proof fn law_digest_skips_what_is_no_text<A: Account>(
    sender: A,
    transaction_data: Seq<u8>,
    slip44_chain_id: u32,
    key_version: u32,
    path: Seq<u8>,
    algo: Seq<u8>,
    dest: Seq<u8>,
    params: Seq<u8>,
)
    ensures
        ({
            let (t, c, k) = (transaction_data, slip44_chain_id, key_version);
            let none = Seq::<u8>::empty();
            let digest = request_digest(sender, t, c, k, path, algo, dest, params);
            &&& !valid_utf8(path) ==> digest == request_digest(
                sender,
                t,
                c,
                k,
                none,
                algo,
                dest,
                params,
            )
            &&& !valid_utf8(algo) ==> digest == request_digest(
                sender,
                t,
                c,
                k,
                path,
                none,
                dest,
                params,
            )
            &&& !valid_utf8(dest) ==> digest == request_digest(
                sender,
                t,
                c,
                k,
                path,
                algo,
                none,
                params,
            )
            &&& !valid_utf8(params) ==> digest == request_digest(
                sender,
                t,
                c,
                k,
                path,
                algo,
                dest,
                none,
            )
        }),
{
}

/// What is hashed starts with the sender: under addresses of one length, what is
/// hashed for two senders is never the same. Nor is it for two transactions of one
/// length, where the rest is the same.
pub proof fn law_preimage_tells_senders_and_transactions_apart(
    a_sender: Seq<char>,
    a_data: Seq<u8>,
    b_sender: Seq<char>,
    b_data: Seq<u8>,
    slip44_chain_id: u32,
    key_version: u32,
    path: Seq<u8>,
    algo: Seq<u8>,
    dest: Seq<u8>,
    params: Seq<u8>,
)
    requires
        encode_utf8(a_sender).len() == encode_utf8(b_sender).len(),
        request_preimage(
            a_sender,
            a_data,
            slip44_chain_id,
            key_version,
            path,
            algo,
            dest,
            params,
        ) == request_preimage(
            b_sender,
            b_data,
            slip44_chain_id,
            key_version,
            path,
            algo,
            dest,
            params,
        ),
    ensures
        encode_utf8(a_sender) == encode_utf8(b_sender),
        a_data == b_data,
{
    let a = request_preimage(
        a_sender,
        a_data,
        slip44_chain_id,
        key_version,
        path,
        algo,
        dest,
        params,
    );
    let b = request_preimage(
        b_sender,
        b_data,
        slip44_chain_id,
        key_version,
        path,
        algo,
        dest,
        params,
    );
    let rest = be_bytes(slip44_chain_id as nat, 4) + be_bytes(key_version as nat, 4) + text_bytes(
        path,
    ) + text_bytes(algo) + text_bytes(dest) + text_bytes(params);
    let (a_address, b_address) = (encode_utf8(a_sender), encode_utf8(b_sender));
    assert(a =~= a_address + a_data + rest);
    assert(b =~= b_address + b_data + rest);
    lemma_parts_are_told_apart(a_address, a_data, b_address, b_data, rest);
}

/// Byte strings of three parts, the first of one length and the last the same, are
/// equal only where all their parts are.
proof fn lemma_parts_are_told_apart(
    a_head: Seq<u8>,
    a_body: Seq<u8>,
    b_head: Seq<u8>,
    b_body: Seq<u8>,
    tail: Seq<u8>,
)
    requires
        a_head.len() == b_head.len(),
        a_head + a_body + tail == b_head + b_body + tail,
    ensures
        a_head == b_head,
        a_body == b_body,
{
    let (a, b) = (a_head + a_body + tail, b_head + b_body + tail);
    let n = a_head.len() as int;
    assert(a.len() == n + a_body.len() + tail.len());
    assert(b.len() == n + b_body.len() + tail.len());
    assert(a.subrange(0, n) =~= a_head);
    assert(b.subrange(0, n) =~= b_head);
    assert(a.subrange(n, n + a_body.len()) =~= a_body);
    assert(b.subrange(n, n + b_body.len()) =~= b_body);
}

/// What the id of a request for a faucet call is the digest of: the requester's
/// address, the draft transaction, the coin type 60 and the key version 0 in four
/// bytes each, the requester's encoding where it is a text, `ecdsa` and
/// `ethereum`.
pub open spec fn identifying_bytes<A: Account>(requester: A, draft: Seq<u8>) -> Seq<u8> {
    encode_utf8(ss58_address(padded(requester.encoded(), 32), 0)) + draft + seq![
        0u8,
        0u8,
        0u8,
        60u8,
    ] + seq![0u8, 0u8, 0u8, 0u8] + (if valid_utf8(requester.encoded()) {
        requester.encoded()
    } else {
        Seq::empty()
    }) + seq![0x65u8, 0x63u8, 0x64u8, 0x73u8, 0x61u8] + seq![
        0x65u8,
        0x74u8,
        0x68u8,
        0x65u8,
        0x72u8,
        0x65u8,
        0x75u8,
        0x6du8,
    ]
}

/// A request for a faucet call is digested by its [`identifying_bytes`].
pub proof fn lemma_identifying_bytes<A: Account>(requester: A, draft: Seq<u8>)
    ensures
        request_digest(
            requester,
            draft,
            SLIP44_ETHEREUM,
            KEY_VERSION,
            requester.encoded(),
            ECDSA@,
            ETHEREUM@,
            Seq::empty(),
        ) == keccak_256_digest(identifying_bytes(requester, draft)),
{
    let ecdsa = seq![0x65u8, 0x63u8, 0x64u8, 0x73u8, 0x61u8];
    let ethereum = seq![0x65u8, 0x74u8, 0x68u8, 0x65u8, 0x72u8, 0x65u8, 0x75u8, 0x6du8];
    reveal_strlit("ecdsa");
    reveal_strlit("ethereum");
    is_ascii_chars_encode_utf8("ecdsa"@);
    is_ascii_chars_encode_utf8("ethereum"@);
    encode_utf8_valid_utf8("ecdsa"@);
    encode_utf8_valid_utf8("ethereum"@);
    assert(encode_utf8("ecdsa"@) =~= ecdsa);
    assert(encode_utf8("ethereum"@) =~= ethereum);
    assert(ECDSA@ =~= ecdsa);
    assert(ETHEREUM@ =~= ethereum);
    reveal_with_fuel(be_bytes, 5);
    assert(be_bytes(60, 4) =~= seq![0u8, 0u8, 0u8, 60u8]);
    assert(be_bytes(0, 4) =~= seq![0u8, 0u8, 0u8, 0u8]);
    assert(request_preimage(
        ss58_address(padded(requester.encoded(), 32), 0),
        draft,
        SLIP44_ETHEREUM,
        KEY_VERSION,
        requester.encoded(),
        ECDSA@,
        ETHEREUM@,
        Seq::empty(),
    ) =~= identifying_bytes(requester, draft));
}

/// The id of a request is the digest of [`identifying_bytes`]: of its own
/// requester and of its own draft.
pub proof fn law_request_id_identifies_the_request<A: Account>(
    requester: A,
    draft: Seq<u8>,
    request_id: [u8; 32],
)
    requires
        request_id@ == keccak_256_digest(identifying_bytes(requester, draft)),
    ensures
        request_id_of(requester, draft) == request_id,
{
    lemma_identifying_bytes(requester, draft);
    lemma_array_of(request_id);
}

// ---- responses -------------------------------------------------------------

/// Whether `signature`, as `R ++ S ++ V`, recovers to a key on `message_hash`.
pub open spec fn recovers(signature: Signature, message_hash: Seq<u8>) -> bool {
    &&& signature.recovery_id < 4
    &&& recovered_key(
        signature.big_r.x@ + signature.s@ + seq![signature.recovery_id],
        message_hash,
    ) is Some
}

/// Whether that key's address is `address`: the last 20 bytes of its digest.
pub open spec fn recovers_to(
    signature: Signature,
    message_hash: Seq<u8>,
    address: Seq<u8>,
) -> bool {
    &&& recovers(signature, message_hash)
    &&& keccak_256_digest(
        recovered_key(
            signature.big_r.x@ + signature.s@ + seq![signature.recovery_id],
            message_hash,
        )->Some_0,
    ).subrange(12, 32) == address
}

/// A signature is accepted exactly where it recovers to the expected address. One
/// that recovers to another is another signer's, and one that does not recover is
/// no signature.
pub proof fn law_genuine_signatures_are_accepted(
    message_hash: Seq<u8>,
    signature: Signature,
    expected_address: Seq<u8>,
)
    ensures
        recovers_to(signature, message_hash, expected_address) <==> signature_verdict(
            message_hash,
            signature,
            expected_address,
        ) == Ok::<(), Error>(()),
        recovers(signature, message_hash) && !recovers_to(
            signature,
            message_hash,
            expected_address,
        ) <==> signature_verdict(message_hash, signature, expected_address) == Err::<(), Error>(
            Error::InvalidSigner,
        ),
        !recovers(signature, message_hash) <==> signature_verdict(
            message_hash,
            signature,
            expected_address,
        ) == Err::<(), Error>(Error::InvalidSignature),
{
}

/// The output is the one byte 1 for a success, the one byte 0 for a failure, and
/// nothing else.
pub proof fn law_output_is_one_byte(output: Seq<u8>)
    ensures
        outcome_of(output) == Ok::<bool, Error>(true) <==> output == seq![1u8],
        outcome_of(output) == Ok::<bool, Error>(false) <==> output == seq![0u8],
        outcome_of(output) is Err ==> outcome_of(output) == Err::<bool, Error>(
            Error::InvalidOutput,
        ),
{
    if output.len() == 1 {
        assert(output =~= seq![output[0]]);
    }
}

// ---- models ----------------------------------------------------------------

/// The model of an order to build holds every field of the order.
pub proof fn law_build_order_is_modelled_whole<A>(build: BuildEvmTx<A>)
    ensures
        build@.origin == build.origin,
        build@.to == build.to,
        build@.value == build.value,
        build@.data == build.data@,
        build@.nonce == build.nonce,
        build@.gas_limit == build.gas_limit,
        build@.max_fee_per_gas == build.max_fee_per_gas,
        build@.max_priority_fee_per_gas == build.max_priority_fee_per_gas,
        build@.access_list == build.access_list@,
        build@.chain_id == build.chain_id,
{
}

/// The model of an order to the signing service holds every field of the order.
pub proof fn law_signing_order_is_modelled_whole<A>(order: SignRespond<A>)
    ensures
        order@.origin == order.origin,
        order@.serialized_transaction == bounded_bytes(order.serialized_transaction),
        order@.slip44_chain_id == order.slip44_chain_id,
        order@.key_version == order.key_version,
        order@.path == order.path@,
        order@.algo == order.algo@,
        order@.dest == order.dest@,
        order@.params == order.params@,
        order@.explorer_deserialization_format == order.explorer_deserialization_format,
        order@.explorer_deserialization_schema == order.explorer_deserialization_schema@,
        order@.callback_serialization_format == order.callback_serialization_format,
        order@.callback_serialization_schema == order.callback_serialization_schema@,
{
}

/// The models of actions, steps and replies tell what they are models of.
pub proof fn law_steps_are_modelled_whole<A, B>(
    action: Action<A, B>,
    step: Step<A, B>,
    reply: Reply,
)
    ensures
        match action {
            Action::Transfer(transfer) => action@ == ActionView::<A, B>::Transfer(transfer),
            Action::BuildEvmTx(build) => action@ == ActionView::<A, B>::BuildEvmTx(build@),
            Action::SignRespond(order) => action@ == ActionView::<A, B>::SignRespond(order@),
        },
        match step {
            Step::Perform { request, action: next } => step@ == (StepView::<A, B>::Perform {
                request,
                action: next@,
            }),
            Step::Finished(result) => step@ == StepView::<A, B>::Finished(result),
        },
        match reply {
            Ok(bytes) => reply_view(reply) == Ok::<Seq<u8>, sp_runtime::DispatchError>(bytes@),
            Err(error) => reply_view(reply) == Err::<Seq<u8>, sp_runtime::DispatchError>(error),
        },
{
}

} // verus!
