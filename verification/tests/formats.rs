use erc20_vault::abi::{fund_call, FUND_SELECTOR};
use erc20_vault::bytes::{append_bytes, same_bytes};
use erc20_vault::messages::{
    account_bytes, check_signer, decode_outcome, generate_request_id, hash_message, pack_request,
    response_preimage, signature_bytes, text_or_empty, verify_signature_from_address,
};
use erc20_vault::pallet::callback_schema;
use erc20_vault::requests::RequestMap;
use erc20_vault::types::{ensure_signed, AffinePoint, CallError, RawOrigin, Signature};
use erc20_vault::{Account, Error, SEPOLIA_VAULT_ADDRESS};
use sp_io::hashing::keccak_256;

#[test]
fn selector_is_that_of_fund() {
    assert_eq!(FUND_SELECTOR, keccak_256(b"fund(address,uint256,bytes32)")[..4]);
}

#[test]
fn fund_call_has_three_words() {
    let data = fund_call([5; 20], 0x0102_0304_0506_0708_090a_0b0c_0d0e_0f10, [9; 32]);
    assert_eq!(data.len(), 100);
    assert_eq!(data[..4], [0xe9, 0x1b, 0x63, 0x4e]);
    assert_eq!(data[4..16], [0; 12]);
    assert_eq!(data[16..36], [5; 20]);
    assert_eq!(data[36..52], [0; 16]);
    assert_eq!(data[52..68], [1, 2, 3, 4, 5, 6, 7, 8, 9, 10, 11, 12, 13, 14, 15, 16]);
    assert_eq!(data[68..], [9; 32]);
}

#[test]
fn fund_calls_differ_in_every_argument() {
    let data = fund_call([5; 20], 1, [9; 32]);
    assert_ne!(data, fund_call([6; 20], 1, [9; 32]));
    assert_ne!(data, fund_call([5; 20], 2, [9; 32]));
    assert_ne!(data, fund_call([5; 20], 1, [8; 32]));
    assert_eq!(fund_call([5; 20], u128::MAX, [9; 32])[52..68], [0xff; 16]);
}

#[test]
fn packed_request_is_the_parts_in_order() {
    let packed = pack_request("abc", &[0xde, 0xad], 60, 1, b"path", b"ecdsa", b"ethereum", b"p");
    let mut expected = b"abc".to_vec();
    expected.extend_from_slice(&[0xde, 0xad, 0, 0, 0, 60, 0, 0, 0, 1]);
    expected.extend_from_slice(b"pathecdsaethereump");
    assert_eq!(packed, expected);
    // What is not UTF-8 is left out.
    let packed = pack_request("abc", &[0xff], 60, 1, &[0xff], b"ecdsa", b"ethereum", b"p");
    let mut expected = b"abc".to_vec();
    expected.extend_from_slice(&[0xff, 0, 0, 0, 60, 0, 0, 0, 1]);
    expected.extend_from_slice(b"ecdsaethereump");
    assert_eq!(packed, expected);
}

#[test]
fn text_is_utf8_or_empty() {
    assert_eq!(text_or_empty(b"ecdsa"), "ecdsa");
    assert_eq!(text_or_empty(&[0xc3, 0xa9]), "\u{e9}");
    assert_eq!(text_or_empty(&[0xc3]), "");
    assert_eq!(text_or_empty(b""), "");
}

#[test]
fn account_is_filled_up_or_cut() {
    let mut expected = [0u8; 32];
    expected[0] = 7;
    expected[1] = 8;
    assert_eq!(account_bytes(&[7, 8]), expected);
    assert_eq!(account_bytes(&[3; 40]), [3; 32]);
    assert_eq!(account_bytes(&[]), [0; 32]);
}

#[test]
fn request_id_of_the_zero_account() {
    // The digest of `111111111111111111111111111111111HC1`, the data, the two
    // numbers, the path, `ecdsa` and `ethereum`.
    assert_eq!(
        generate_request_id(&0u64, &[0xde, 0xad], 60, 0, &[0; 8], b"ecdsa", b"ethereum", b""),
        [0x56, 0x16, 0xe0, 0xe4, 0x2e, 0xfb, 0xaa, 0xc2, 0x54, 0x26, 0x81, 0x68, 0x0c, 0x5d, 0xa6, 0x7d, 0x56, 0xee, 0x5a, 0xab, 0x86, 0x0b, 0x88, 0x06, 0xcb, 0x45, 0x6b, 0x07, 0xb7, 0x20, 0x12, 0x8c]
    );
    assert_eq!(
        generate_request_id(&[0u8; 32], &[0xde, 0xad], 60, 0, &[0; 8], b"ecdsa", b"ethereum", b""),
        [0x56, 0x16, 0xe0, 0xe4, 0x2e, 0xfb, 0xaa, 0xc2, 0x54, 0x26, 0x81, 0x68, 0x0c, 0x5d, 0xa6, 0x7d, 0x56, 0xee, 0x5a, 0xab, 0x86, 0x0b, 0x88, 0x06, 0xcb, 0x45, 0x6b, 0x07, 0xb7, 0x20, 0x12, 0x8c]
    );
    assert_eq!(
        generate_request_id(&0u64, &[0xde, 0xad], 60, 0, &[0xff], b"ecdsa", b"ethereum", b""),
        [0x8b, 0x3b, 0xdb, 0x57, 0xdb, 0x84, 0xd5, 0x25, 0xb9, 0xea, 0x2a, 0x1b, 0xa4, 0x70, 0x11, 0x08, 0x0a, 0x44, 0xb2, 0x23, 0x87, 0x32, 0xbc, 0xa0, 0xb9, 0x30, 0xbb, 0x01, 0x4e, 0x3b, 0xfc, 0x07]
    );
}

#[test]
fn request_ids_differ_by_sender_and_data() {
    let id = generate_request_id(&1u64, &[1], 60, 0, b"", b"ecdsa", b"ethereum", b"");
    assert_ne!(id, generate_request_id(&2u64, &[1], 60, 0, b"", b"ecdsa", b"ethereum", b""));
    assert_ne!(id, generate_request_id(&1u64, &[2], 60, 0, b"", b"ecdsa", b"ethereum", b""));
    assert_ne!(id, generate_request_id(&1u64, &[1], 61, 0, b"", b"ecdsa", b"ethereum", b""));
    assert_ne!(id, generate_request_id(&1u64, &[1], 60, 1, b"", b"ecdsa", b"ethereum", b""));
}

#[test]
fn response_digest_is_over_id_and_output() {
    let mut data = vec![9u8; 32];
    data.push(1);
    assert_eq!(response_preimage(&[9; 32], &[1]), data);
    assert_eq!(hash_message(&[9; 32], &[1]), [0xe9, 0xfb, 0x7b, 0x62, 0x3e, 0xc7, 0xea, 0xb5, 0x23, 0xf2, 0x54, 0x97, 0x48, 0xac, 0xc1, 0x04, 0xf3, 0xe9, 0x6f, 0x80, 0x84, 0x80, 0x5f, 0xb1, 0x43, 0xda, 0xe4, 0x8f, 0x8f, 0x02, 0x29, 0xab]);
    assert_ne!(response_preimage(&[9; 32], &[1]), response_preimage(&[9; 32], &[0]));
    assert_ne!(response_preimage(&[9; 32], &[1]), response_preimage(&[8; 32], &[1]));
}

#[test]
fn outcome_is_one_byte() {
    assert_eq!(decode_outcome(&[1]), Ok(true));
    assert_eq!(decode_outcome(&[0]), Ok(false));
    assert_eq!(decode_outcome(&[2]), Err(Error::InvalidOutput));
    assert_eq!(decode_outcome(&[]), Err(Error::InvalidOutput));
    assert_eq!(decode_outcome(&[1, 1]), Err(Error::InvalidOutput));
}

fn signature() -> Signature {
    Signature { big_r: AffinePoint { x: [1; 32], y: [2; 32] }, s: [3; 32], recovery_id: 1 }
}

#[test]
fn signature_is_written_as_rsv() {
    let bytes = signature_bytes(&signature());
    assert_eq!(bytes[..32], [1; 32]);
    assert_eq!(bytes[32..64], [3; 32]);
    assert_eq!(bytes[64], 1);
}

#[test]
fn signer_is_the_tail_of_the_key_digest() {
    let mut digest = [7u8; 32];
    for i in 0..12 {
        digest[i] = 1;
    }
    assert_eq!(check_signer(&digest, &[7; 20]), Ok(()));
    assert_eq!(check_signer(&digest, &[1; 20]), Err(Error::InvalidSigner));
}

#[test]
fn signature_check_wants_a_small_recovery_id() {
    let bad = Signature { recovery_id: 4, ..signature() };
    assert_eq!(
        verify_signature_from_address(&[0; 32], &bad, &[0; 20]),
        Err(Error::InvalidSignature)
    );
}

#[test]
fn response_schema_is_a_json_string() {
    assert_eq!(callback_schema(), Ok(b"\"bool\"".to_vec()));
}

#[test]
fn number_accounts_are_little_endian() {
    assert_eq!(Account::encode(&0x0102_0304_0506_0708u64), vec![8, 7, 6, 5, 4, 3, 2, 1]);
    assert_eq!(<u64 as Account>::of_pallet(*b"py/gastp"), u64::from_le_bytes(*b"modlpy/g"));
    assert_eq!(5u64.duplicate(), 5);
}

#[test]
fn long_accounts_are_their_bytes() {
    assert_eq!(Account::encode(&[6u8; 32]), vec![6u8; 32]);
    let mut expected = [0u8; 32];
    expected[..12].copy_from_slice(b"modlpy/gastp");
    assert_eq!(<[u8; 32] as Account>::of_pallet(*b"py/gastp"), expected);
    assert_eq!([6u8; 32].duplicate(), [6u8; 32]);
}

#[test]
fn only_signed_origins_have_a_signer() {
    assert_eq!(ensure_signed(RawOrigin::Signed(3u64)), Ok(3));
    assert_eq!(ensure_signed::<u64>(RawOrigin::Root), Err(CallError::BadOrigin));
    assert_eq!(ensure_signed::<u64>(RawOrigin::Unsigned), Err(CallError::BadOrigin));
}

#[test]
fn requests_are_kept_by_id() {
    let mut map: RequestMap<u8> = RequestMap::new();
    assert!(!map.contains(&[1; 32]));
    map.insert([1; 32], 10);
    map.insert([2; 32], 20);
    map.insert([1; 32], 11);
    assert_eq!(map.get(&[1; 32]), Some(&11));
    assert_eq!(map.get(&[2; 32]), Some(&20));
    assert_eq!(map.remove(&[1; 32]), Some(11));
    assert_eq!(map.remove(&[1; 32]), None);
    assert_eq!(map.get(&[1; 32]), None);
    assert!(map.contains(&[2; 32]));
}

#[test]
fn byte_strings_compare_and_grow() {
    assert!(same_bytes(b"abc", b"abc"));
    assert!(!same_bytes(b"abc", b"abd"));
    assert!(!same_bytes(b"abc", b"ab"));
    assert!(same_bytes(b"", b""));
    let mut bytes = vec![1, 2];
    append_bytes(&mut bytes, &[3]);
    assert_eq!(bytes, vec![1, 2, 3]);
}

#[test]
fn sepolia_address_starts_and_ends_right() {
    assert_eq!(SEPOLIA_VAULT_ADDRESS[..4], [0x00, 0xA4, 0x0C, 0x26]);
    assert_eq!(SEPOLIA_VAULT_ADDRESS[19], 0xEf);
}
