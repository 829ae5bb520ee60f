//! What a chain brings along: its accounts and its balances.
use vstd::prelude::*;

use crate::bytes::le_bytes;
use crate::bytes::lemma_integer_lengths;
use crate::bytes::lemma_le_bytes_injective;
use crate::bytes::lemma_u64_fits;
use crate::bytes::padded;
use crate::outside::encode_array;
use crate::outside::encode_u64;
use crate::outside::pallet_account_array;
use crate::outside::pallet_account_u64;
use crate::outside::pallet_seed;

verus! {

/// An account, known by its SCALE encoding: a number, or an array of bytes such as
/// the 32 bytes of an `AccountId32`.
pub trait Account: Sized {
    /// How many bytes the encoding of every account takes.
    spec fn width() -> nat;

    /// The SCALE encoding of the account.
    spec fn encoded(&self) -> Seq<u8>;

    /// The encoding has the width of the account type.
    proof fn lemma_width(&self)
        ensures
            self.encoded().len() == Self::width(),
    ;

    /// Two accounts that are encoded alike are the same account.
    proof fn lemma_injective(a: &Self, b: &Self)
        requires
            a.encoded() == b.encoded(),
        ensures
            *a == *b,
    ;

    /// Encodes the account.
    fn encode(&self) -> (encoded: Vec<u8>)
        ensures
            encoded@ == self.encoded(),
    ;

    /// Another copy of the account.
    fn duplicate(&self) -> (copy: Self)
        ensures
            copy == *self,
    ;

    /// The account that belongs to a pallet: the one encoded by the pallet's
    /// seed, cut or filled up with zeros.
    fn of_pallet(pallet_id: [u8; 8]) -> (account: Self)
        ensures
            account.encoded() == padded(pallet_seed(pallet_id@), Self::width()),
    ;
}

/// The account of the pallet `pallet_id`.
pub open spec fn pallet_account<A: Account>(pallet_id: [u8; 8]) -> A {
    choose|account: A|
        #[trigger] account.encoded() == padded(pallet_seed(pallet_id@), A::width())
}

/// There is one account only for a pallet.
pub proof fn lemma_pallet_account_unique<A: Account>(account: A, pallet_id: [u8; 8])
    requires
        account.encoded() == padded(pallet_seed(pallet_id@), A::width()),
    ensures
        account == pallet_account::<A>(pallet_id),
{
    A::lemma_injective(&account, &pallet_account::<A>(pallet_id));
}

impl Account for u64 {
    open spec fn width() -> nat {
        8
    }

    open spec fn encoded(&self) -> Seq<u8> {
        le_bytes(*self as nat, 8)
    }

    proof fn lemma_width(&self) {
        lemma_integer_lengths(*self as nat, 8);
    }

    proof fn lemma_injective(a: &Self, b: &Self) {
        lemma_u64_fits(*a);
        lemma_u64_fits(*b);
        lemma_le_bytes_injective(*a as nat, *b as nat, 8);
    }

    fn encode(&self) -> (encoded: Vec<u8>) {
        encode_u64(*self)
    }

    fn duplicate(&self) -> (copy: Self) {
        *self
    }

    fn of_pallet(pallet_id: [u8; 8]) -> (account: Self) {
        pallet_account_u64(pallet_id)
    }
}

impl<const N: usize> Account for [u8; N] {
    open spec fn width() -> nat {
        N as nat
    }

    open spec fn encoded(&self) -> Seq<u8> {
        self@
    }

    proof fn lemma_width(&self) {
    }

    proof fn lemma_injective(a: &Self, b: &Self) {
        assert(*a =~= *b);
    }

    fn encode(&self) -> (encoded: Vec<u8>) {
        encode_array(self)
    }

    fn duplicate(&self) -> (copy: Self) {
        *self
    }

    fn of_pallet(pallet_id: [u8; 8]) -> (account: Self) {
        pallet_account_array(pallet_id)
    }
}

/// The chain that the vault runs on.
pub trait Config: Sized {
    /// Who holds balances and makes requests.
    type AccountId: Account;

    /// What payments are counted in.
    type Balance: Copy;
}

} // verus!
