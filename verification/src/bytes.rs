//! Byte sequences: integers as bytes, padding and comparison.
use vstd::prelude::*;

verus! {

/// The last `width` bytes of `value`, most significant first.
pub open spec fn be_bytes(value: nat, width: nat) -> Seq<u8>
    decreases width,
{
    if width == 0 {
        Seq::empty()
    } else {
        be_bytes(value / 256, (width - 1) as nat).push((value % 256) as u8)
    }
}

/// The last `width` bytes of `value`, least significant first.
pub open spec fn le_bytes(value: nat, width: nat) -> Seq<u8>
    decreases width,
{
    if width == 0 {
        Seq::empty()
    } else {
        seq![(value % 256) as u8] + le_bytes(value / 256, (width - 1) as nat)
    }
}

/// Whether `value` can be written in `width` bytes.
pub open spec fn fits(value: nat, width: nat) -> bool
    decreases width,
{
    if width == 0 {
        value == 0
    } else {
        fits(value / 256, (width - 1) as nat)
    }
}

/// `bytes` cut or filled up with zeros to `width` bytes.
pub open spec fn padded(bytes: Seq<u8>, width: nat) -> Seq<u8> {
    Seq::new(
        width,
        |i: int|
            if i < bytes.len() {
                bytes[i]
            } else {
                0u8
            },
    )
}

/// `count` zero bytes.
pub open spec fn zeros(count: nat) -> Seq<u8> {
    Seq::new(count, |i: int| 0u8)
}

/// Writing an integer down takes exactly the bytes asked for.
pub proof fn lemma_integer_lengths(value: nat, width: nat)
    ensures
        be_bytes(value, width).len() == width,
        le_bytes(value, width).len() == width,
    decreases width,
{
    if width > 0 {
        lemma_integer_lengths(value / 256, (width - 1) as nat);
    }
}

/// No two integers of `width` bytes are written alike, most significant first.
pub proof fn lemma_be_bytes_injective(a: nat, b: nat, width: nat)
    requires
        fits(a, width),
        fits(b, width),
        be_bytes(a, width) == be_bytes(b, width),
    ensures
        a == b,
    decreases width,
{
    if width > 0 {
        let w = (width - 1) as nat;
        let (x, y) = (be_bytes(a / 256, w), be_bytes(b / 256, w));
        lemma_integer_lengths(a / 256, w);
        lemma_integer_lengths(b / 256, w);
        assert(x == be_bytes(a, width).drop_last());
        assert(y == be_bytes(b, width).drop_last());
        assert(be_bytes(a, width).last() == (a % 256) as u8);
        assert(be_bytes(b, width).last() == (b % 256) as u8);
        lemma_be_bytes_injective(a / 256, b / 256, w);
    }
}

/// No two integers of `width` bytes are written alike, least significant first.
pub proof fn lemma_le_bytes_injective(a: nat, b: nat, width: nat)
    requires
        fits(a, width),
        fits(b, width),
        le_bytes(a, width) == le_bytes(b, width),
    ensures
        a == b,
    decreases width,
{
    if width > 0 {
        let w = (width - 1) as nat;
        let (x, y) = (le_bytes(a / 256, w), le_bytes(b / 256, w));
        assert(x =~= le_bytes(a, width).drop_first());
        assert(y =~= le_bytes(b, width).drop_first());
        assert(le_bytes(a, width)[0] == (a % 256) as u8);
        assert(le_bytes(b, width)[0] == (b % 256) as u8);
        lemma_le_bytes_injective(a / 256, b / 256, w);
    }
}

/// A `u64` is eight bytes wide.
pub proof fn lemma_u64_fits(value: u64)
    ensures
        fits(value as nat, 8),
{
    reveal_with_fuel(fits, 9);
}

/// A `u128` fits into a word of 32 bytes.
pub proof fn lemma_u128_fits(value: u128)
    ensures
        fits(value as nat, 32),
{
    reveal_with_fuel(fits, 33);
}

/// Whether two byte strings are the same.
pub fn same_bytes(a: &[u8], b: &[u8]) -> (same: bool)
    ensures
        same == (a@ == b@),
{
    if a.len() != b.len() {
        return false;
    }
    let mut i: usize = 0;
    while i < a.len()
        invariant
            a.len() == b.len(),
            i <= a.len(),
            forall|j: int| 0 <= j < i ==> a@[j] == b@[j],
        decreases a.len() - i,
    {
        if a[i] != b[i] {
            return false;
        }
        i += 1;
    }
    assert(a@ =~= b@);
    true
}

/// Appends `tail` to `bytes`.
pub fn append_bytes(bytes: &mut Vec<u8>, tail: &[u8])
    ensures
        final(bytes)@ == old(bytes)@ + tail@,
{
    bytes.extend_from_slice(tail);
    assert(bytes@ =~= old(bytes)@ + tail@);
}

} // verus!
