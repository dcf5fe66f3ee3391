//! Big-endian integers.
use vstd::prelude::*;

verus! {

/// The low `width` bytes of `n`, the highest first.
pub open spec fn big_endian(n: nat, width: nat) -> Seq<u8>
    decreases width,
{
    if width == 0 {
        Seq::empty()
    } else {
        big_endian(n / 256, (width - 1) as nat).push((n % 256) as u8)
    }
}

/// The number that `bytes` spell, the highest first.
pub open spec fn big_endian_value(bytes: Seq<u8>) -> nat
    decreases bytes.len(),
{
    if bytes.len() == 0 {
        0
    } else {
        big_endian_value(bytes.drop_last()) * 256 + bytes.last() as nat
    }
}

/// Whether `n` can be spelled with `width` bytes.
pub open spec fn fits(n: nat, width: nat) -> bool
    decreases width,
{
    if width == 0 {
        n == 0
    } else {
        fits(n / 256, (width - 1) as nat)
    }
}

/// A number that fits is spelled with exactly `width` bytes, which give it back.
pub proof fn lemma_big_endian_round_trip(n: nat, width: nat)
    requires
        fits(n, width),
    ensures
        big_endian(n, width).len() == width,
        big_endian_value(big_endian(n, width)) == n,
    decreases width,
{
    if width > 0 {
        lemma_big_endian_round_trip(n / 256, (width - 1) as nat);
        assert(big_endian(n, width).drop_last() == big_endian(n / 256, (width - 1) as nat));
    }
}

/// Every `u64` fits in eight bytes, every `u32` in four.
pub proof fn lemma_fits(n: nat)
    ensures
        n <= u64::MAX ==> fits(n, 8),
        n <= u32::MAX ==> fits(n, 4),
{
    reveal_with_fuel(fits, 9);
}

/// The low `width` bytes of `n`, the highest first.
pub fn be_bytes(n: u64, width: u8) -> (r: Vec<u8>)
    ensures
        r@ == big_endian(n as nat, width as nat),
    decreases width,
{
    if width == 0 {
        Vec::new()
    } else {
        let mut r: Vec<u8> = be_bytes(n / 256, width - 1);
        r.push((n % 256) as u8);
        r
    }
}

} // verus!
