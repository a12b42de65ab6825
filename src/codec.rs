//! Reading and writing fixed-width fields of byte records.
use crate::address::Address;
use vstd::bytes::{
    lemma_auto_spec_u64_to_from_le_bytes, spec_u64_from_le_bytes, spec_u64_to_le_bytes,
    u64_from_le_bytes,
};
use vstd::prelude::*;
use vstd::slice::slice_subrange;

verus! {

/// The two's-complement bits of a signed 64-bit integer.
pub open spec fn i64_bits(x: i64) -> u64 {
    if x >= 0 {
        x as u64
    } else {
        (x as int + 0x1_0000_0000_0000_0000) as u64
    }
}

/// Little-endian bytes of a signed 64-bit integer (its two's complement).
pub open spec fn i64_le(x: i64) -> Seq<u8> {
    spec_u64_to_le_bytes(i64_bits(x))
}

/// The two's-complement bits of `x`.
pub fn i64_to_bits(x: i64) -> (r: u64)
    ensures
        r == i64_bits(x),
{
    if x >= 0 {
        x as u64
    } else {
        (x as i128 + 0x1_0000_0000_0000_0000i128) as u64
    }
}

/// The signed integer whose two's-complement bits are `u`.
pub fn bits_to_i64(u: u64) -> (r: i64)
    ensures
        i64_bits(r) == u,
{
    if u <= 0x7fff_ffff_ffff_ffff {
        u as i64
    } else {
        (u as i128 - 0x1_0000_0000_0000_0000i128) as i64
    }
}

/// Distinct signed integers have distinct bits.
pub proof fn lemma_i64_bits_injective(x: i64, y: i64)
    requires
        i64_bits(x) == i64_bits(y),
    ensures
        x == y,
{
}

/// Thirty-two zero bytes.
pub open spec fn zeros32() -> Seq<u8> {
    Seq::new(32, |i: int| 0u8)
}

/// The 32 bytes at `off` of `data`, as an address.
pub fn read_address(data: &[u8], off: usize) -> (r: Address)
    requires
        off + 32 <= data@.len(),
    ensures
        r@ == data@.subrange(off as int, off + 32),
{
    let _n = data.len();
    let mut bytes = [0u8; 32];
    let mut i: usize = 0;
    while i < 32
        invariant
            i <= 32,
            off + 32 <= data@.len() <= usize::MAX,
            forall|j: int| 0 <= j < i ==> bytes@[j] == data@[off + j],
        decreases 32 - i,
    {
        bytes[i] = data[off + i];
        i = i + 1;
    }
    let r = Address { bytes };
    assert(r@ =~= data@.subrange(off as int, off + 32));
    r
}

/// The little-endian unsigned integer in the 8 bytes at `off` of `data`.
pub fn read_u64(data: &[u8], off: usize) -> (r: u64)
    requires
        off + 8 <= data@.len(),
    ensures
        spec_u64_to_le_bytes(r) == data@.subrange(off as int, off + 8),
        r == spec_u64_from_le_bytes(data@.subrange(off as int, off + 8)),
{
    let _n = data.len();
    let part = slice_subrange(data, off, off + 8);
    let r = u64_from_le_bytes(part);
    proof {
        lemma_auto_spec_u64_to_from_le_bytes();
    }
    r
}

/// Whether the 32 bytes at `off` of `data` are all zero.
pub fn all_zero32(data: &[u8], off: usize) -> (r: bool)
    requires
        off + 32 <= data@.len(),
    ensures
        r == (data@.subrange(off as int, off + 32) == zeros32()),
{
    let _n = data.len();
    let mut i: usize = 0;
    while i < 32
        invariant
            i <= 32,
            off + 32 <= data@.len() <= usize::MAX,
            forall|j: int| 0 <= j < i ==> #[trigger] data@[off + j] == 0u8,
        decreases 32 - i,
    {
        if data[off + i] != 0 {
            assert(data@.subrange(off as int, off + 32)[i as int] != zeros32()[i as int]);
            return false;
        }
        i = i + 1;
    }
    assert forall|j: int| 0 <= j < 32 implies data@.subrange(off as int, off + 32)[j] == zeros32()[j] by {
        assert(data@[off + j] == 0u8);
    }
    assert(data@.subrange(off as int, off + 32) =~= zeros32());
    true
}

/// Appends `bytes` to `out`.
pub fn append_bytes(out: &mut Vec<u8>, bytes: &[u8])
    ensures
        final(out)@ == old(out)@ + bytes@,
{
    let mut i: usize = 0;
    while i < bytes.len()
        invariant
            i <= bytes@.len(),
            out@ == old(out)@ + bytes@.subrange(0, i as int),
        decreases bytes@.len() - i,
    {
        out.push(bytes[i]);
        i = i + 1;
        assert(out@ =~= old(out)@ + bytes@.subrange(0, i as int));
    }
    assert(bytes@.subrange(0, bytes@.len() as int) =~= bytes@);
}

/// Appends the little-endian bytes of `x` to `out`.
pub fn append_u64(out: &mut Vec<u8>, x: u64)
    ensures
        final(out)@ == old(out)@ + spec_u64_to_le_bytes(x),
{
    let b = vstd::bytes::u64_to_le_bytes(x);
    append_bytes(out, b.as_slice());
}

/// Appends the bytes of an address to `out`.
pub fn append_address(out: &mut Vec<u8>, a: &Address)
    ensures
        final(out)@ == old(out)@ + a@,
{
    append_bytes(out, &a.bytes);
}

} // verus!
