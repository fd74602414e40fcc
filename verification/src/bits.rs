//! Bit vectors of the `bit_vec` crate, and how their bits relate to bytes.

use vstd::prelude::*;
use bit_vec::BitVec;

verus! {

/// `bit_vec::BitVec`, a growable vector of bits. Verus sees nothing inside it.
#[verifier::external_type_specification]
#[verifier::external_body]
#[verifier::reject_recursive_types(B)]
pub struct ExBitVec<B>(bit_vec::BitVec<B>);

/// The bits that a bit vector holds, in the order of their indices.
pub uninterp spec fn bit_vec_bits(v: BitVec<u32>) -> Seq<bool>;

/// Whether bit `k` of `byte` is set, bit 0 being the least significant.
pub open spec fn byte_bit(byte: u8, k: u8) -> bool {
    (byte >> k) & 1 == 1
}

/// The bits of a sequence of bytes, the most significant bit of each byte
/// first.
pub open spec fn msb_first(bytes: Seq<u8>) -> Seq<bool> {
    Seq::new(8 * bytes.len(), |i: int| byte_bit(bytes[i / 8], (7 - i % 8) as u8))
}

/// Whether `bytes` packs `bits` eight to a byte, the most significant bit of
/// each byte first, with the bits past the end of `bits` clear.
pub open spec fn packs(bytes: Seq<u8>, bits: Seq<bool>) -> bool {
    &&& bytes.len() == (bits.len() + 7) / 8
    &&& forall|j: int, k: int|
        0 <= j < bytes.len() && 0 <= k < 8 ==> #[trigger] byte_bit(bytes[j], (7 - k) as u8) == (8 * j
            + k < bits.len() && bits[8 * j + k])
}

/// The bitwise conjunction of two sequences of bits of one length.
pub open spec fn conjunction(a: Seq<bool>, b: Seq<bool>) -> Seq<bool> {
    Seq::new(a.len(), |i: int| a[i] && b[i])
}

/// `BitVec::from_bytes`: each byte becomes eight bits, the most significant
/// bit of each byte first. The call panics when the number of bits does not
/// fit in `usize`.
#[verifier::external_body]
pub(crate) fn bits_from_bytes(bytes: &[u8]) -> (v: BitVec<u32>)
    requires
        8 * bytes@.len() <= usize::MAX,
    ensures
        bit_vec_bits(v) == msb_first(bytes@),
{
    BitVec::from_bytes(bytes)
}

/// Indexing a `BitVec`: the bit at index `i`. The call panics when `i` is
/// out of bounds.
#[verifier::external_body]
pub(crate) fn bit_at(v: &BitVec<u32>, i: usize) -> (b: bool)
    requires
        i < bit_vec_bits(*v).len(),
    ensures
        b == bit_vec_bits(*v)[i as int],
{
    v[i]
}

/// `BitVec::intersect`: sets each bit of `v` to its conjunction with the bit
/// of `other` at the same index, and says whether `v` changed. The call
/// panics when the two lengths differ.
#[verifier::external_body]
#[allow(deprecated)]
pub(crate) fn bits_intersect(v: &mut BitVec<u32>, other: &BitVec<u32>) -> (changed: bool)
    requires
        bit_vec_bits(*old(v)).len() == bit_vec_bits(*other).len(),
    ensures
        bit_vec_bits(*final(v)) == conjunction(bit_vec_bits(*old(v)), bit_vec_bits(*other)),
        changed == (bit_vec_bits(*final(v)) != bit_vec_bits(*old(v))),
{
    v.intersect(other)
}

/// `BitVec::to_bytes`: packs the bits eight to a byte, the most significant
/// bit of each byte first; the last byte is padded with clear bits.
#[verifier::external_body]
pub(crate) fn bits_to_bytes(v: &BitVec<u32>) -> (bytes: Vec<u8>)
    ensures
        packs(bytes@, bit_vec_bits(*v)),
{
    v.to_bytes()
}

/// A byte is determined by its eight bits.
pub proof fn lemma_byte_by_bits(x: u8, y: u8)
    requires
        forall|k: u8| 0 <= k < 8 ==> byte_bit(x, k) == byte_bit(y, k),
    ensures
        x == y,
{
    assert(byte_bit(x, 0) == byte_bit(y, 0));
    assert(byte_bit(x, 1) == byte_bit(y, 1));
    assert(byte_bit(x, 2) == byte_bit(y, 2));
    assert(byte_bit(x, 3) == byte_bit(y, 3));
    assert(byte_bit(x, 4) == byte_bit(y, 4));
    assert(byte_bit(x, 5) == byte_bit(y, 5));
    assert(byte_bit(x, 6) == byte_bit(y, 6));
    assert(byte_bit(x, 7) == byte_bit(y, 7));
    assert(x == y) by (bit_vector)
        requires
            ((x >> 0u8) & 1 == 1) == ((y >> 0u8) & 1 == 1),
            ((x >> 1u8) & 1 == 1) == ((y >> 1u8) & 1 == 1),
            ((x >> 2u8) & 1 == 1) == ((y >> 2u8) & 1 == 1),
            ((x >> 3u8) & 1 == 1) == ((y >> 3u8) & 1 == 1),
            ((x >> 4u8) & 1 == 1) == ((y >> 4u8) & 1 == 1),
            ((x >> 5u8) & 1 == 1) == ((y >> 5u8) & 1 == 1),
            ((x >> 6u8) & 1 == 1) == ((y >> 6u8) & 1 == 1),
            ((x >> 7u8) & 1 == 1) == ((y >> 7u8) & 1 == 1),
    ;
}

/// The bits of one byte after the conjunction with the bits of a mask are
/// packed as the byte's bitwise `&` with the mask.
pub proof fn lemma_masked_byte(byte: u8, mask: u8, packed: Seq<u8>)
    requires
        packs(packed, conjunction(msb_first(seq![byte]), msb_first(seq![mask]))),
    ensures
        packed.len() == 1,
        packed[0] == byte & mask,
{
    let bits = conjunction(msb_first(seq![byte]), msb_first(seq![mask]));
    assert(bits.len() == 8);
    let x = packed[0];
    let y = byte & mask;
    assert forall|k: u8| 0 <= k < 8 implies byte_bit(x, k) == byte_bit(y, k) by {
        let i = 7 - k as int;
        assert(byte_bit(packed[0], (7 - i) as u8) == (8 * 0 + i < bits.len() && bits[8 * 0 + i]));
        assert(bits[i] == (msb_first(seq![byte])[i] && msb_first(seq![mask])[i]));
        assert(i / 8 == 0 && i % 8 == i);
        assert(msb_first(seq![byte])[i] == byte_bit(byte, k));
        assert(msb_first(seq![mask])[i] == byte_bit(mask, k));
        assert(((byte & mask) >> k) & 1 == 1 <==> ((byte >> k) & 1 == 1) && ((mask >> k) & 1 == 1))
            by (bit_vector);
    }
    lemma_byte_by_bits(x, y);
}

} // verus!
