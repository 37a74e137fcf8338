//! Trusted items over `bit_vec::BitVec`, and the spec functions that
//! describe packed bytes and bit text.

use bit_vec::BitVec;
use vstd::prelude::*;

verus! {

#[verifier::external_type_specification]
#[verifier::external_body]
#[verifier::reject_recursive_types(B)]
pub struct ExBitVec<B>(BitVec<B>);

/// The bits a `BitVec` holds, first bit first.
pub uninterp spec fn bits_of(v: BitVec) -> Seq<bool>;

/// Bit `k` of byte `b`, counting from the most significant bit (`k == 0`).
pub open spec fn byte_bit(b: u8, k: int) -> bool {
    (b as int / vstd::arithmetic::power2::pow2((7 - k) as nat) as int) % 2 == 1
}

/// The bits of a byte buffer: eight per byte, most significant bit first,
/// bytes in buffer order.
pub open spec fn unpack(bytes: Seq<u8>) -> Seq<bool> {
    Seq::new(8 * bytes.len(), |i: int| byte_bit(bytes[i / 8], i % 8))
}

/// The character that stands for one bit.
pub open spec fn bit_char(b: bool) -> char {
    if b {
        '1'
    } else {
        '0'
    }
}

/// The text of a bit sequence: one `'1'` or `'0'` per bit, in order.
pub open spec fn bit_text(bits: Seq<bool>) -> Seq<char> {
    bits.map_values(|b: bool| bit_char(b))
}

/// Relies on `BitVec::from_bytes`: each byte becomes eight bits, most
/// significant bit first. It panics when the bit count overflows `usize`.
#[verifier::external_body]
pub(crate) fn bitvec_from_bytes(bytes: &[u8]) -> (r: BitVec)
    requires
        8 * bytes@.len() <= usize::MAX,
    ensures
        bits_of(r) == unpack(bytes@),
{
    BitVec::from_bytes(bytes)
}

/// Relies on `BitVec::split_off`: the first `at` bits stay, the rest are
/// returned. It panics when `at` exceeds the length.
#[verifier::external_body]
pub(crate) fn bitvec_split_off(v: &mut BitVec, at: usize) -> (r: BitVec)
    requires
        at <= bits_of(*old(v)).len(),
    ensures
        bits_of(*final(v)) == bits_of(*old(v)).take(at as int),
        bits_of(r) == bits_of(*old(v)).skip(at as int),
{
    v.split_off(at)
}

/// Relies on `BitVec::is_empty`: true exactly when no bit is held.
#[verifier::external_body]
pub(crate) fn bitvec_is_empty(v: &BitVec) -> (r: bool)
    ensures
        r == (bits_of(*v).len() == 0),
{
    v.is_empty()
}

/// Relies on `BitVec`'s `Clone`: the copy holds the same bits.
#[verifier::external_body]
pub(crate) fn bitvec_clone(v: &BitVec) -> (r: BitVec)
    ensures
        bits_of(r) == bits_of(*v),
{
    v.clone()
}

/// Relies on `BitVec`'s `Display`: one `'1'` or `'0'` per bit, in order.
#[verifier::external_body]
pub(crate) fn bitvec_text(v: &BitVec) -> (r: String)
    ensures
        r@ == bit_text(bits_of(*v)),
{
    format!("{}", v)
}

} // verus!
