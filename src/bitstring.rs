//! The bit string type, its decoder from the store's packed form, and its
//! encoder to the store's bit-literal text.

use crate::bits::{
    bit_text, bits_of, bitvec_clone, bitvec_from_bytes, bitvec_is_empty, bitvec_split_off,
    bitvec_text, unpack,
};
use bit_vec::BitVec;
use vstd::prelude::*;

verus! {

/// Why a bit string could not be decoded or encoded.
#[derive(Debug, Clone, Copy, PartialEq, Eq, Structural)]
pub enum BitstringError {
    /// The bit string is empty, which the store's BIT type cannot hold.
    EmptyBitstring,
    /// The header byte of a packed buffer is not a padding count in `0..=7`.
    RawDataBadPadding(u8),
    /// A packed buffer holds fewer than two bytes (its length is given).
    RawDataTooShort(usize),
}

/// Where the bits of a `Bitstring` live: in a `BitVec` of its own, or in
/// one that the caller owns.
#[derive(Debug)]
enum Held<'a> {
    Owned(BitVec),
    Borrowed(&'a BitVec),
}

/// An ordered sequence of bits, first bit first, that can be read from and
/// written to the store's BIT type. It wraps a `BitVec`, owned or borrowed.
#[derive(Debug)]
pub struct Bitstring<'a> {
    held: Held<'a>,
}

impl<'a> View for Bitstring<'a> {
    type V = Seq<bool>;

    closed spec fn view(&self) -> Seq<bool> {
        match self.held {
            Held::Owned(v) => bits_of(v),
            Held::Borrowed(v) => bits_of(*v),
        }
    }
}

/// What decoding a packed buffer gives: the first byte is the padding count
/// `P`, the rest is the payload, eight bits per byte, most significant bit
/// first; the first `P` payload bits are padding and are dropped.
pub open spec fn decoded(raw: Seq<u8>) -> Result<Seq<bool>, BitstringError> {
    if raw.len() < 2 {
        Err(BitstringError::RawDataTooShort(raw.len() as usize))
    } else if raw[0] > 7 {
        Err(BitstringError::RawDataBadPadding(raw[0]))
    } else {
        Ok(unpack(raw.skip(1)).skip(raw[0] as int))
    }
}

/// A decoding result seen through the view of the bit string it holds.
pub open spec fn result_view(r: Result<Bitstring, BitstringError>) -> Result<
    Seq<bool>,
    BitstringError,
> {
    match r {
        Ok(s) => Ok(s@),
        Err(e) => Err(e),
    }
}

/// Reading a bit text back, one bit per character: `'1'` is a set bit.
pub open spec fn parse_text(text: Seq<char>) -> Seq<bool> {
    text.map_values(|c: char| c == '1')
}

/// A buffer of at least two bytes whose header is a padding count `P` in
/// `0..=7` always decodes, to exactly `8 * (payload bytes) - P` bits.
pub proof fn lemma_decode_length(raw: Seq<u8>)
    requires
        raw.len() >= 2,
        raw[0] <= 7,
    ensures
        decoded(raw) is Ok,
        decoded(raw)->Ok_0.len() == 8 * (raw.len() - 1) - raw[0],
{
}

/// A buffer of fewer than two bytes never decodes: it is too short.
pub proof fn lemma_decode_too_short(raw: Seq<u8>)
    requires
        raw.len() < 2,
    ensures
        decoded(raw) == Err::<Seq<bool>, BitstringError>(
            BitstringError::RawDataTooShort(raw.len() as usize),
        ),
{
}

/// A buffer long enough to decode whose header byte is `8` or more never
/// decodes: its padding count is bad.
pub proof fn lemma_decode_bad_padding(raw: Seq<u8>)
    requires
        raw.len() >= 2,
        raw[0] >= 8,
    ensures
        decoded(raw) == Err::<Seq<bool>, BitstringError>(
            BitstringError::RawDataBadPadding(raw[0]),
        ),
{
}

/// The text of a non-empty bit sequence reads back, character by
/// character, as the same sequence.
pub proof fn lemma_text_round_trip(bits: Seq<bool>)
    requires
        bits.len() > 0,
    ensures
        bit_text(bits).len() == bits.len(),
        parse_text(bit_text(bits)) == bits,
{
    assert(parse_text(bit_text(bits)) =~= bits);
}

impl<'a> Bitstring<'a> {
    /// Takes out the bits as an owned `BitVec`, copying them if borrowed.
    #[must_use]
    pub fn into_bitvec(self) -> (r: BitVec)
        ensures
            bits_of(r) == self@,
    {
        match self.held {
            Held::Owned(v) => v,
            Held::Borrowed(v) => bitvec_clone(v),
        }
    }

    /// The bits as a `BitVec`.
    #[must_use]
    pub fn as_bitvec(&'a self) -> (r: &'a BitVec)
        ensures
            bits_of(*r) == self@,
    {
        match &self.held {
            Held::Owned(v) => v,
            Held::Borrowed(v) => v,
        }
    }

    /// Decodes the store's packed form of a bit string.
    pub fn from_raw<'b>(bytes: &[u8]) -> (r: Result<Bitstring<'b>, BitstringError>)
        requires
            bytes@.len() <= usize::MAX / 8,
        ensures
            result_view(r) == decoded(bytes@),
    {
        if bytes.len() < 2 {
            Err(BitstringError::RawDataTooShort(bytes.len()))
        } else if bytes[0] > 7 {
            Err(BitstringError::RawDataBadPadding(bytes[0]))
        } else {
            let mut raw_vec = bitvec_from_bytes(&bytes[1..bytes.len()]);
            if bytes[0] == 0 {
                assert(unpack(bytes@.skip(1)).skip(0) =~= unpack(bytes@.skip(1)));
                Ok(Bitstring { held: Held::Owned(raw_vec) })
            } else {
                let rest = bitvec_split_off(&mut raw_vec, bytes[0] as usize);
                Ok(Bitstring { held: Held::Owned(rest) })
            }
        }
    }

    /// The text the store parses into its BIT type: one `'1'` or `'0'` per
    /// bit. An empty bit string has no such text.
    pub fn encode(&self) -> (r: Result<String, BitstringError>)
        ensures
            self@.len() == 0 ==> r == Err::<String, BitstringError>(
                BitstringError::EmptyBitstring,
            ),
            self@.len() > 0 ==> r is Ok && r->Ok_0@ == bit_text(self@) && r->Ok_0@.len()
                == self@.len(),
    {
        let v = self.as_bitvec();
        if bitvec_is_empty(v) {
            Err(BitstringError::EmptyBitstring)
        } else {
            Ok(bitvec_text(v))
        }
    }

    /// The bits as text, one `'1'` or `'0'` per bit.
    pub fn to_string(&self) -> (r: String)
        ensures
            r@ == bit_text(self@),
    {
        bitvec_text(self.as_bitvec())
    }
}

impl<'a> Clone for Bitstring<'a> {
    /// A bit string with the same bits, borrowing from the same `BitVec`
    /// where this one borrows.
    fn clone(&self) -> (r: Bitstring<'a>)
        ensures
            r@ == self@,
    {
        match &self.held {
            Held::Owned(v) => Bitstring { held: Held::Owned(bitvec_clone(v)) },
            Held::Borrowed(v) => Bitstring { held: Held::Borrowed(v) },
        }
    }
}

impl From<BitVec> for Bitstring<'_> {
    /// A bit string that owns the given bits.
    fn from(v: BitVec) -> (r: Bitstring<'static>)
        ensures
            r@ == bits_of(v),
    {
        Bitstring { held: Held::Owned(v) }
    }
}

impl vstd::std_specs::convert::FromSpecImpl<BitVec> for Bitstring<'_> {
    open spec fn obeys_from_spec() -> bool {
        true
    }

    closed spec fn from_spec(v: BitVec) -> Self {
        Bitstring { held: Held::Owned(v) }
    }
}

impl<'a> From<&'a BitVec> for Bitstring<'a> {
    /// A bit string that reads the given bits where they are.
    fn from(v: &'a BitVec) -> (r: Bitstring<'a>)
        ensures
            r@ == bits_of(*v),
    {
        Bitstring { held: Held::Borrowed(v) }
    }
}

impl<'a> vstd::std_specs::convert::FromSpecImpl<&'a BitVec> for Bitstring<'a> {
    open spec fn obeys_from_spec() -> bool {
        true
    }

    closed spec fn from_spec(v: &'a BitVec) -> Self {
        Bitstring { held: Held::Borrowed(v) }
    }
}

} // verus!
