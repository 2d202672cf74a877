use byteorder::{BigEndian, ByteOrder, LittleEndian};
use vstd::prelude::*;

verus! {

/// The value of two bytes, least significant first.
pub open spec fn le_value(lo: u8, hi: u8) -> u16 {
    (lo as int + 256 * hi as int) as u16
}

/// The value of two bytes, most significant first.
pub open spec fn be_value(hi: u8, lo: u8) -> u16 {
    le_value(lo, hi)
}

/// The two bytes of `n`, least significant first.
pub open spec fn le_bytes(n: u16) -> Seq<u8> {
    seq![(n % 256) as u8, (n / 256) as u8]
}

/// The two bytes of `n`, most significant first.
pub open spec fn be_bytes(n: u16) -> Seq<u8> {
    seq![(n / 256) as u8, (n % 256) as u8]
}

/// Reading back the two bytes of `n` gives `n`.
pub proof fn lemma_le_round_trip(n: u16)
    ensures
        le_value(le_bytes(n)[0], le_bytes(n)[1]) == n,
        be_value(be_bytes(n)[0], be_bytes(n)[1]) == n,
{
}

/// Relies on `LittleEndian::read_u16`: the two bytes at `pos`, least significant first.
#[verifier::external_body]
pub(crate) fn read_u16_le(b: &[u8], pos: usize) -> (r: u16)
    requires
        pos + 2 <= b@.len(),
    ensures
        r == le_value(b@[pos as int], b@[pos + 1]),
{
    LittleEndian::read_u16(&b[pos..])
}

/// Relies on `BigEndian::read_u16`: the two bytes at `pos`, most significant first.
#[verifier::external_body]
pub(crate) fn read_u16_be(b: &[u8], pos: usize) -> (r: u16)
    requires
        pos + 2 <= b@.len(),
    ensures
        r == be_value(b@[pos as int], b@[pos + 1]),
{
    BigEndian::read_u16(&b[pos..])
}

/// Relies on `LittleEndian::write_u16`: the two bytes of `n`, least significant first.
#[verifier::external_body]
pub(crate) fn u16_le_bytes(n: u16) -> (r: [u8; 2])
    ensures
        r@ == le_bytes(n),
{
    let mut b = [0u8; 2];
    LittleEndian::write_u16(&mut b, n);
    b
}

/// Relies on `BigEndian::write_u16`: the two bytes of `n`, most significant first.
#[verifier::external_body]
pub(crate) fn u16_be_bytes(n: u16) -> (r: [u8; 2])
    ensures
        r@ == be_bytes(n),
{
    let mut b = [0u8; 2];
    BigEndian::write_u16(&mut b, n);
    b
}

} // verus!
