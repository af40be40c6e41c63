//! Big-endian (network order) encoding of 32-bit words.

use vstd::prelude::*;

verus! {

/// The number that four octets in network order stand for: the first octet is
/// the most significant.
pub open spec fn be_value(octets: Seq<u8>) -> int
    recommends
        octets.len() == 4,
{
    octets[0] * 0x100_0000 + octets[1] * 0x1_0000 + octets[2] * 0x100 + octets[3]
}

/// The four octets that stand for `value` in network order.
pub open spec fn be_octets(value: u32) -> Seq<u8> {
    seq![
        (value / 0x100_0000) as u8,
        (value / 0x1_0000 % 0x100) as u8,
        (value / 0x100 % 0x100) as u8,
        (value % 0x100) as u8,
    ]
}

/// Decodes four octets in network order.
pub fn decode_be(octets: &[u8; 4]) -> (value: u32)
    ensures
        value == be_value(octets@),
{
    let b0: u32 = octets[0] as u32;
    let b1: u32 = octets[1] as u32;
    let b2: u32 = octets[2] as u32;
    let b3: u32 = octets[3] as u32;
    assert((b0 << 24 | b1 << 16 | b2 << 8 | b3) == b0 * 0x100_0000 + b1 * 0x1_0000 + b2 * 0x100
        + b3) by (bit_vector)
        requires
            b0 < 256,
            b1 < 256,
            b2 < 256,
            b3 < 256,
    ;
    b0 << 24 | b1 << 16 | b2 << 8 | b3
}

/// Encodes a word as four octets in network order.
pub fn encode_be(value: u32) -> (octets: [u8; 4])
    ensures
        octets@ == be_octets(value),
{
    assert((value >> 24) == value / 0x100_0000 && (value >> 24) < 0x100) by (bit_vector);
    assert((value >> 16) & 0xff == value / 0x1_0000 % 0x100) by (bit_vector);
    assert((value >> 8) & 0xff == value / 0x100 % 0x100) by (bit_vector);
    assert(value & 0xff == value % 0x100) by (bit_vector);
    let octets: [u8; 4] = [
        (value >> 24) as u8,
        ((value >> 16) & 0xff) as u8,
        ((value >> 8) & 0xff) as u8,
        (value & 0xff) as u8,
    ];
    assert(octets@ =~= be_octets(value));
    octets
}

/// Four octets always stand for a number that fits in 32 bits.
pub proof fn lemma_be_value_fits(octets: Seq<u8>)
    requires
        octets.len() == 4,
    ensures
        0 <= be_value(octets) <= u32::MAX,
{
}

/// Encoding a word and decoding the octets gives the word back.
pub proof fn lemma_decode_encode(value: u32)
    ensures
        be_octets(value).len() == 4,
        be_value(be_octets(value)) == value,
{
    assert(value / 0x100_0000 < 0x100 && value / 0x100_0000 * 0x100_0000 + value / 0x1_0000
        % 0x100 * 0x1_0000 + value / 0x100 % 0x100 * 0x100 + value % 0x100 == value)
        by (bit_vector);
}

/// Decoding four octets and encoding the word gives the octets back.
pub proof fn lemma_encode_decode(octets: Seq<u8>)
    requires
        octets.len() == 4,
    ensures
        be_octets(be_value(octets) as u32) == octets,
{
    let b0: u32 = octets[0] as u32;
    let b1: u32 = octets[1] as u32;
    let b2: u32 = octets[2] as u32;
    let b3: u32 = octets[3] as u32;
    let value: u32 = be_value(octets) as u32;
    assert(value / 0x100_0000 == b0 && value / 0x1_0000 % 0x100 == b1 && value / 0x100 % 0x100
        == b2 && value % 0x100 == b3) by (bit_vector)
        requires
            b0 < 256,
            b1 < 256,
            b2 < 256,
            b3 < 256,
            value == b0 * 0x100_0000 + b1 * 0x1_0000 + b2 * 0x100 + b3,
    ;
    assert(be_octets(value) =~= octets);
}

/// Four octets stand for zero exactly when each of them is zero.
pub proof fn lemma_be_value_zero(octets: Seq<u8>)
    requires
        octets.len() == 4,
    ensures
        be_value(octets) == 0 <==> octets == seq![0u8, 0u8, 0u8, 0u8],
{
    if be_value(octets) == 0 {
        assert(octets =~= seq![0u8, 0u8, 0u8, 0u8]);
    }
}

} // verus!
