use vstd::prelude::*;

verus! {

/// The value of three big-endian bytes read as a 24-bit two's-complement number.
pub open spec fn i24_of(b: Seq<u8>) -> int {
    let u = b[0] as int * 0x10000 + b[1] as int * 0x100 + b[2] as int;
    if u >= 0x80_0000 {
        u - 0x100_0000
    } else {
        u
    }
}

/// Relies on byteorder's `BigEndian::read_i24`: reads the first three bytes
/// most significant first and sign-extends bit 23.
#[verifier::external_body]
fn read_i24_be(buf: &[u8; 3]) -> (r: i32)
    ensures
        r as int == i24_of(buf@),
{
    <byteorder::BigEndian as byteorder::ByteOrder>::read_i24(buf)
}

/// Decodes a raw conversion result, most significant byte first, into a
/// signed value in `-0x80_0000 ..= 0x7F_FFFF`.
pub fn decode_conversion(raw: &[u8; 3]) -> (r: i32)
    ensures
        r as int == i24_of(raw@),
        -0x80_0000 <= r <= 0x7F_FFFF,
{
    read_i24_be(raw)
}

} // verus!
