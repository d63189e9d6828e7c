//! Base64 text of binary payloads.
use vstd::prelude::*;
use base64::Engine;

verus! {

/// The character of the standard base64 alphabet (RFC 4648) for a 6-bit
/// value: `A`-`Z`, `a`-`z`, `0`-`9`, `+`, `/`.
pub open spec fn base64_digit(v: int) -> char {
    if v < 26 {
        (65 + v) as char
    } else if v < 52 {
        (97 + (v - 26)) as char
    } else if v < 62 {
        (48 + (v - 52)) as char
    } else if v == 62 {
        '+'
    } else {
        '/'
    }
}

/// The standard, padded base64 encoding of `b`: each group of three bytes
/// becomes four characters; a last group of one or two bytes is padded
/// with `=`.
pub open spec fn base64_text(b: Seq<u8>) -> Seq<char>
    decreases b.len(),
{
    if b.len() == 0 {
        Seq::empty()
    } else if b.len() == 1 {
        let x = b[0] as int;
        seq![base64_digit(x / 4), base64_digit((x % 4) * 16), '=', '=']
    } else if b.len() == 2 {
        let x = b[0] as int;
        let y = b[1] as int;
        seq![base64_digit(x / 4), base64_digit((x % 4) * 16 + y / 16), base64_digit((y % 16) * 4), '=']
    } else {
        let x = b[0] as int;
        let y = b[1] as int;
        let z = b[2] as int;
        seq![
            base64_digit(x / 4),
            base64_digit((x % 4) * 16 + y / 16),
            base64_digit((y % 16) * 4 + z / 64),
            base64_digit(z % 64),
        ] + base64_text(b.subrange(3, b.len() as int))
    }
}

/// The big-endian 32-bit number in the four bytes of `b` from `at`.
pub open spec fn be_u32(b: Seq<u8>, at: int) -> int {
    b[at] * 16777216 + b[at + 1] * 65536 + b[at + 2] * 256 + b[at + 3]
}

/// The eight bytes every PNG file starts with.
pub open spec fn png_signature() -> Seq<u8> {
    seq![0x89u8, 0x50u8, 0x4eu8, 0x47u8, 0x0du8, 0x0au8, 0x1au8, 0x0au8]
}

/// `b` starts like a PNG file of a `width` by `height` picture with the
/// given bit depth and colour type: the signature, then the IHDR chunk
/// (length 13, the name `IHDR`, width, height, depth, colour type).
pub open spec fn png_header(b: Seq<u8>, width: int, height: int, depth: u8, color: u8) -> bool {
    &&& b.len() >= 26
    &&& b.subrange(0, 8) == png_signature()
    &&& b.subrange(8, 16) == seq![0u8, 0u8, 0u8, 13u8, 0x49u8, 0x48u8, 0x44u8, 0x52u8]
    &&& be_u32(b, 16) == width
    &&& be_u32(b, 20) == height
    &&& b[24] == depth
    &&& b[25] == color
}

/// `base64::engine::general_purpose::STANDARD.encode`. Claimed, as the
/// crate documents for its standard engine: the RFC 4648 alphabet with
/// padding, i.e. exactly `base64_text` of the input.
#[verifier::external_body]
pub(crate) fn base64_encode(bytes: &[u8]) -> (r: String)
    ensures
        r@ == base64_text(bytes@),
{
    base64::engine::general_purpose::STANDARD.encode(bytes)
}

} // verus!
