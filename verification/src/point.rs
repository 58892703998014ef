//! A pixel write and its fixed-width wire form.
//!
//! On the wire a write takes eleven bytes: the column and the row as 32-bit
//! big-endian integers, then one byte each for red, green and blue.

use vstd::prelude::*;

verus! {

/// The length in bytes of a pixel write on the wire.
pub const WIRE_LEN: usize = 11;

/// A colour with one byte per channel.
#[derive(Clone, Copy, Debug, PartialEq, Eq, Structural)]
pub struct Color {
    pub r: u8,
    pub g: u8,
    pub b: u8,
}

impl Color {
    /// White, the colour of a canvas that nobody has painted on.
    pub open spec fn spec_white() -> Color {
        Color { r: 255, g: 255, b: 255 }
    }

    /// White, the colour of a canvas that nobody has painted on.
    #[verifier::when_used_as_spec(spec_white)]
    pub fn white() -> (color: Color)
        ensures
            color == Color::spec_white(),
    {
        Color { r: 255, g: 255, b: 255 }
    }
}

/// One pixel write: a column, a row and the colour to put there.
#[derive(Clone, Copy, Debug, PartialEq, Eq, Structural)]
pub struct Point {
    pub x: u32,
    pub y: u32,
    pub color: Color,
}

/// The four bytes of `value`, most significant first.
pub open spec fn be32(value: u32) -> Seq<u8> {
    seq![
        (value / 0x100_0000) as u8,
        (value / 0x1_0000 % 0x100) as u8,
        (value / 0x100 % 0x100) as u8,
        (value % 0x100) as u8,
    ]
}

/// The number that four bytes spell, most significant first.
pub open spec fn be32_value(bytes: Seq<u8>) -> int
    recommends
        bytes.len() == 4,
{
    bytes[0] * 0x100_0000 + bytes[1] * 0x1_0000 + bytes[2] * 0x100 + bytes[3]
}

impl Point {
    /// The wire form of this write.
    pub open spec fn wire(self) -> Seq<u8> {
        be32(self.x) + be32(self.y) + seq![self.color.r, self.color.g, self.color.b]
    }

    /// The write that `data` begins with, if `data` is long enough to hold
    /// one. Bytes after the eleventh are not looked at.
    pub open spec fn parse(data: Seq<u8>) -> Option<Point> {
        if data.len() < WIRE_LEN {
            None
        } else {
            Some(
                Point {
                    x: be32_value(data.subrange(0, 4)) as u32,
                    y: be32_value(data.subrange(4, 8)) as u32,
                    color: Color { r: data[8], g: data[9], b: data[10] },
                },
            )
        }
    }

    pub fn new(x: u32, y: u32, r: u8, g: u8, b: u8) -> (point: Point)
        ensures
            point == (Point { x, y, color: Color { r, g, b } }),
    {
        Point { x, y, color: Color { r, g, b } }
    }

    /// Encodes this write for the wire.
    pub fn to_byte(&self) -> (bytes: Vec<u8>)
        ensures
            bytes@ == self.wire(),
            bytes@.len() == WIRE_LEN,
    {
        let mut result: Vec<u8> = Vec::with_capacity(WIRE_LEN);
        push_be32(&mut result, self.x);
        push_be32(&mut result, self.y);
        result.push(self.color.r);
        result.push(self.color.g);
        result.push(self.color.b);
        result
    }

    /// Decodes the write that `data` begins with. A buffer of fewer than
    /// eleven bytes holds no write and gives `None`.
    pub fn from_byte(data: &[u8]) -> (decoded: Option<Point>)
        ensures
            decoded == Point::parse(data@),
            decoded is Some <==> data@.len() >= WIRE_LEN,
    {
        if data.len() < WIRE_LEN {
            return None;
        }
        let x: u32 = read_be32(data, 0);
        let y: u32 = read_be32(data, 4);
        Some(Point::new(x, y, data[8], data[9], data[10]))
    }
}

/// Appends the big-endian bytes of `value` to `out`.
fn push_be32(out: &mut Vec<u8>, value: u32)
    ensures
        final(out)@ == old(out)@ + be32(value),
{
    out.push((value / 0x100_0000) as u8);
    out.push((value / 0x1_0000 % 0x100) as u8);
    out.push((value / 0x100 % 0x100) as u8);
    out.push((value % 0x100) as u8);
}

/// Reads the big-endian integer that starts at `at`.
fn read_be32(data: &[u8], at: usize) -> (value: u32)
    requires
        at + 4 <= data@.len(),
    ensures
        value == be32_value(data@.subrange(at as int, at + 4)),
{
    let b0: u32 = data[at] as u32;
    let b1: u32 = data[at + 1] as u32;
    let b2: u32 = data[at + 2] as u32;
    let b3: u32 = data[at + 3] as u32;
    b0 * 0x100_0000 + b1 * 0x1_0000 + b2 * 0x100 + b3
}

/// Four bytes always spell a number that fits in 32 bits.
pub proof fn lemma_be32_value_fits(bytes: Seq<u8>)
    requires
        bytes.len() == 4,
    ensures
        0 <= be32_value(bytes) <= u32::MAX,
{
}

/// Reading back the bytes of an integer gives the integer.
pub proof fn lemma_be32_round_trip(value: u32)
    ensures
        be32(value).len() == 4,
        be32_value(be32(value)) == value,
{
}

/// Writing out the number that four bytes spell gives the four bytes.
pub proof fn lemma_be32_value_round_trip(bytes: Seq<u8>)
    requires
        bytes.len() == 4,
    ensures
        be32(be32_value(bytes) as u32) == bytes,
{
    let b0 = bytes[0] as int;
    let b1 = bytes[1] as int;
    let b2 = bytes[2] as int;
    let b3 = bytes[3] as int;
    let low2 = b2 * 0x100 + b3;
    let low3 = b1 * 0x1_0000 + low2;
    let value = b0 * 0x100_0000 + low3;
    assert(0 <= low2 < 0x1_0000 && 0 <= low3 < 0x100_0000);
    assert(value % 0x100 == b3);
    assert(value / 0x100 == b0 * 0x1_0000 + b1 * 0x100 + b2);
    assert(value / 0x1_0000 == b0 * 0x100 + b1);
    assert(value / 0x100_0000 == b0);
    assert(be32(value as u32) =~= bytes);
}

/// Every write takes exactly eleven bytes on the wire.
pub proof fn lemma_wire_len(point: Point)
    ensures
        point.wire().len() == WIRE_LEN,
{
}

/// Decoding the encoding of a write gives the write back.
pub proof fn lemma_decode_encode(point: Point)
    ensures
        Point::parse(point.wire()) == Some(point),
{
    let bytes = point.wire();
    lemma_be32_round_trip(point.x);
    lemma_be32_round_trip(point.y);
    assert(bytes.subrange(0, 4) == be32(point.x));
    assert(bytes.subrange(4, 8) == be32(point.y));
}

/// A buffer of exactly eleven bytes is the encoding of the write it decodes
/// to, so no two such buffers decode to the same write.
pub proof fn lemma_encode_decode(data: Seq<u8>)
    requires
        data.len() == WIRE_LEN,
    ensures
        Point::parse(data) is Some,
        Point::parse(data)->Some_0.wire() == data,
{
    let point = Point::parse(data)->Some_0;
    lemma_be32_value_fits(data.subrange(0, 4));
    lemma_be32_value_fits(data.subrange(4, 8));
    lemma_be32_value_round_trip(data.subrange(0, 4));
    lemma_be32_value_round_trip(data.subrange(4, 8));
    assert(point.wire() =~= data);
}

} // verus!
