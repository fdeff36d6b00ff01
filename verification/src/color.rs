//! Texel colors with eight bits per channel.

use vstd::prelude::*;

verus! {

/// A color whose channels lie in memory in the order red, green, blue, alpha.
#[derive(Clone, Copy, Debug, PartialEq, Eq, Structural)]
pub struct Rgba8 {
    pub r: u8,
    pub g: u8,
    pub b: u8,
    pub a: u8,
}

/// A color whose channels lie in memory in the order blue, green, red, alpha.
#[derive(Clone, Copy, Debug, PartialEq, Eq, Structural)]
pub struct Bgra8 {
    pub b: u8,
    pub g: u8,
    pub r: u8,
    pub a: u8,
}

impl Rgba8 {
    pub fn new(r: u8, g: u8, b: u8, a: u8) -> (color: Self)
        ensures
            color == (Rgba8 { r, g, b, a }),
    {
        Rgba8 { r, g, b, a }
    }
}

impl Bgra8 {
    pub fn new(r: u8, g: u8, b: u8, a: u8) -> (color: Self)
        ensures
            color == (Bgra8 { b, g, r, a }),
    {
        Bgra8 { b, g, r, a }
    }

    /// The color that four bytes in memory stand for. Sequences of another
    /// length stand for no color; the result is then arbitrary.
    pub open spec fn spec_from_bytes(bytes: Seq<u8>) -> Bgra8 {
        Bgra8 { b: bytes[0], g: bytes[1], r: bytes[2], a: bytes[3] }
    }
}

/// The pixels that a run of bytes holds, four bytes to a pixel. Bytes after
/// the last whole pixel belong to no pixel.
pub open spec fn pixels_of(bytes: Seq<u8>) -> Seq<Bgra8> {
    Seq::new(
        (bytes.len() / 4) as nat,
        |i: int| Bgra8::spec_from_bytes(bytes.subrange(4 * i, 4 * i + 4)),
    )
}

/// Reads a run of bytes as pixels, four bytes to a pixel.
pub fn decode_pixels(bytes: &[u8]) -> (pixels: Vec<Bgra8>)
    ensures
        pixels@ == pixels_of(bytes@),
{
    let count: usize = bytes.len() / 4;
    let mut pixels: Vec<Bgra8> = Vec::with_capacity(count);
    let mut i: usize = 0;
    while i < count
        invariant
            count == bytes@.len() / 4,
            4 * count <= bytes@.len() <= usize::MAX,
            i <= count,
            pixels@.len() == i,
            forall|j: int|
                0 <= j < i ==> pixels@[j] == Bgra8::spec_from_bytes(
                    #[trigger] bytes@.subrange(4 * j, 4 * j + 4),
                ),
        decreases count - i,
    {
        let at: usize = 4 * i;
        let pixel = Bgra8 { b: bytes[at], g: bytes[at + 1], r: bytes[at + 2], a: bytes[at + 3] };
        assert(bytes@.subrange(4 * i, 4 * i + 4) =~= seq![
            bytes@[4 * i],
            bytes@[4 * i + 1],
            bytes@[4 * i + 2],
            bytes@[4 * i + 3],
        ]);
        pixels.push(pixel);
        i += 1;
    }
    assert(pixels@ =~= pixels_of(bytes@));
    pixels
}

} // verus!
