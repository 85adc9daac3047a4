use embedded_graphics::pixelcolor::raw::{RawU16, ToBytes};
use embedded_graphics::pixelcolor::Rgb565;
use embedded_graphics::prelude::IntoStorage;
use vstd::prelude::*;

verus! {

/// The RGB565 word of red, green and blue channel values: five bits of red
/// above six bits of green above five bits of blue. Bits of a channel beyond
/// its width are dropped.
pub open spec fn rgb565_word(r: u8, g: u8, b: u8) -> u16 {
    ((r % 32) as int * 2048 + (g % 64) as int * 32 + (b % 32) as int) as u16
}

/// The two bytes of a 16-bit word, most significant first.
pub open spec fn be_bytes(w: u16) -> Seq<u8> {
    seq![(w / 256) as u8, (w % 256) as u8]
}

/// A pixel colour in the panel's 16 bits per pixel format.
#[derive(Clone, Copy, Debug, PartialEq, Eq, Structural)]
pub struct Colour {
    /// The RGB565 word.
    pub raw: u16,
}

/// Relies on embedded-graphics' `Rgb565::new` and `IntoStorage::into_storage`:
/// each channel is masked to its width and shifted into place.
#[verifier::external_body]
fn rgb565_storage(r: u8, g: u8, b: u8) -> (w: u16)
    ensures
        w == rgb565_word(r, g, b),
{
    Rgb565::new(r, g, b).into_storage()
}

/// Relies on embedded-graphics' `ToBytes::to_be_bytes` for `Rgb565`: the
/// 16-bit word, most significant byte first.
#[verifier::external_body]
fn rgb565_be_bytes(w: u16) -> (bytes: [u8; 2])
    ensures
        bytes@ == be_bytes(w),
{
    Rgb565::from(RawU16::new(w)).to_be_bytes()
}

impl Colour {
    /// The colour with this RGB565 word.
    pub fn from_raw(raw: u16) -> (c: Colour)
        ensures
            c.raw == raw,
    {
        Colour { raw }
    }

    /// The colour of these channel values: red and blue of five bits, green of
    /// six bits; higher bits of a channel are ignored.
    pub fn new(r: u8, g: u8, b: u8) -> (c: Colour)
        ensures
            c.raw == rgb565_word(r, g, b),
    {
        Colour { raw: rgb565_storage(r, g, b) }
    }

    /// The two bytes that carry this colour on the wire, most significant first.
    pub fn to_be_bytes(&self) -> (bytes: [u8; 2])
        ensures
            bytes@ == be_bytes(self.raw),
    {
        rgb565_be_bytes(self.raw)
    }
}

} // verus!
