//! Colors and their packed pixel form.

use vstd::prelude::*;

verus! {

/// A pixel as the display stores it: `0x00RRGGBB`.
pub type Pixel = u32;

/// A color of three independent 8-bit channels.
#[derive(Debug, Clone, Copy, PartialEq, Eq, Structural)]
pub struct Rgb {
    pub r: u8,
    pub g: u8,
    pub b: u8,
}

impl Rgb {
    /// The packed pixel of this color: red in bits 16..24, green in bits
    /// 8..16, blue in bits 0..8.
    pub open spec fn pixel(self) -> Pixel {
        ((self.r as u32) << 16) | ((self.g as u32) << 8) | (self.b as u32)
    }

    /// Packs the three channels into one pixel.
    pub fn to_pixel(&self) -> (p: Pixel)
        ensures
            p == self.pixel(),
    {
        ((self.r as Pixel) << 16) | ((self.g as Pixel) << 8) | (self.b as Pixel)
    }

    /// The packed pixel is the number `r * 65536 + g * 256 + b`; it fits in
    /// 24 bits.
    pub proof fn lemma_pixel_value(self)
        ensures
            self.pixel() == self.r * 65536 + self.g * 256 + self.b,
            self.pixel() <= 0xFF_FFFF,
    {
        let r = self.r;
        let g = self.g;
        let b = self.b;
        assert((((r as u32) << 16) | ((g as u32) << 8) | (b as u32)) == (r as u32) * 65536 + (g as u32) * 256 + (b as u32)) by (bit_vector);
    }

    /// Each channel can be read back from the packed pixel, so two colors
    /// with the same pixel are the same color.
    pub proof fn lemma_pixel_injective(self, other: Rgb)
        ensures
            self.pixel() == other.pixel() <==> self == other,
            (self.pixel() >> 16) & 0xFF == self.r,
            (self.pixel() >> 8) & 0xFF == self.g,
            self.pixel() & 0xFF == self.b,
    {
        self.lemma_pixel_value();
        other.lemma_pixel_value();
        let r = self.r;
        let g = self.g;
        let b = self.b;
        let p = self.pixel();
        assert(p == ((r as u32) << 16) | ((g as u32) << 8) | (b as u32));
        assert((p >> 16) & 0xFF == r && (p >> 8) & 0xFF == g && p & 0xFF == b) by (bit_vector)
            requires
                p == ((r as u32) << 16) | ((g as u32) << 8) | (b as u32),
        ;
    }
}

} // verus!
