use vstd::prelude::*;
use crate::ffi::screen::vm_graphic_color;

verus! {

/// A colour in the screen's RGB565 format: 5 bits of red, 6 of green, 5 of blue.
#[derive(Debug, Clone, Copy, PartialEq, Eq, Hash, Structural)]
pub struct Color(pub u16);

/// Raw RGB565 values of common colours, to be wrapped as `Color(BLACK)`.
pub const BLACK: u16 = 0x0000;
pub const WHITE: u16 = 0xFFFF;
pub const RED: u16 = 0xF800;
pub const GREEN: u16 = 0x07E0;
pub const BLUE: u16 = 0x001F;
pub const YELLOW: u16 = 0xFFE0;
pub const CYAN: u16 = 0x07FF;
pub const MAGENTA: u16 = 0xF81F;
pub const GRAY: u16 = 0x8410;
pub const LIGHT_GRAY: u16 = 0xC618;
pub const DARK_GRAY: u16 = 0x4208;
pub const ORANGE: u16 = 0xFD20;
pub const PURPLE: u16 = 0x8010;
pub const PINK: u16 = 0xFE19;
pub const BROWN: u16 = 0xA145;
pub const GOLD: u16 = 0xFEA0;
pub const MAROON: u16 = 0x8000;
pub const DARK_GREEN: u16 = 0x0400;
pub const NAVY: u16 = 0x0010;

/// The RGB565 value of 8-bit channels: each channel keeps its high bits.
pub open spec fn spec_rgb565(r: u8, g: u8, b: u8) -> u16 {
    (((r >> 3u8) as u16) << 11u16) | (((g >> 2u8) as u16) << 5u16) | ((b >> 3u8) as u16)
}

/// The red channel of an RGB565 value, widened to 8 bits.
pub open spec fn spec_red(c: u16) -> u8 {
    ((c & 0xF800u16) >> 8u16) as u8
}

/// The green channel of an RGB565 value, widened to 8 bits.
pub open spec fn spec_green(c: u16) -> u8 {
    ((c & 0x07E0u16) >> 3u16) as u8
}

/// The blue channel of an RGB565 value, widened to 8 bits.
pub open spec fn spec_blue(c: u16) -> u8 {
    ((c & 0x001Fu16) << 3u16) as u8
}

/// The 24-bit value (0xBBGGRR) that the platform pairs with an RGB565 value.
pub open spec fn spec_color_888(c: u16) -> u32 {
    ((c as u32 & 0x001F) << 19) | ((c as u32 & 0x07E0) << 5) | ((c as u32 & 0xF800) >> 8)
}

impl Color {
    /// The colour nearest to the given 8-bit channels: each keeps its high bits.
    pub fn from_rgb(r: u8, g: u8, b: u8) -> (res: Self)
        ensures
            res.0 == spec_rgb565(r, g, b),
    {
        let r5 = (r >> 3) as u16;
        let g6 = (g >> 2) as u16;
        let b5 = (b >> 3) as u16;
        Color((r5 << 11) | (g6 << 5) | b5)
    }

    /// The red channel widened to 8 bits (its low three bits are zero).
    pub fn r(&self) -> (res: u8)
        ensures
            res == spec_red(self.0),
    {
        ((self.0 & 0xF800) >> 8) as u8
    }

    /// The green channel widened to 8 bits (its low two bits are zero).
    pub fn g(&self) -> (res: u8)
        ensures
            res == spec_green(self.0),
    {
        ((self.0 & 0x07E0) >> 3) as u8
    }

    /// The blue channel widened to 8 bits (its low three bits are zero).
    pub fn b(&self) -> (res: u8)
        ensures
            res == spec_blue(self.0),
    {
        ((self.0 & 0x001F) << 3) as u8
    }

    /// The colour in the form the platform's colour calls take.
    pub fn into_sys_color(self) -> (res: vm_graphic_color)
        ensures
            res.vm_color_565 == self.0 as u32,
            res.vm_color_888 == spec_color_888(self.0),
    {
        let c = self.0 as u32;
        let color888 = ((c & 0x001F) << 19) | ((c & 0x07E0) << 5) | ((c & 0xF800) >> 8);
        vm_graphic_color { vm_color_565: c, vm_color_888: color888 }
    }

    /// The colour of a platform colour value: its RGB565 part.
    pub fn from_sys_color(sys: vm_graphic_color) -> (res: Self)
        ensures
            res.0 == sys.vm_color_565 as u16,
    {
        Color(sys.vm_color_565 as u16)
    }
}

/// Each channel read back from `from_rgb` is the channel given, with the
/// bits that RGB565 drops cleared.
pub proof fn lemma_channels_of_rgb(r: u8, g: u8, b: u8)
    ensures
        spec_red(spec_rgb565(r, g, b)) == r & 0xF8,
        spec_green(spec_rgb565(r, g, b)) == g & 0xFC,
        spec_blue(spec_rgb565(r, g, b)) == b & 0xF8,
{
    assert(((((((r >> 3u8) as u16) << 11u16) | (((g >> 2u8) as u16) << 5u16) | ((b >> 3u8) as u16)) & 0xF800u16) >> 8u16) as u8 == r & 0xF8) by (bit_vector);
    assert(((((((r >> 3u8) as u16) << 11u16) | (((g >> 2u8) as u16) << 5u16) | ((b >> 3u8) as u16)) & 0x07E0u16) >> 3u16) as u8 == g & 0xFC) by (bit_vector);
    assert(((((((r >> 3u8) as u16) << 11u16) | (((g >> 2u8) as u16) << 5u16) | ((b >> 3u8) as u16)) & 0x001Fu16) << 3u16) as u8 == b & 0xF8) by (bit_vector);
}

/// Every colour is rebuilt exactly by `from_rgb` from its own channels.
pub proof fn lemma_rgb_round_trip(c: u16)
    ensures
        spec_rgb565(spec_red(c), spec_green(c), spec_blue(c)) == c,
{
    let r = spec_red(c);
    let g = spec_green(c);
    let b = spec_blue(c);
    assert((((r >> 3u8) as u16) << 11u16) | (((g >> 2u8) as u16) << 5u16) | ((b >> 3u8) as u16) == c) by (bit_vector)
        requires
            r == ((c & 0xF800u16) >> 8u16) as u8,
            g == ((c & 0x07E0u16) >> 3u16) as u8,
            b == ((c & 0x001Fu16) << 3u16) as u8,
    ;
}

/// A colour survives the trip through the platform's colour value.
pub proof fn lemma_sys_color_round_trip(c: u16)
    ensures
        (c as u32) as u16 == c,
{
}

/// The platform's 24-bit value (0xBBGGRR) carries the same three channels
/// that `r`, `g` and `b` report: red in the low byte, green in the middle
/// byte, blue in the third byte, and nothing above them.
pub proof fn lemma_color_888_channels(c: u16)
    ensures
        spec_color_888(c) & 0xFF == spec_red(c) as u32,
        (spec_color_888(c) >> 8) & 0xFF == spec_green(c) as u32,
        (spec_color_888(c) >> 16) & 0xFF == spec_blue(c) as u32,
        spec_color_888(c) < 0x0100_0000,
{
    assert(((((c as u32 & 0x001F) << 19) | ((c as u32 & 0x07E0) << 5) | ((c as u32 & 0xF800) >> 8)) & 0xFF)
        == (((c & 0xF800u16) >> 8u16) as u8) as u32) by (bit_vector);
    assert((((((c as u32 & 0x001F) << 19) | ((c as u32 & 0x07E0) << 5) | ((c as u32 & 0xF800) >> 8)) >> 8) & 0xFF)
        == (((c & 0x07E0u16) >> 3u16) as u8) as u32) by (bit_vector);
    assert((((((c as u32 & 0x001F) << 19) | ((c as u32 & 0x07E0) << 5) | ((c as u32 & 0xF800) >> 8)) >> 16) & 0xFF)
        == (((c & 0x001Fu16) << 3u16) as u8) as u32) by (bit_vector);
    assert((((c as u32 & 0x001F) << 19) | ((c as u32 & 0x07E0) << 5) | ((c as u32 & 0xF800) >> 8))
        < 0x0100_0000) by (bit_vector);
}

/// The colour the platform reports as current, from its colour value.
pub fn get_global_color(sys: vm_graphic_color) -> (res: Color)
    ensures
        res.0 == sys.vm_color_565 as u16,
{
    Color::from_sys_color(sys)
}

/// The outcome of setting the current colour, from the platform's status: non-zero is an error.
pub fn set_global_color(status: i32) -> (res: Result<(), i32>)
    ensures
        status == 0 ==> res is Ok,
        status != 0 ==> res == Err::<(), i32>(status),
{
    if status == 0 {
        Ok(())
    } else {
        Err(status)
    }
}

} // verus!
