use vstd::prelude::*;
use embedded_graphics::pixelcolor::raw::RawData;

verus! {

/// `embedded_graphics::pixelcolor::Rgb565`, a colour of the drawing library; opaque here.
#[verifier::external_type_specification]
#[verifier::external_body]
pub struct ExRgb565(embedded_graphics::pixelcolor::Rgb565);

/// The raw RGB565 word that the drawing library stores for a colour.
pub uninterp spec fn rgb565_raw_value(color: embedded_graphics::pixelcolor::Rgb565) -> u16;

/// The raw RGB565 value of a colour of the drawing library
/// (`RawU16::from(color).into_inner()`). The contract claims only that the
/// result is that colour's raw word, a function of the colour alone; which
/// word it is stays unstated, as the colour is opaque here.
#[verifier::external_body]
fn rgb565_raw(color: embedded_graphics::pixelcolor::Rgb565) -> (res: u16)
    ensures
        res == rgb565_raw_value(color),
{
    embedded_graphics::pixelcolor::raw::RawU16::from(color).into_inner()
}

/// The slot of pixel (x, y) in a row-major buffer of the given size, when
/// the pixel lies inside it.
pub open spec fn spec_pixel_index(x: i32, y: i32, width: i32, height: i32) -> Option<int> {
    if 0 <= x < width && 0 <= y < height {
        Some(y * width + x)
    } else {
        None
    }
}

/// The slot of pixel (x, y) in a row-major buffer of the given size.
pub fn pixel_index(x: i32, y: i32, width: i32, height: i32) -> (res: Option<usize>)
    requires
        width > 0 && height > 0 ==> (width as int) * (height as int) <= usize::MAX,
    ensures
        match res {
            Some(i) => spec_pixel_index(x, y, width, height) == Some(i as int) && (i as int) < width * height,
            None => spec_pixel_index(x, y, width, height) is None,
        },
{
    if x >= 0 && x < width && y >= 0 && y < height {
        assert((y as int) * (width as int) + (x as int) < (width as int) * (height as int)) by (nonlinear_arith)
            requires
                0 <= x < width,
                0 <= y < height,
        ;
        assert((y as int) * (width as int) >= 0) by (nonlinear_arith)
            requires
                0 <= y,
                0 <= width,
        ;
        assert((width as int) * (height as int) <= 0x7FFF_FFFF * 0x7FFF_FFFF) by (nonlinear_arith)
            requires
                0 <= width,
                0 <= height,
                width <= 0x7FFF_FFFF,
                height <= 0x7FFF_FFFF,
        ;
        let i: i64 = (y as i64) * (width as i64) + (x as i64);
        Some(i as usize)
    } else {
        None
    }
}

/// Writes the raw colour `raw` at pixel (x, y) of a row-major buffer of the
/// given size; pixels outside the buffer are ignored.
pub fn draw_pixel(buf: &mut [u16], width: i32, height: i32, x: i32, y: i32, raw: u16)
    requires
        width > 0 && height > 0 ==> old(buf)@.len() >= width * height,
    ensures
        final(buf)@.len() == old(buf)@.len(),
        spec_pixel_index(x, y, width, height) is None ==> final(buf)@ == old(buf)@,
        spec_pixel_index(x, y, width, height) matches Some(i) ==> forall|k: int|
            0 <= k < old(buf)@.len() && k != i ==> final(buf)@[k] == old(buf)@[k],
        final(buf)@ == match spec_pixel_index(x, y, width, height) {
            Some(i) => old(buf)@.update(i, raw),
            None => old(buf)@,
        },
{
    match pixel_index(x, y, width, height) {
        Some(i) => {
            buf[i] = raw;
        },
        None => {},
    }
}

/// Draws a colour of the drawing library at pixel (x, y): that pixel takes
/// the colour's raw word when it lies inside the buffer; nothing else changes.
pub fn draw_color_pixel(buf: &mut [u16], width: i32, height: i32, x: i32, y: i32, color: embedded_graphics::pixelcolor::Rgb565)
    requires
        width > 0 && height > 0 ==> old(buf)@.len() >= width * height,
    ensures
        final(buf)@.len() == old(buf)@.len(),
        spec_pixel_index(x, y, width, height) is None ==> final(buf)@ == old(buf)@,
        spec_pixel_index(x, y, width, height) matches Some(i) ==> forall|k: int|
            0 <= k < old(buf)@.len() && k != i ==> final(buf)@[k] == old(buf)@[k],
        final(buf)@ == match spec_pixel_index(x, y, width, height) {
            Some(i) => old(buf)@.update(i, rgb565_raw_value(color)),
            None => old(buf)@,
        },
{
    let raw = rgb565_raw(color);
    draw_pixel(buf, width, height, x, y, raw);
}

} // verus!
