use vstd::prelude::*;
use crate::ffi::text::vm_graphic_font_size;
use crate::ffi::ucs2::{to_ucs2, encode_utf16, spec_to_ucs2};

verus! {

/// Font sizes.
#[derive(Debug, Clone, Copy, PartialEq, Eq, Structural)]
pub enum FontSize {
    Small,
    Medium,
    Large,
}

impl FontSize {
    /// The platform's size.
    pub fn to_mre(self) -> (res: vm_graphic_font_size)
        ensures
            res == match self {
                FontSize::Small => vm_graphic_font_size::VM_SMALL_FONT,
                FontSize::Medium => vm_graphic_font_size::VM_MEDIUM_FONT,
                FontSize::Large => vm_graphic_font_size::VM_LARGE_FONT,
            },
    {
        match self {
            FontSize::Small => vm_graphic_font_size::VM_SMALL_FONT,
            FontSize::Medium => vm_graphic_font_size::VM_MEDIUM_FONT,
            FontSize::Large => vm_graphic_font_size::VM_LARGE_FONT,
        }
    }
}

/// The flags handed to the platform's font-style call: 1 for on, 0 for off.
pub fn font_style_flags(bold: bool, italic: bool, underline: bool) -> (res: (i32, i32, i32))
    ensures
        res == (if bold { 1i32 } else { 0i32 }, if italic { 1i32 } else { 0i32 }, if underline { 1i32 } else { 0i32 }),
{
    (if bold { 1 } else { 0 }, if italic { 1 } else { 0 }, if underline { 1 } else { 0 })
}

/// The text as the platform's drawing calls take it: zero-terminated
/// UTF-16, and its length in units without the terminator (truncated to 32 bits).
pub fn text_args(text: &str) -> (res: (Vec<u16>, i32))
    ensures
        res.0@ == spec_to_ucs2(text@),
        res.1 == encode_utf16(text@).len() as i32,
{
    let units = to_ucs2(text);
    let len = (units.len() - 1) as i32;
    (units, len)
}

} // verus!
