use vstd::prelude::*;

verus! {

/// Font sizes of the platform.
#[allow(non_camel_case_types)]
#[derive(Debug, Clone, Copy, PartialEq, Eq, Structural)]
pub enum vm_graphic_font_size {
    VM_SMALL_FONT,
    VM_MEDIUM_FONT,
    VM_LARGE_FONT,
}

/// Metrics of one character.
#[allow(non_camel_case_types)]
#[derive(Debug, Clone, Copy, PartialEq, Eq, Structural)]
pub struct vm_graphic_char_info {
    pub dwidth: i32,
    pub width: i32,
    pub height: i32,
    pub ascent: i32,
    pub descent: i32,
}

} // verus!
