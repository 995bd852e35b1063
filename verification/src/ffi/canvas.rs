use vstd::prelude::*;

verus! {

/// Offset of the pixel data from the start of a canvas.
pub const VM_CANVAS_DATA_OFFSET: usize = 32;

/// Properties of one frame of a canvas.
#[allow(non_camel_case_types)]
#[derive(Debug, Clone, Copy, PartialEq, Eq, Structural)]
pub struct frame_prop {
    pub flag: u8,
    pub left: u16,
    pub top: u16,
    pub width: u16,
    pub height: u16,
    pub delay_time: u16,
    pub trans_color_index: u8,
    pub trans_color: u16,
    pub offset: u32,
}

} // verus!
