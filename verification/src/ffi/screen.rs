use vstd::prelude::*;

verus! {

/// The transparent-colour value that means "no transparent colour".
pub const VM_NO_TRANS_COLOR: i32 = -1;

/// A colour as the platform's graphics calls exchange it: the RGB565 value
/// and the same colour widened to 24 bits (stored as 0xBBGGRR).
#[allow(non_camel_case_types)]
#[derive(Debug, Clone, Copy, PartialEq, Eq, Structural)]
pub struct vm_graphic_color {
    pub vm_color_565: u32,
    pub vm_color_888: u32,
}

} // verus!
