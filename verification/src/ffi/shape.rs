use vstd::prelude::*;

verus! {

/// A point as the platform's polygon calls take it.
#[allow(non_camel_case_types)]
#[derive(Debug, Clone, Copy, PartialEq, Eq, Structural)]
pub struct vm_graphic_point {
    pub x: i16,
    pub y: i16,
}

/// Directions of a gradient fill.
#[allow(non_camel_case_types)]
#[derive(Debug, Clone, Copy, PartialEq, Eq, Structural)]
pub enum vm_graphic_gp_style {
    VM_GDI_GP_HOR,
    VM_GDI_GP_VER,
    VM_GDI_GP_DIA,
    VM_GDI_GP_DIA_INV,
    VM_GDI_GP_FLIP,
}

} // verus!
