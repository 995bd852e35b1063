use vstd::prelude::*;

verus! {

/// Size of an image, as the platform reports it.
#[allow(non_camel_case_types)]
#[derive(Debug, Clone, Copy, PartialEq, Eq, Structural)]
pub struct vm_graphic_imgprop {
    pub width: i32,
    pub height: i32,
}

} // verus!
