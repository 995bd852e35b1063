use vstd::prelude::*;
use crate::ffi::shape::{vm_graphic_point, vm_graphic_gp_style};
use crate::graphics::canvas::Canvas;
use crate::graphics::layer::Layer;

verus! {

/// Where the pixels that a drawing call paints live.
#[derive(Debug, Clone, Copy, PartialEq, Eq, Structural)]
pub enum TargetBuffer {
    /// The buffer of the layer with this handle, as the platform hands it out.
    LayerBuffer(i32),
    /// The canvas with this handle: the platform draws into it directly.
    CanvasHandle(i32),
}

/// Something the platform's drawing calls can paint on.
pub trait DrawTarget {
    /// Where its pixels live.
    fn buffer_source(&self) -> TargetBuffer;
}

impl DrawTarget for Layer {
    fn buffer_source(&self) -> (res: TargetBuffer)
        ensures
            res == TargetBuffer::LayerBuffer(self.spec_handle()),
    {
        TargetBuffer::LayerBuffer(self.handle())
    }
}

impl DrawTarget for Canvas {
    fn buffer_source(&self) -> (res: TargetBuffer)
        ensures
            res == TargetBuffer::CanvasHandle(self.spec_handle()),
    {
        TargetBuffer::CanvasHandle(self.handle())
    }
}

/// Directions of a gradient fill.
pub type GradientStyle = vm_graphic_gp_style;

/// The points of a polygon as the platform takes them, in order.
pub fn to_mre_points(points: &[(i16, i16)]) -> (res: Vec<vm_graphic_point>)
    ensures
        res@.len() == points@.len(),
        forall|i: int| 0 <= i < points@.len() ==> res@[i] == (vm_graphic_point { x: points@[i].0, y: points@[i].1 }),
{
    let mut out: Vec<vm_graphic_point> = Vec::new();
    let mut i: usize = 0;
    while i < points.len()
        invariant
            i <= points@.len(),
            out@.len() == i,
            forall|k: int| 0 <= k < i ==> out@[k] == (vm_graphic_point { x: points@[k].0, y: points@[k].1 }),
        decreases points@.len() - i,
    {
        let (x, y) = points[i];
        out.push(vm_graphic_point { x, y });
        i = i + 1;
    }
    out
}

} // verus!
