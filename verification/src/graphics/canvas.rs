use vstd::prelude::*;
use crate::graphics::layer::Layer;

verus! {

/// An off-screen image of the platform, by handle, with its size.
pub struct Canvas {
    handle: i32,
    width: i32,
    height: i32,
}

impl Canvas {
    pub closed spec fn spec_handle(&self) -> i32 {
        self.handle
    }

    pub closed spec fn spec_width(&self) -> i32 {
        self.width
    }

    pub closed spec fn spec_height(&self) -> i32 {
        self.height
    }

    /// A canvas of the given size, from the handle the platform's create
    /// call returned: zero or negative is the error.
    pub fn create(handle: i32, width: i32, height: i32) -> (res: Result<Self, i32>)
        ensures
            handle <= 0 ==> res == Err::<Canvas, i32>(handle),
            handle > 0 ==> (res matches Ok(c) && c.spec_handle() == handle && c.spec_width() == width
                && c.spec_height() == height),
    {
        if handle <= 0 {
            return Err(handle);
        }
        Ok(Canvas { handle, width, height })
    }

    /// A canvas for a handle known to be valid.
    pub fn from_handle(handle: i32, width: i32, height: i32) -> (res: Self)
        ensures
            res.spec_handle() == handle,
            res.spec_width() == width,
            res.spec_height() == height,
    {
        Canvas { handle, width, height }
    }

    pub fn handle(&self) -> (res: i32)
        ensures
            res == self.spec_handle(),
    {
        self.handle
    }

    pub fn width(&self) -> (res: i32)
        ensures
            res == self.spec_width(),
    {
        self.width
    }

    pub fn height(&self) -> (res: i32)
        ensures
            res == self.spec_height(),
    {
        self.height
    }

    /// The layer drawn from this canvas's pixels, from the handle the
    /// platform's create call returned: it has the canvas's size.
    pub fn bind_to_layer(&self, layer_handle: i32) -> (res: Result<Layer, i32>)
        ensures
            layer_handle < 0 ==> res == Err::<Layer, i32>(layer_handle),
            layer_handle >= 0 ==> (res matches Ok(l) && l.spec_handle() == layer_handle
                && l.spec_width() == self.spec_width() && l.spec_height() == self.spec_height()),
    {
        Layer::create(layer_handle, self.width, self.height)
    }

    /// The outcome of setting the transparent colour, from the platform's status: non-zero is an error.
    pub fn set_trans_color(&self, status: i32) -> (res: Result<(), i32>)
        ensures
            status == 0 ==> res is Ok,
            status != 0 ==> res == Err::<(), i32>(status),
    {
        if status == 0 {
            Ok(())
        } else {
            Err(status)
        }
    }
}

} // verus!
