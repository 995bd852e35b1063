use vstd::prelude::*;
use crate::ffi::image::vm_graphic_imgprop;
use crate::graphics::canvas::Canvas;

verus! {

/// Size of an image.
#[derive(Debug, Clone, Copy, PartialEq, Eq, Structural)]
pub struct ImageProperties {
    pub width: i32,
    pub height: i32,
}

/// The size of an image, from the platform's status (0 is success) and the record it filled.
pub fn get_properties(status: i32, prop: vm_graphic_imgprop) -> (res: Result<ImageProperties, i32>)
    ensures
        status == 0 ==> res == Ok::<ImageProperties, i32>(ImageProperties { width: prop.width, height: prop.height }),
        status != 0 ==> res == Err::<ImageProperties, i32>(status),
{
    if status == 0 {
        Ok(ImageProperties { width: prop.width, height: prop.height })
    } else {
        Err(status)
    }
}

/// A canvas holding a decoded image of the given size, from the handle the
/// platform's load call returned: zero or negative is the error.
pub fn load_canvas(handle: i32, props: ImageProperties) -> (res: Result<Canvas, i32>)
    ensures
        handle <= 0 ==> res == Err::<Canvas, i32>(handle),
        handle > 0 ==> (res matches Ok(c) && c.spec_handle() == handle && c.spec_width() == props.width
            && c.spec_height() == props.height),
{
    if handle <= 0 {
        return Err(handle);
    }
    Ok(Canvas::from_handle(handle, props.width, props.height))
}

/// The outcome of a drawing call, from the platform's status: non-zero is an error.
pub fn draw_result(status: i32) -> (res: Result<(), i32>)
    ensures
        status == 0 ==> res is Ok,
        status != 0 ==> res == Err::<(), i32>(status),
{
    if status == 0 {
        Ok(())
    } else {
        Err(status)
    }
}

} // verus!
