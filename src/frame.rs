use vstd::prelude::*;
use std::sync::Arc;

verus! {

/// A decoded video frame: dimensions and an immutable, shared pixel buffer
/// (four bytes per pixel, rows of `width` pixels).
#[derive(Clone)]
pub struct Frame {
    width: i32,
    height: i32,
    data: Arc<Vec<u8>>,
}

/// Relies on `Arc::clone`: it makes another pointer to the same allocation,
/// so the pixels are shared, not copied, and read the same.
#[verifier::external_body]
fn share_pixels(data: &Arc<Vec<u8>>) -> (r: Arc<Vec<u8>>)
    ensures
        r@ == data@,
{
    Arc::clone(data)
}

impl Frame {
    pub closed spec fn spec_width(&self) -> i32 {
        self.width
    }

    pub closed spec fn spec_height(&self) -> i32 {
        self.height
    }

    pub closed spec fn spec_data(&self) -> Seq<u8> {
        self.data@
    }

    /// Wraps the pixel bytes of a decoded sample of the given dimensions.
    pub fn new(width: i32, height: i32, data: Vec<u8>) -> (r: Frame)
        ensures
            r.spec_width() == width,
            r.spec_height() == height,
            r.spec_data() == data@,
    {
        Frame { width, height, data: Arc::new(data) }
    }

    /// Another handle on the same frame: same dimensions, and the same pixel
    /// buffer, shared.
    pub fn duplicate(&self) -> (r: Frame)
        ensures
            r.spec_width() == self.spec_width(),
            r.spec_height() == self.spec_height(),
            r.spec_data() == self.spec_data(),
    {
        Frame { width: self.width, height: self.height, data: share_pixels(&self.data) }
    }

    pub fn get_width(&self) -> (r: i32)
        ensures
            r == self.spec_width(),
    {
        self.width
    }

    pub fn get_height(&self) -> (r: i32)
        ensures
            r == self.spec_height(),
    {
        self.height
    }

    pub fn get_data(&self) -> (r: &Arc<Vec<u8>>)
        ensures
            r@ == self.spec_data(),
    {
        &self.data
    }
}

/// Something that displays decoded frames. It runs on the engine's delivery
/// thread and must not block indefinitely.
pub trait FrameRenderer: Send + Sync + 'static {
    fn render(&self, frame: Frame);
}

} // verus!
