use vstd::prelude::*;

verus! {

/// Pixels in one row of a frame.
pub const FRAME_WIDTH: usize = 256;

/// Rows of a frame.
pub const FRAME_HEIGHT: usize = 240;

/// Bytes of a frame: three for each pixel.
pub const FRAME_BYTES: usize = 184320;

/// The bytes of a frame after the pixel in column `x` of row `y` took the
/// colour `rgb`. The pixel starts at byte `y * 768 + x * 3`; where its
/// three bytes do not lie within the frame, nothing changes.
pub open spec fn with_pixel(data: Seq<u8>, x: int, y: int, rgb: (u8, u8, u8)) -> Seq<u8> {
    let pixel_index = y * 3 * 256 + x * 3;
    if 0 <= x && 0 <= y && pixel_index + 2 < data.len() {
        data.update(pixel_index, rgb.0).update(pixel_index + 1, rgb.1).update(
            pixel_index + 2,
            rgb.2,
        )
    } else {
        data
    }
}

/// A picture of 256 by 240 pixels with three bytes, red, green and blue,
/// for each pixel, row by row.
pub struct Frame {
    data: Vec<u8>,
}

impl View for Frame {
    type V = Seq<u8>;

    closed spec fn view(&self) -> Seq<u8> {
        self.data@
    }
}

impl Frame {
    /// A black frame.
    pub fn new() -> (frame: Frame)
        ensures
            frame@ == Seq::new(184320, |i: int| 0u8),
            frame@.len() == 184320,
    {
        let frame = Frame { data: vec![0u8; FRAME_BYTES] };
        assert(frame@ =~= Seq::new(184320, |i: int| 0u8));
        frame
    }

    pub fn set_pixel(&mut self, x: usize, y: usize, rgb: (u8, u8, u8))
        requires
            old(self)@.len() == 184320,
        ensures
            final(self)@ == with_pixel(old(self)@, x as int, y as int, rgb),
            final(self)@.len() == 184320,
    {
        if y < FRAME_HEIGHT && x < FRAME_BYTES {
            let pixel_index = y * 3 * FRAME_WIDTH + x * 3;
            if pixel_index + 2 < self.data.len() {
                self.data[pixel_index] = rgb.0;
                self.data[pixel_index + 1] = rgb.1;
                self.data[pixel_index + 2] = rgb.2;
            }
        }
    }

    /// The bytes of the frame.
    pub fn data(&self) -> (data: &Vec<u8>)
        ensures
            data@ == self@,
    {
        &self.data
    }
}

} // verus!
