//! Rectangles of pixels that are handed to the screen in one piece.

use vstd::prelude::*;

verus! {

/// One pixel: red, green, blue and alpha in one word.
pub type Pixel = u32;

/// A rectangle on the screen, by its top left corner and its size.
#[derive(Clone, Copy, Debug, PartialEq, Eq, Structural)]
pub struct Rect {
    pub x: usize,
    pub y: usize,
    pub width: usize,
    pub height: usize,
}

impl Rect {
    /// The number of pixels in the rectangle.
    pub open spec fn area(self) -> int {
        self.width * self.height
    }

    /// The number of pixels in the rectangle, or nothing where the number
    /// is larger than any buffer can be.
    pub fn pixel_area(&self) -> (r: Option<usize>)
        ensures
            match r {
                Some(n) => n == self.area(),
                None => self.area() > usize::MAX,
            },
    {
        self.width.checked_mul(self.height)
    }
}

/// The pixels to draw and the rectangle to draw them into.
pub struct DrawPacket<'a> {
    pub rect: Rect,
    pub raw_data: &'a [Pixel],
}

impl<'a> DrawPacket<'a> {
    /// A packet for `draw_size`, where `data` holds a pixel for every
    /// place in the rectangle; nothing where it holds fewer.
    pub fn new_packet(draw_size: Rect, data: &'a [Pixel]) -> (r: Option<Self>)
        ensures
            data@.len() >= draw_size.area() ==> r is Some && r->Some_0.rect == draw_size
                && r->Some_0.raw_data@ == data@,
            data@.len() < draw_size.area() ==> r is None,
    {
        let len: usize = data.len();
        match draw_size.pixel_area() {
            None => None,
            Some(area) => {
                if len < area {
                    return None;
                }
                Some(Self { rect: draw_size, raw_data: data })
            },
        }
    }
}

} // verus!
