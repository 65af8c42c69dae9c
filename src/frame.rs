//! The frame-access contract, and a frame laid over a linear buffer.
use crate::shape::{check_len, index_of, lemma_index_in_frame, pixel_index, BadLength};
use vstd::prelude::*;

verus! {

/// A dense 2D grid of pixels, read by coordinates.
pub trait Frame {
    /// The kind of pixel that the frame is made of.
    type Pixel;

    /// The width, in pixels.
    spec fn frame_width(&self) -> nat;

    /// The height, in pixels.
    spec fn frame_height(&self) -> nat;

    /// The pixel at `(x, y)`, for `x < frame_width()` and `y < frame_height()`.
    spec fn pixel_at(&self, x: int, y: int) -> Self::Pixel;

    /// Whether the frame's pixels can all be read.
    spec fn frame_inv(&self) -> bool;

    /// The width, in pixels.
    fn width(&self) -> (r: usize)
        ensures
            r == self.frame_width(),
    ;

    /// The height, in pixels.
    fn height(&self) -> (r: usize)
        ensures
            r == self.frame_height(),
    ;

    /// The pixel at `(x, y)`; the coordinates must lie inside the frame.
    fn pixel(&self, x: usize, y: usize) -> (r: Self::Pixel)
        requires
            self.frame_inv(),
            x < self.frame_width(),
            y < self.frame_height(),
        ensures
            r == self.pixel_at(x as int, y as int),
    ;
}

/// A frame over a borrowed row-major slice of `width * height` pixels.
pub struct SliceFrame<'a, T> {
    pub data: &'a [T],
    pub width: usize,
    pub height: usize,
}

impl<'a, T: Copy> SliceFrame<'a, T> {
    /// Lays a `width` by `height` frame over `data`, which must hold exactly
    /// `width * height` pixels.
    pub fn new(data: &'a [T], width: usize, height: usize) -> (r: Result<Self, BadLength>)
        requires
            width * height <= usize::MAX,
        ensures
            r is Ok <==> data@.len() == width * height,
            r matches Ok(f) ==> f.frame_inv() && f.data@ == data@ && f.width == width && f.height
                == height,
            r matches Err(e) ==> e.expected_len == width * height && e.actual_len == data@.len(),
    {
        match check_len(width, height, data.len()) {
            Ok(()) => Ok(SliceFrame { data, width, height }),
            Err(e) => Err(e),
        }
    }

    /// The frame's pixels as one flat sequence.
    pub fn as_slice(&self) -> (r: &'a [T])
        ensures
            r@ == self.data@,
    {
        self.data
    }
}

impl<'a, T: Copy> Frame for SliceFrame<'a, T> {
    type Pixel = T;

    open spec fn frame_width(&self) -> nat {
        self.width as nat
    }

    open spec fn frame_height(&self) -> nat {
        self.height as nat
    }

    open spec fn pixel_at(&self, x: int, y: int) -> T {
        self.data@[index_of(self.width as int, x, y)]
    }

    open spec fn frame_inv(&self) -> bool {
        self.data@.len() == self.width * self.height
    }

    fn width(&self) -> (r: usize) {
        self.width
    }

    fn height(&self) -> (r: usize) {
        self.height
    }

    fn pixel(&self, x: usize, y: usize) -> (r: T) {
        proof {
            assert(self.data.len() == self.data@.len());
        }
        let i = pixel_index(self.width, self.height, x, y);
        self.data[i]
    }
}

/// A frame laid over a buffer of the right length reads, at every `(x, y)` inside it,
/// the buffer's element at `y * width + x`.
pub proof fn lemma_frame_reads_buffer<T: Copy>(f: SliceFrame<'_, T>, x: int, y: int)
    requires
        f.frame_inv(),
        0 <= x < f.width,
        0 <= y < f.height,
    ensures
        0 <= y * f.width + x < f.data@.len(),
        f.pixel_at(x, y) == f.data@[y * f.width + x],
{
    lemma_index_in_frame(f.width as int, f.height as int, x, y);
}

} // verus!
