//! The shape of a frame: its dimensions, and where a pixel lies in a linear buffer.
use vstd::prelude::*;

verus! {

/// A buffer length that disagrees with the frame's width times height.
#[derive(Clone, Copy, Debug, PartialEq, Eq, Structural)]
pub struct BadLength {
    pub expected_len: usize,
    pub actual_len: usize,
}

impl BadLength {
    /// The number of pixels that the frame's dimensions call for.
    pub fn expected_len(&self) -> (r: usize)
        ensures
            r == self.expected_len,
    {
        self.expected_len
    }

    /// The number of pixels that the buffer had.
    pub fn actual_len(&self) -> (r: usize)
        ensures
            r == self.actual_len,
    {
        self.actual_len
    }

    /// A sentence that names both lengths.
    pub fn message(&self) -> (r: String)
        ensures
            r@ == length_message(self.expected_len, self.actual_len),
    {
        message_of(self.expected_len, self.actual_len)
    }

    /// A short description of the error.
    pub fn description(&self) -> (r: &'static str)
        ensures
            r@ == "incorrect buffer length"@,
    {
        "incorrect buffer length"
    }
}

/// The sentence that `format!` makes of the two lengths.
pub uninterp spec fn length_message(expected: usize, actual: usize) -> Seq<char>;

/// Relies on `format!`: writes the two lengths into the error's sentence, a text that
/// depends on the two numbers alone.
#[verifier::external_body]
fn message_of(expected: usize, actual: usize) -> (r: String)
    ensures
        r@ == length_message(expected, actual),
{
    format!("the buffer had to have {} pixels, but had {} pixels", expected, actual)
}

/// The position of pixel `(x, y)` in a row-major buffer whose rows are `width` long.
pub open spec fn index_of(width: int, x: int, y: int) -> int {
    y * width + x
}

/// Checks that `actual` elements make a `width` by `height` frame.
pub fn check_len(width: usize, height: usize, actual: usize) -> (r: Result<(), BadLength>)
    requires
        width * height <= usize::MAX,
    ensures
        r is Ok <==> actual == width * height,
        r matches Err(e) ==> e.expected_len == width * height && e.actual_len == actual,
{
    let expected_len = width * height;
    if expected_len == actual {
        Ok(())
    } else {
        Err(BadLength { expected_len, actual_len: actual })
    }
}

/// The row-major position of pixel `(x, y)` in a `width` by `height` frame.
pub fn pixel_index(width: usize, height: usize, x: usize, y: usize) -> (r: usize)
    requires
        x < width,
        y < height,
        width * height <= usize::MAX,
    ensures
        r == index_of(width as int, x as int, y as int),
        r < width * height,
{
    proof {
        lemma_index_in_frame(width as int, height as int, x as int, y as int);
    }
    y * width + x
}

/// Every pixel inside a frame has a position inside its buffer.
pub proof fn lemma_index_in_frame(width: int, height: int, x: int, y: int)
    requires
        0 <= x < width,
        0 <= y < height,
    ensures
        0 <= index_of(width, x, y) < width * height,
{
    assert(y * width + x < width * height) by (nonlinear_arith)
        requires
            0 <= x < width,
            0 <= y < height,
    ;
    assert(0 <= y * width) by (nonlinear_arith)
        requires
            0 <= y,
            0 <= width,
    ;
}

/// Position `i` of a row-major buffer with rows `width` long holds pixel
/// `(i % width, i / width)`, which lies inside the frame.
pub proof fn lemma_position_to_pixel(width: int, height: int, i: int)
    requires
        0 <= width,
        0 <= i < width * height,
    ensures
        0 <= i % width < width,
        0 <= i / width < height,
        index_of(width, i % width, i / width) == i,
{
    if width == 0 {
        assert(width * height == 0) by (nonlinear_arith)
            requires
                width == 0,
        ;
    }
    vstd::arithmetic::div_mod::lemma_fundamental_div_mod(i, width);
    assert((i / width) * width == width * (i / width)) by (nonlinear_arith);
    assert(i / width < height) by (nonlinear_arith)
        requires
            width > 0,
            i == width * (i / width) + i % width,
            0 <= i % width,
            i < width * height,
    ;
}

} // verus!
