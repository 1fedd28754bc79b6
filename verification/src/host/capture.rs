//! Pictures of the screen.

use super::display::{DisplayModel, DisplayState, BYTES_PER_PIXEL};
use vstd::arithmetic::div_mod::lemma_fundamental_div_mod_converse;
use vstd::prelude::*;

verus! {

/// A picture: rows of pixels from the top, and four bytes for each pixel, which are its red,
/// green, blue and alpha.
#[derive(Debug, PartialEq, Eq)]
pub struct FramebufferCapture {
    pub width: u32,
    pub height: u32,
    pub pixels_rgba: Vec<u8>,
}

/// The length in bytes of a row of `width` pixels.
pub open spec fn row_len(width: u32) -> int {
    width * BYTES_PER_PIXEL
}

/// Where in a surface's pixel the byte is that comes at `channel` in a picture's: blue and red
/// change places.
pub open spec fn source_channel(channel: int) -> int {
    if channel == 0 {
        2
    } else if channel == 2 {
        0
    } else {
        channel
    }
}

/// Where in a surface whose rows start `stride` bytes apart the byte is that comes at `index` in
/// a picture of it, `width` pixels wide.
pub open spec fn source_index(index: int, stride: int, width: u32) -> int {
    let row = index / row_len(width);
    let column = index % row_len(width);
    row * stride + (column - column % 4) + source_channel(column % 4)
}

/// Every byte of `pixels` is the one of `mapped` that comes at its place in a picture.
pub open spec fn shows(pixels: Seq<u8>, mapped: Seq<u8>, stride: int, width: u32) -> bool {
    forall|i: int|
        #![trigger pixels[i]]
        #![trigger source_index(i, stride, width)]
        0 <= i < pixels.len() ==> {
            &&& 0 <= source_index(i, stride, width) < mapped.len()
            &&& pixels[i] == mapped[source_index(i, stride, width)]
        }
}

/// `capture` is the picture, `width` by `height` pixels, that the bytes `mapped` show.
pub open spec fn is_picture(
    capture: FramebufferCapture,
    mapped: Seq<u8>,
    stride: int,
    width: u32,
    height: u32,
) -> bool {
    &&& capture.width == width
    &&& capture.height == height
    &&& capture.pixels_rgba@.len() == height * row_len(width)
    &&& shows(capture.pixels_rgba@, mapped, stride, width)
}

/// Whether `len` bytes hold `height` rows of `width` pixels that start `stride` bytes apart.
pub open spec fn covers(len: nat, stride: int, width: u32, height: u32) -> bool {
    height > 0 ==> (height - 1) * stride + row_len(width) <= len
}

pub proof fn lemma_source_index(row: int, pixel: int, channel: int, stride: int, width: u32)
    requires
        0 <= row,
        0 <= pixel < width,
        0 <= channel < 4,
    ensures
        source_index(row * row_len(width) + pixel * 4 + channel, stride, width) == row * stride
            + pixel * 4 + source_channel(channel),
{
    let column = pixel * 4 + channel;
    lemma_fundamental_div_mod_converse(row * row_len(width) + column, row_len(width), row, column);
    assert(column % 4 == channel);
}

/// The picture that the bytes `mapped` of a surface show. Rows of the surface start `stride`
/// bytes apart.
pub fn picture(mapped: &[u8], stride: usize, width: u32, height: u32) -> (capture:
    FramebufferCapture)
    requires
        row_len(width) <= stride,
        covers(mapped@.len(), stride as int, width, height),
    ensures
        is_picture(capture, mapped@, stride as int, width, height),
        capture.width == width,
        capture.height == height,
        capture.pixels_rgba@.len() == height * row_len(width),
        shows(capture.pixels_rgba@, mapped@, stride as int, width),
{
    let mut pixels: Vec<u8> = Vec::new();
    let mut row: usize = 0;
    let mapped_len = mapped.len();
    while row < height as usize
        invariant
            row_len(width) <= stride,
            covers(mapped@.len(), stride as int, width, height),
            mapped_len == mapped@.len(),
            row <= height,
            pixels@.len() == row * row_len(width),
            shows(pixels@, mapped@, stride as int, width),
        decreases height - row,
    {
        assert(row * stride <= (height - 1) * stride && 0 <= row * stride) by (nonlinear_arith)
            requires
                0 <= row <= height - 1,
                0 <= stride,
        ;
        let base: usize = row * stride;
        let mut pixel: u32 = 0;
        while pixel < width
            invariant
                row_len(width) <= stride,
                mapped_len == mapped@.len(),
                base == row * stride,
                base + row_len(width) <= mapped@.len(),
                pixel <= width,
                pixels@.len() == row * row_len(width) + pixel * 4,
                shows(pixels@, mapped@, stride as int, width),
            decreases width - pixel,
        {
            let at: usize = base + pixel as usize * 4;
            let ghost before = pixels@;
            pixels.push(mapped[at + 2]);
            pixels.push(mapped[at + 1]);
            pixels.push(mapped[at]);
            pixels.push(mapped[at + 3]);
            assert forall|i: int|
                #![trigger pixels@[i]]
                #![trigger source_index(i, stride as int, width)]
                0 <= i < pixels@.len() implies {
                &&& 0 <= source_index(i, stride as int, width) < mapped@.len()
                &&& pixels@[i] == mapped@[source_index(i, stride as int, width)]
            } by {
                if i < before.len() {
                    assert(pixels@[i] == before[i]);
                } else {
                    let channel = i - before.len();
                    lemma_source_index(row as int, pixel as int, channel, stride as int, width);
                }
            }
            pixel = pixel + 1;
        }
        assert((row + 1) * row_len(width) == row * row_len(width) + row_len(width))
            by (nonlinear_arith);
        row = row + 1;
    }
    FramebufferCapture { width, height, pixels_rgba: pixels }
}

/// Whether rows that start `stride` bytes apart hold `width` pixels.
pub open spec fn wide_enough(stride: usize, width: u32) -> bool {
    row_len(width) <= stride
}

/// Whether `display` has a picture, and rows that start `stride` bytes apart hold it.
pub open spec fn capturable(display: DisplayModel, stride: usize) -> bool {
    display.captured() is Some && wide_enough(stride, display.width)
}

impl DisplayState {
    /// Whether a surface whose rows start `stride` bytes apart is wide enough for the screen.
    pub fn stride_suffices(&self, stride: usize) -> (answer: bool)
        requires
            self.wf(),
        ensures
            answer == wide_enough(stride, self@.width),
            answer == (row_len(self@.width) <= stride),
    {
        self.vm_width() as usize * 4 <= stride
    }

    /// The picture on the screen, if there is one. `stride` and `mapped` are how far apart the
    /// rows of the surface to capture start, and the bytes of the surface, if they could be had.
    pub fn capture_framebuffer(&self, stride: usize, mapped: Option<&[u8]>) -> (capture: Option<
        FramebufferCapture,
    >)
        requires
            self.wf(),
            mapped matches Some(bytes) ==> self@.captured() is Some && row_len(self@.width)
                <= stride ==> covers(bytes@.len(), stride as int, self@.width, self@.height),
        ensures
            capture is Some <==> capturable(self@, stride) && mapped is Some,
            capture is Some <==> self@.captured() is Some && row_len(self@.width) <= stride
                && mapped is Some,
            capture matches Some(capture) ==> is_picture(
                capture,
                mapped->0@,
                stride as int,
                self@.width,
                self@.height,
            ),
            capture matches Some(capture) ==> {
                &&& capture.width == self@.width
                &&& capture.height == self@.height
                &&& capture.pixels_rgba@.len() == self@.height * row_len(self@.width)
                &&& shows(capture.pixels_rgba@, mapped->0@, stride as int, self@.width)
            },
    {
        if self.capture_surface().is_none() {
            return None;
        }
        if !self.stride_suffices(stride) {
            return None;
        }
        match mapped {
            Some(bytes) => Some(picture(bytes, stride, self.vm_width(), self.vm_height())),
            None => None,
        }
    }
}

} // verus!
