//! Geometry of one painted frame and the copy of its pixels into a shared buffer.
use crate::config::{WindowConfig, WindowSize};
use crate::error::RevereError;
use vstd::prelude::*;

verus! {

/// Bytes per pixel of the 32-bit ARGB format.
pub const BYTES_PER_PIXEL: u32 = 4;

/// Horizontal space kept for the thumbnail: the text starts here when one is drawn.
pub const THUMBNAIL_TEXT_OFFSET: u32 = 180;

/// Top of the text.
pub const TEXT_TOP: u32 = 40;

/// A thumbnail is drawn at its size divided by this.
pub const THUMBNAIL_SCALE_DIVISOR: u32 = 2;

/// Line width of the opaque black border around a thumbnail.
pub const THUMBNAIL_BORDER_WIDTH: u32 = 4;

/// Largest value of the display protocol's signed 32-bit sizes and strides.
pub const WIRE_MAX: u32 = 0x7fff_ffff;

/// Most pixels that a frame or one row of it can hold.
pub const WIRE_MAX_PIXELS: u64 = 0x1fff_ffff;

/// Where things go in a frame of a window.
#[derive(Clone, Copy, Debug, PartialEq, Eq, Structural)]
pub struct FrameLayout {
    /// Width in pixels.
    pub width: u32,
    /// Height in pixels.
    pub height: u32,
    /// Bytes per row.
    pub stride: u32,
    /// Bytes of the whole frame.
    pub byte_len: u32,
    /// Left edge of the text.
    pub text_x: u32,
    /// Top edge of the text.
    pub text_y: u32,
    /// Width within which the text is word-wrapped.
    pub text_width: u32,
}

/// Bytes of a `width` by `height` frame.
pub open spec fn frame_bytes(width: u32, height: u32) -> int {
    width * height * BYTES_PER_PIXEL
}

/// A `size` frame, and each of its rows, fit the display protocol's sizes.
pub open spec fn frame_fits(size: WindowSize) -> bool {
    frame_bytes(size.width, size.height) <= WIRE_MAX && size.width * BYTES_PER_PIXEL <= WIRE_MAX
}

/// `x` held between `lo` and `hi`.
pub open spec fn clamp(x: int, lo: int, hi: int) -> int {
    if x < lo {
        lo
    } else if x > hi {
        hi
    } else {
        x
    }
}

/// The layout of a frame of a window configured by `config`: the text is
/// placed right of a thumbnail when one is drawn, else between the margins.
pub open spec fn layout_spec(config: WindowConfig, with_thumbnail: bool) -> FrameLayout {
    let w = config.size.width;
    let h = config.size.height;
    FrameLayout {
        width: w,
        height: h,
        stride: (w * BYTES_PER_PIXEL) as u32,
        byte_len: frame_bytes(w, h) as u32,
        text_x: if with_thumbnail { THUMBNAIL_TEXT_OFFSET } else { 0 },
        text_y: TEXT_TOP,
        text_width: if with_thumbnail {
            clamp(w - THUMBNAIL_TEXT_OFFSET, 0, w as int) as u32
        } else {
            clamp(w - config.margin.left - config.margin.right, 0, w as int) as u32
        },
    }
}

impl FrameLayout {
    /// Lays out a frame of a window configured by `config`. Fails when the
    /// frame's bytes or a row's bytes exceed what the display protocol can describe.
    pub fn for_config(config: &WindowConfig, with_thumbnail: bool) -> (r: Result<FrameLayout, RevereError>)
        ensures
            r is Ok <==> frame_fits(config.size),
            r is Ok ==> r->Ok_0 == layout_spec(*config, with_thumbnail),
            r is Err ==> r->Err_0 == RevereError::BufferTooLarge,
    {
        let w = config.size.width as u64;
        let h = config.size.height as u64;
        assert(w * h <= 0xffff_ffff_u64 * 0xffff_ffff_u64) by (nonlinear_arith)
            requires
                w <= 0xffff_ffff_u64,
                h <= 0xffff_ffff_u64,
        ;
        if w > WIRE_MAX_PIXELS {
            return Err(RevereError::BufferTooLarge);
        }
        let pixels = w * h;
        if pixels > WIRE_MAX_PIXELS {
            return Err(RevereError::BufferTooLarge);
        }
        let byte_len = (pixels * 4) as u32;
        let stride = (w * 4) as u32;
        let text_x = if with_thumbnail { THUMBNAIL_TEXT_OFFSET } else { 0 };
        let room: i64 = if with_thumbnail {
            w as i64 - THUMBNAIL_TEXT_OFFSET as i64
        } else {
            w as i64 - config.margin.left as i64 - config.margin.right as i64
        };
        let text_width = if room < 0 {
            0
        } else if room > w as i64 {
            w as u32
        } else {
            room as u32
        };
        Ok(FrameLayout { width: config.size.width, height: config.size.height, stride, byte_len, text_x, text_y: TEXT_TOP, text_width })
    }

    /// A zeroed pixel buffer for this frame: `width * height * 4` bytes.
    pub fn blank_pixels(&self) -> (r: Vec<u8>)
        ensures
            r@.len() == self.byte_len,
            forall|i: int| 0 <= i < r@.len() ==> r@[i] == 0,
    {
        vec![0u8; self.byte_len as usize]
    }
}

/// Copies the painted pixels `src` into the front of the shared buffer `dst`;
/// the rest of `dst` keeps its bytes.
pub fn copy_frame(dst: &mut [u8], src: &[u8])
    requires
        src@.len() <= old(dst)@.len(),
    ensures
        final(dst)@ == src@ + old(dst)@.skip(src@.len() as int),
{
    let n = src.len();
    let mut i: usize = 0;
    while i < n
        invariant
            n == src@.len(),
            i <= n,
            dst@.len() == old(dst)@.len(),
            n <= dst@.len(),
            forall|j: int| 0 <= j < i ==> dst@[j] == src@[j],
            forall|j: int| i <= j < dst@.len() ==> dst@[j] == old(dst)@[j],
        decreases n - i,
    {
        dst[i] = src[i];
        i = i + 1;
    }
    assert(dst@ =~= src@ + old(dst)@.skip(n as int));
}

} // verus!
