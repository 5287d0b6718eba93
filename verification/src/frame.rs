//! The frame data model: dimensions, pixel format and the buffer invariant.
//!
//! Frames are produced by the external capture framework; this module only
//! fixes what a well-formed frame is — the buffer holds exactly
//! width × height × bytes-per-pixel bytes — so that the rest of the core can
//! rely on it.

use vstd::prelude::*;

verus! {

/// Pixel format of a decoded (uncompressed) frame.
#[derive(Clone, Copy, Debug, PartialEq, Eq, Structural)]
pub enum PixelFormat {
    /// Single-channel grayscale, one byte per pixel.
    Luma,
    /// Three-channel color, three bytes per pixel.
    Rgb,
}

/// Bytes each pixel of the format occupies in the buffer.
pub open spec fn spec_bytes_per_pixel(format: PixelFormat) -> nat {
    match format {
        PixelFormat::Luma => 1,
        PixelFormat::Rgb => 3,
    }
}

/// Bytes each pixel of the format occupies in the buffer.
pub fn bytes_per_pixel(format: PixelFormat) -> (n: usize)
    ensures
        n == spec_bytes_per_pixel(format),
        1 <= n <= 3,
{
    match format {
        PixelFormat::Luma => 1,
        PixelFormat::Rgb => 3,
    }
}

/// One decoded camera frame: fixed dimensions and an exclusively owned
/// pixel buffer.
#[derive(Debug)]
pub struct Frame {
    pub width: usize,
    pub height: usize,
    pub format: PixelFormat,
    pub data: Vec<u8>,
}

/// With at least one byte per pixel, the byte total is no smaller than the
/// pixel total.
proof fn lemma_product_dominates(w: nat, h: nat, bpp: nat)
    requires
        bpp >= 1,
    ensures
        w * h * bpp >= w * h,
{
    assert(w * h * bpp >= w * h) by (nonlinear_arith)
        requires
            bpp >= 1,
    ;
}

impl Frame {
    /// The buffer holds exactly one format-sized cell per pixel.
    pub open spec fn wf(self) -> bool {
        self.data@.len() == self.width * self.height * spec_bytes_per_pixel(self.format)
    }

    /// Assemble a frame, accepting the buffer only when its length matches
    /// the dimensions and format exactly.
    pub fn new(width: usize, height: usize, format: PixelFormat, data: Vec<u8>) -> (r: Option<
        Frame,
    >)
        ensures
            r is Some <==> data@.len() == width * height * spec_bytes_per_pixel(format),
            r matches Some(f) ==> f.wf() && f.width == width && f.height == height && f.format
                == format && f.data@ == data@,
    {
        let bpp = bytes_per_pixel(format);
        let len = data.len();
        let pixels = match width.checked_mul(height) {
            Some(p) => p,
            None => {
                proof {
                    lemma_product_dominates(width as nat, height as nat, spec_bytes_per_pixel(format));
                }
                return None;
            },
        };
        let expected = match pixels.checked_mul(bpp) {
            Some(e) => e,
            None => {
                return None;
            },
        };
        if len == expected {
            Some(Frame { width, height, format, data })
        } else {
            None
        }
    }

    /// Number of pixels in the frame.
    pub fn pixel_count(&self) -> (n: usize)
        requires
            self.wf(),
        ensures
            n == self.width * self.height,
    {
        proof {
            broadcast use vstd::std_specs::vec::axiom_spec_len;

            assert(vstd::std_specs::vec::spec_vec_len(&self.data) == self.data@.len());
            lemma_product_dominates(self.width as nat, self.height as nat, spec_bytes_per_pixel(self.format));
        }
        self.width * self.height
    }
}

} // verus!
