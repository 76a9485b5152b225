use vstd::prelude::*;

verus! {

/// An in-memory RGBA bitmap captured from the primary display. `pixels`
/// holds 4 bytes (red, green, blue, alpha) per pixel, row-major. A frame is
/// owned by one capture cycle and never persisted directly: only artifacts
/// derived from it are.
pub struct CapturedFrame {
    pub width: u32,
    pub height: u32,
    pub pixels: Vec<u8>,
}

impl CapturedFrame {
    /// A frame is well formed when it has at least one pixel and its byte
    /// buffer holds exactly 4 bytes per pixel.
    pub open spec fn wf(&self) -> bool {
        &&& 1 <= self.width
        &&& 1 <= self.height
        &&& self.pixels@.len() == 4 * self.width * self.height
    }

    /// Channel `c` (0 = red, 1 = green, 2 = blue, 3 = alpha) of the pixel
    /// at column `x` of row `y`.
    pub open spec fn channel(&self, x: int, y: int, c: int) -> u8 {
        self.pixels@[4 * (y * self.width + x) + c]
    }

    /// Builds a frame from raw parts, rejecting empty dimensions and any
    /// buffer whose length does not match them.
    pub fn new(width: u32, height: u32, pixels: Vec<u8>) -> (r: Option<CapturedFrame>)
        ensures
            match r {
                Some(f) => {
                    &&& f.wf()
                    &&& f.width == width
                    &&& f.height == height
                    &&& f.pixels@ == pixels@
                },
                None => !(1 <= width && 1 <= height && pixels@.len() == 4 * width * height),
            },
    {
        if width == 0 || height == 0 {
            return None;
        }
        proof {
            vstd::arithmetic::mul::lemma_mul_strict_upper_bound(
                width as int, 0x1_0000_0000, height as int, 0x1_0000_0000,
            );
        }
        let wh: u64 = (width as u64) * (height as u64);
        let need: u128 = 4 * (wh as u128);
        proof {
            assert(4 * (wh as int) == 4 * width * height) by (nonlinear_arith)
                requires
                    wh == width * height,
            ;
        }
        if (pixels.len() as u128) != need {
            return None;
        }
        Some(CapturedFrame { width, height, pixels })
    }
}

} // verus!
