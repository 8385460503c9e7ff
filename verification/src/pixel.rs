//! The luminance model and the RGBA pixel buffer that every stage reads.

use vstd::prelude::*;

verus! {

/// Fixed-point perceptual luminance of an RGBA sample.
///
/// A fully transparent sample (alpha 0) has luminance 0; otherwise the value
/// is `(54*r + 183*g + 19*b) / 256`, an integer approximation of the
/// perceptual weights 0.2126 / 0.7152 / 0.0722 whose result always fits in a
/// byte (the weights sum to 256).
pub open spec fn spec_luminance(r: u8, g: u8, b: u8, a: u8) -> u8 {
    if a == 0 {
        0u8
    } else {
        (((54 * (r as int) + 183 * (g as int) + 19 * (b as int)) / 256) as u8)
    }
}

/// 8-bit luminance of one RGBA sample, weighted-perceptual policy.
pub fn luminance(r: u8, g: u8, b: u8, a: u8) -> (l: u8)
    ensures
        l == spec_luminance(r, g, b, a),
        a == 0 ==> l == 0,
{
    if a == 0 {
        0
    } else {
        ((r as u32 * 54 + g as u32 * 183 + b as u32 * 19) / 256) as u8
    }
}

/// An immutable 2-D array of RGBA samples, row-major, four bytes per sample.
pub struct PixelBuffer {
    pub data: Vec<u8>,
    pub width: u32,
    pub height: u32,
}

impl PixelBuffer {
    /// The buffer holds exactly `width * height` four-byte samples.
    pub open spec fn wf(self) -> bool {
        self.data@.len() == 4 * self.width * self.height
    }

    /// Builds a buffer after checking that the byte count matches the
    /// dimensions; `None` exactly when it does not.
    pub fn new(data: Vec<u8>, width: u32, height: u32) -> (r: Option<PixelBuffer>)
        ensures
            match r {
                Some(p) => p.wf() && p.data == data && p.width == width && p.height == height,
                None => data@.len() != 4 * width * height,
            },
    {
        let w128: u128 = width as u128;
        let h128: u128 = height as u128;
        proof {
            assert(w128 * h128 <= 0xffff_ffff * 0xffff_ffff) by (nonlinear_arith)
                requires
                    w128 <= 0xffff_ffff,
                    h128 <= 0xffff_ffff,
            ;
        }
        let wh: u128 = w128 * h128;
        let total: u128 = 4 * wh;
        let n: usize = data.len();
        proof {
            assert(total == 4 * width * height) by (nonlinear_arith)
                requires
                    total == 4 * wh,
                    wh == w128 * h128,
                    w128 == width,
                    h128 == height,
            ;
        }
        if total > usize::MAX as u128 {
            return None;
        }
        if n as u128 == total {
            Some(PixelBuffer { data, width, height })
        } else {
            None
        }
    }
}

} // verus!
