//! The captured bitmap and its assembly from packed pixel values.

use vstd::prelude::*;
use vstd::arithmetic::div_mod::lemma_fundamental_div_mod_converse;
use crate::format::{PixelFormat, pixel_byte, decode_pixel};

verus! {

/// Byte layout of a captured bitmap.
#[derive(Clone, Copy, Debug, PartialEq, Eq, Structural)]
pub enum Layout {
    /// Three bytes per pixel: red, green, blue.
    Rgb,
    /// Four bytes per pixel: red, green, blue, alpha.
    Rgba,
}

impl Layout {
    pub open spec fn channels(self) -> nat {
        match self {
            Layout::Rgb => 3,
            Layout::Rgba => 4,
        }
    }

    /// Bytes per pixel.
    pub fn bytes_per_pixel(self) -> (r: usize)
        ensures
            r == self.channels(),
    {
        match self {
            Layout::Rgb => 3,
            Layout::Rgba => 4,
        }
    }
}

/// A decoded bitmap: row-major, top to bottom, left to right.
#[derive(Clone, Debug)]
pub struct CapturedImage {
    pub width: u32,
    pub height: u32,
    pub layout: Layout,
    pub data: Vec<u8>,
}

impl CapturedImage {
    /// The buffer holds exactly one pixel per coordinate.
    pub open spec fn wf(&self) -> bool {
        self.data@.len() == self.width as nat * self.height as nat * self.layout.channels()
    }

    /// Byte `k` of the pixel at column `x`, row `y`.
    pub open spec fn byte_at(&self, x: int, y: int, k: int) -> u8 {
        self.data@[(y * self.width + x) * self.layout.channels() + k]
    }
}

/// The bytes of the pixels `packed`, each decoded with `f`, `ch` bytes per pixel.
pub open spec fn decoded_bytes(packed: Seq<u64>, f: PixelFormat, ch: nat) -> Seq<u8> {
    Seq::new(packed.len() * ch, |i: int| pixel_byte(packed[i / ch as int], f, i % ch as int))
}

/// Decodes every packed pixel with `f` and lays the results out as `layout` says.
pub fn decode_buffer(packed: &Vec<u64>, f: &PixelFormat, layout: Layout) -> (r: Vec<u8>)
    requires
        f.wf(),
        packed@.len() * 4 <= usize::MAX,
    ensures
        r@ == decoded_bytes(packed@, *f, layout.channels()),
{
    let ch = layout.bytes_per_pixel();
    let ghost chi = ch as int;
    let mut out: Vec<u8> = Vec::new();
    let n = packed.len();
    let mut p: usize = 0;
    while p < n
        invariant
            f.wf(),
            n == packed@.len(),
            n * 4 <= usize::MAX,
            ch == layout.channels(),
            chi == ch,
            0 <= p <= n,
            out@.len() == p * chi,
            forall|i: int|
                0 <= i < out@.len() ==> out@[i] == pixel_byte(packed@[i / chi], *f, i % chi),
        decreases n - p,
    {
        let d = decode_pixel(packed[p], f);
        let mut k: usize = 0;
        while k < ch
            invariant
                f.wf(),
                n == packed@.len(),
                n * 4 <= usize::MAX,
                ch == layout.channels(),
                chi == ch,
                0 <= p < n,
                0 <= k <= ch,
                forall|j: int| 0 <= j < 4 ==> d[j] == pixel_byte(packed@[p as int], *f, j),
                out@.len() == p * chi + k,
                forall|i: int|
                    0 <= i < out@.len() ==> out@[i] == pixel_byte(packed@[i / chi], *f, i % chi),
            decreases ch - k,
        {
            proof {
                lemma_fundamental_div_mod_converse(p * chi + k, chi, p as int, k as int);
                assert((p + 1) * chi <= n * chi) by (nonlinear_arith)
                    requires p < n, chi >= 0;
                assert(n * chi <= n * 4) by (nonlinear_arith)
                    requires chi <= 4;
            }
            out.push(d[k]);
            k += 1;
        }
        proof {
            assert((p + 1) * chi == p * chi + chi) by (nonlinear_arith);
        }
        p += 1;
    }
    assert(out@ =~= decoded_bytes(packed@, *f, layout.channels()));
    out
}

} // verus!
