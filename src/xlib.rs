//! The compositing capture pipeline: what it decides and how it decodes the
//! image it fetches. The native calls are made by the caller, which hands the
//! results in as plain values.

use vstd::prelude::*;
use vstd::std_specs::bits::{u64_trailing_zeros, u64_leading_zeros, axiom_u64_trailing_zeros, axiom_u64_leading_zeros};
use std::rc::Rc;
use crate::error::CaptureError;
use crate::format::{Channel, PixelFormat};
use crate::image::{CapturedImage, Layout, decoded_bytes, decode_buffer};

verus! {

/// Relies on `Rc::clone`: the new pointer refers to the same value.
#[verifier::external_body]
fn share<T>(r: &Rc<T>) -> (s: Rc<T>)
    ensures
        *s == **r,
{
    Rc::clone(r)
}

/// A shared, reference-counted handle to a value fetched from the windowing
/// system. Every clone refers to the same value, which is dropped once, with
/// the last handle.
pub struct XLibMut<T> {
    inner: Rc<T>,
}

impl<T> XLibMut<T> {
    /// The value that the handle refers to.
    pub closed spec fn value(&self) -> T {
        *self.inner
    }

    pub fn new(value: T) -> (r: Self)
        ensures
            r.value() == value,
    {
        XLibMut { inner: Rc::new(value) }
    }

    pub fn as_ref(&self) -> (r: &T)
        ensures
            *r == self.value(),
    {
        &*self.inner
    }

    /// Takes the value out for exclusive use when this is the only handle;
    /// otherwise gives the handle back.
    pub fn try_unwrap(self) -> (r: Result<T, Self>)
        ensures
            match r {
                Ok(v) => v == self.value(),
                Err(h) => h.value() == self.value(),
            },
    {
        match Rc::try_unwrap(self.inner) {
            Ok(v) => Ok(v),
            Err(inner) => Err(XLibMut { inner }),
        }
    }
}

impl<T> Clone for XLibMut<T> {
    fn clone(&self) -> (r: Self)
        ensures
            r.value() == self.value(),
    {
        XLibMut { inner: share(&self.inner) }
    }
}

/// An image fetched from an off-screen surface: its size, its pixel depth,
/// the masks of its color channels, and its packed pixels, row-major.
#[derive(Clone, Debug)]
pub struct FetchedImage {
    pub width: u32,
    pub height: u32,
    pub depth: u32,
    pub red_mask: u64,
    pub green_mask: u64,
    pub blue_mask: u64,
    pub pixels: Vec<u64>,
}

/// The mask of the `depth` lowest bits.
pub open spec fn depth_mask(depth: u32) -> u64 {
    if depth >= 64 {
        u64::MAX
    } else {
        ((1u64 << depth) - 1) as u64
    }
}

/// The bits within the pixel depth that no color channel uses: where alpha lives.
pub open spec fn alpha_mask_of(img: FetchedImage) -> u64 {
    !(img.red_mask | img.green_mask | img.blue_mask) & depth_mask(img.depth)
}

/// The channel that a contiguous mask covers; an empty mask is an absent channel.
pub open spec fn channel_of_mask(m: u64) -> Channel {
    if m == 0 {
        Channel { offset: 0, length: 0 }
    } else {
        Channel {
            offset: u64_trailing_zeros(m),
            length: (64 - u64_leading_zeros(m) - u64_trailing_zeros(m)) as u32,
        }
    }
}

/// The format in which a fetched image is decoded. Alpha is read from the
/// bits that the color channels leave free only when the captured source has
/// an alpha channel; otherwise it is absent and decodes as fully opaque.
pub open spec fn fetched_format(img: FetchedImage, source_has_alpha: bool) -> PixelFormat {
    PixelFormat {
        red: channel_of_mask(img.red_mask),
        green: channel_of_mask(img.green_mask),
        blue: channel_of_mask(img.blue_mask),
        alpha: if source_has_alpha {
            channel_of_mask(alpha_mask_of(img))
        } else {
            Channel { offset: 0, length: 0 }
        },
    }
}

proof fn lemma_channel_of_mask_wf(m: u64)
    ensures
        channel_of_mask(m).wf(),
{
    broadcast use axiom_u64_trailing_zeros, axiom_u64_leading_zeros;

    if m != 0 {
        let t = u64_trailing_zeros(m);
        assert((m >> (t as u64)) & 1u64 == 1u64);
        if t as int >= 64 - u64_leading_zeros(m) {
            assert((m >> (t as u64)) & 1u64 == 0u64);
        }
    }
}

/// Computes the channel that a contiguous mask covers.
pub fn mask_channel(m: u64) -> (r: Channel)
    ensures
        r == channel_of_mask(m),
        r.wf(),
{
    proof {
        lemma_channel_of_mask_wf(m);
    }
    if m == 0 {
        Channel { offset: 0, length: 0 }
    } else {
        let t = m.trailing_zeros();
        let l = m.leading_zeros();
        Channel { offset: t, length: 64 - l - t }
    }
}

/// Places a channel mask given at bit 0 at its shift within the pixel; a shift
/// beyond the pixel leaves no bits.
pub fn placed_mask(mask: u16, shift: u16) -> (r: u64)
    ensures
        r == if shift < 64 { (mask as u64) << (shift as u64) } else { 0u64 },
{
    if shift < 64 {
        (mask as u64) << (shift as u64)
    } else {
        0
    }
}

impl XLibMut<FetchedImage> {
    /// Bit offset of the red channel.
    pub fn red_offset(&self) -> (r: u32)
        ensures
            r == u64_trailing_zeros(self.value().red_mask),
    {
        self.as_ref().red_mask.trailing_zeros()
    }

    /// Bit offset of the green channel.
    pub fn green_offset(&self) -> (r: u32)
        ensures
            r == u64_trailing_zeros(self.value().green_mask),
    {
        self.as_ref().green_mask.trailing_zeros()
    }

    /// Bit offset of the blue channel.
    pub fn blue_offset(&self) -> (r: u32)
        ensures
            r == u64_trailing_zeros(self.value().blue_mask),
    {
        self.as_ref().blue_mask.trailing_zeros()
    }

    /// The bits within the pixel depth that the color channels leave free.
    pub fn alpha_mask(&self) -> (r: u64)
        ensures
            r == alpha_mask_of(self.value()),
    {
        let img = self.as_ref();
        let depth_bits = if img.depth >= 64 {
            u64::MAX
        } else {
            let d = img.depth;
            assert(1u64 << d >= 1) by (bit_vector)
                requires d < 64;
            (1u64 << d) - 1
        };
        !(img.red_mask | img.green_mask | img.blue_mask) & depth_bits
    }

    /// Bit offset of the alpha channel: the lowest bit that the color channels
    /// leave free within the pixel depth.
    pub fn alpha_offset(&self) -> (r: u32)
        ensures
            r == u64_trailing_zeros(alpha_mask_of(self.value())),
    {
        self.alpha_mask().trailing_zeros()
    }

    /// Width and height of the fetched image.
    pub fn dimensions(&self) -> (r: (u32, u32))
        ensures
            r == (self.value().width, self.value().height),
    {
        (self.as_ref().width, self.as_ref().height)
    }

    /// The format in which the image is decoded; see [`fetched_format`].
    pub fn pixel_format(&self, source_has_alpha: bool) -> (r: PixelFormat)
        ensures
            r == fetched_format(self.value(), source_has_alpha),
            r.wf(),
    {
        let img = self.as_ref();
        let alpha = if source_has_alpha {
            mask_channel(self.alpha_mask())
        } else {
            Channel { offset: 0, length: 0 }
        };
        PixelFormat {
            red: mask_channel(img.red_mask),
            green: mask_channel(img.green_mask),
            blue: mask_channel(img.blue_mask),
            alpha,
        }
    }
}

/// What the windowing system reports of the captured source's native format.
#[derive(Clone, Copy, Debug, PartialEq, Eq, Structural)]
pub struct SourceFormat {
    /// The format is direct color: each channel a fixed bit range.
    pub direct: bool,
    /// The alpha mask of a direct-color format, at bit 0.
    pub alpha_mask: u16,
}

impl SourceFormat {
    pub open spec fn spec_has_alpha(self) -> bool {
        self.direct && self.alpha_mask != 0
    }

    /// Whether the source carries an alpha channel.
    pub fn has_alpha(self) -> (r: bool)
        ensures
            r == self.spec_has_alpha(),
    {
        self.direct && self.alpha_mask != 0
    }
}

/// The size of a window as the windowing system reports it.
#[derive(Clone, Copy, Debug, PartialEq, Eq, Structural)]
pub struct WindowGeometry {
    pub width: i32,
    pub height: i32,
}

/// How the source is composited onto the off-screen surface.
#[derive(Clone, Copy, Debug, PartialEq, Eq, Structural)]
pub enum CompositeOp {
    /// Overwrite the destination, alpha included.
    Src,
    /// Blend the source over the destination.
    Over,
}

/// The decisions of a capture, taken before any off-screen resource exists.
#[derive(Clone, Copy, Debug, PartialEq, Eq, Structural)]
pub struct CapturePlan {
    /// Size of the off-screen surface, that of the target.
    pub width: u32,
    pub height: u32,
    pub op: CompositeOp,
    /// Whether the target's own format has alpha; if not, the capture is opaque.
    pub source_has_alpha: bool,
}

/// The plan for a target whose queries gave these answers: whether the
/// compositing extension is present, the target's size, and its format.
pub open spec fn plan_of(
    has_extension: bool,
    geometry: Option<WindowGeometry>,
    source: Option<SourceFormat>,
) -> Result<CapturePlan, CaptureError> {
    if !has_extension {
        Err(CaptureError::UnsupportedExtension)
    } else if geometry is None || geometry->0.width <= 0 || geometry->0.height <= 0 {
        Err(CaptureError::InvalidTarget)
    } else if source is None {
        Err(CaptureError::CaptureFailure)
    } else {
        let has_alpha = source->0.spec_has_alpha();
        Ok(
            CapturePlan {
                width: geometry->0.width as u32,
                height: geometry->0.height as u32,
                op: if has_alpha { CompositeOp::Over } else { CompositeOp::Src },
                source_has_alpha: has_alpha,
            },
        )
    }
}

/// Decides a capture from the answers of the windowing system: fails without
/// the compositing extension, for a target without a valid size, or when its
/// format cannot be found; otherwise sizes the surface as the target and
/// blends only a source that has alpha of its own.
pub fn plan_capture(
    has_extension: bool,
    geometry: Option<WindowGeometry>,
    source: Option<SourceFormat>,
) -> (r: Result<CapturePlan, CaptureError>)
    ensures
        r == plan_of(has_extension, geometry, source),
{
    if !has_extension {
        return Err(CaptureError::UnsupportedExtension);
    }
    let (w, h) = match geometry {
        Some(g) => (g.width, g.height),
        None => {
            return Err(CaptureError::InvalidTarget);
        },
    };
    if w <= 0 || h <= 0 {
        return Err(CaptureError::InvalidTarget);
    }
    let has_alpha = match source {
        Some(f) => f.has_alpha(),
        None => {
            return Err(CaptureError::CaptureFailure);
        },
    };
    Ok(
        CapturePlan {
            width: w as u32,
            height: h as u32,
            op: if has_alpha { CompositeOp::Over } else { CompositeOp::Src },
            source_has_alpha: has_alpha,
        },
    )
}

/// The fetched image matches the plan and its pixels fit one buffer.
pub open spec fn fetch_consistent(plan: CapturePlan, img: FetchedImage) -> bool {
    &&& img.width == plan.width
    &&& img.height == plan.height
    &&& img.pixels@.len() == img.width as nat * img.height as nat
    &&& img.pixels@.len() * 4 <= usize::MAX
}

/// `r` is what decoding `img` for `plan` gives: a failure exactly when the
/// image does not match the plan, else an RGBA bitmap of the planned size.
pub open spec fn fetch_capture(
    plan: CapturePlan,
    img: FetchedImage,
    r: Result<CapturedImage, CaptureError>,
) -> bool {
    &&& fetch_consistent(plan, img) ==> r is Ok
    &&& !fetch_consistent(plan, img) ==> r == Err::<CapturedImage, CaptureError>(
        CaptureError::CaptureFailure,
    )
    &&& r matches Ok(c) ==> {
        &&& c.width == plan.width
        &&& c.height == plan.height
        &&& c.layout == Layout::Rgba
        &&& c.data@ == decoded_bytes(img.pixels@, fetched_format(img, plan.source_has_alpha), 4)
        &&& c.wf()
    }
}

/// Decodes the image fetched for `plan` into an RGBA bitmap of the planned
/// size. An image of another size, or one whose pixels do not match its size,
/// is a capture failure.
pub fn finish_capture(plan: &CapturePlan, image: &XLibMut<FetchedImage>) -> (r: Result<
    CapturedImage,
    CaptureError,
>)
    ensures
        fetch_capture(*plan, image.value(), r),
{
    let img = image.as_ref();
    if img.width != plan.width || img.height != plan.height {
        return Err(CaptureError::CaptureFailure);
    }
    let n = img.pixels.len();
    let w = img.width as u64;
    let h = img.height as u64;
    assert(w * h <= 0xffff_fffe_0000_0001u64) by (nonlinear_arith)
        requires w <= 0xffff_ffffu64, h <= 0xffff_ffffu64;
    if n as u64 != w * h || n > usize::MAX / 4 {
        return Err(CaptureError::CaptureFailure);
    }
    let f = image.pixel_format(plan.source_has_alpha);
    let data = decode_buffer(&img.pixels, &f, Layout::Rgba);
    Ok(CapturedImage { width: img.width, height: img.height, layout: Layout::Rgba, data })
}

} // verus!
