//! Properties that hold of every capture, stated over the decoders' contracts.

use vstd::prelude::*;
use crate::error::CaptureError;
use crate::fb::{DeviceInfo, frame_capture};
use crate::format::{Channel, PixelFormat, channel_u8, channel_bits, low_mask, to_u8};
use crate::image::{CapturedImage, decoded_bytes};
use crate::xlib::{
    CapturePlan, FetchedImage, SourceFormat, WindowGeometry, fetch_capture, fetched_format, plan_of,
};

verus! {

/// A format without alpha bits decodes every pixel as fully opaque: each
/// fourth byte of an RGBA buffer is 255.
pub proof fn lemma_opaque_without_alpha(packed: Seq<u64>, f: PixelFormat)
    requires
        f.alpha.length == 0,
    ensures
        forall|i: int|
            0 <= i < packed.len() * 4 && i % 4 == 3 ==> #[trigger] decoded_bytes(packed, f, 4)[i]
                == 255,
{
}

/// An image captured from a source without alpha is fully opaque, whatever
/// bits its pixels hold outside the color channels.
pub proof fn lemma_capture_opaque_without_alpha(plan: CapturePlan, img: FetchedImage, r: Result<CapturedImage, CaptureError>)
    requires
        !plan.source_has_alpha,
        fetch_capture(plan, img, r),
    ensures
        r matches Ok(c) ==> forall|i: int|
            0 <= i < c.data@.len() && i % 4 == 3 ==> #[trigger] c.data@[i] == 255,
{
    lemma_opaque_without_alpha(img.pixels@, fetched_format(img, false));
}

/// Two captures of the same fetched image give the same result, byte for byte.
pub proof fn lemma_fetch_capture_repeatable(
    plan: CapturePlan,
    img: FetchedImage,
    r1: Result<CapturedImage, CaptureError>,
    r2: Result<CapturedImage, CaptureError>,
)
    requires
        fetch_capture(plan, img, r1),
        fetch_capture(plan, img, r2),
    ensures
        r1 is Ok <==> r2 is Ok,
        r1 is Err ==> r1 == r2,
        r1 matches Ok(a) ==> r2 matches Ok(b) && a.width == b.width && a.height == b.height
            && a.layout == b.layout && a.data@ == b.data@,
{
}

/// Two captures of the same framebuffer contents give the same result, byte
/// for byte.
pub proof fn lemma_frame_capture_repeatable(
    info: DeviceInfo,
    frame: Seq<u8>,
    r1: Result<CapturedImage, CaptureError>,
    r2: Result<CapturedImage, CaptureError>,
)
    requires
        frame_capture(info, frame, r1),
        frame_capture(info, frame, r2),
    ensures
        r1 is Ok <==> r2 is Ok,
        r1 is Err ==> r1 == r2,
        r1 matches Ok(a) ==> r2 matches Ok(b) && a.width == b.width && a.height == b.height
            && a.layout == b.layout && a.data@ == b.data@,
{
}

/// A color byte `v` stored in a channel of at most eight bits keeps its top
/// bits; decoding it gives `v` with the dropped low bits cleared, so it is at
/// most `v` and less than `2^(8 - length)` below it. Bits of other channels
/// in the pixel do not disturb it.
pub proof fn lemma_solid_color_within_truncation(v: u8, c: Channel, rest: u64)
    requires
        c.wf(),
        1 <= c.length <= 8,
        (rest >> c.offset) & low_mask(c.length) == 0,
    ensures
        ({
            let px = ((((v as u64) >> ((8 - c.length) as u64)) << (c.offset as u64)) | rest);
            &&& channel_u8(px, c) <= v
            &&& v - channel_u8(px, c) < (1u64 << ((8 - c.length) as u64))
        }),
{
    let len = c.length as u64;
    let off = c.offset as u64;
    let sh = (8 - len) as u64;
    let vv = v as u64;
    let px = ((vv >> sh) << off) | rest;
    let m = ((1u64 << len) - 1) as u64;
    assert(low_mask(c.length) == m);
    assert((px >> off) & m == vv >> sh) by (bit_vector)
        requires
            px == ((vv >> sh) << off) | rest,
            (rest >> off) & m == 0,
            m == ((1u64 << len) - 1) as u64,
            1 <= len <= 8,
            sh == 8 - len,
            off + len <= 64,
            vv <= 255;
    assert(channel_bits(px, c) == vv >> sh);
    let x = vv >> sh;
    let got = #[verifier::truncate] (((vv >> sh) << sh) as u8);
    if c.length == 8 {
        assert(x >> 0u32 == x << sh) by (bit_vector)
            requires sh == 0;
    } else {
        let sh32 = (8 - c.length) as u32;
        assert(x << sh32 == x << sh) by (bit_vector)
            requires sh32 as u64 == sh, sh <= 7;
    }
    assert(to_u8(x, c.length) == got);
    assert(got <= v && v - got < (1u64 << sh)) by (bit_vector)
        requires
            got == #[verifier::truncate] (((vv >> sh) << sh) as u8),
            vv == v as u64,
            sh <= 7;
}

/// A capture has the size that the windowing system reported for its
/// target: for the root window, the display's resolution.
pub proof fn lemma_capture_has_target_size(
    has_extension: bool,
    geometry: WindowGeometry,
    source: Option<SourceFormat>,
    plan: CapturePlan,
    img: FetchedImage,
    r: Result<CapturedImage, CaptureError>,
)
    requires
        plan_of(has_extension, Some(geometry), source) == Ok::<CapturePlan, CaptureError>(plan),
        fetch_capture(plan, img, r),
    ensures
        r matches Ok(c) ==> c.width == geometry.width && c.height == geometry.height,
{
}

} // verus!
