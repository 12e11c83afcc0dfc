//! The framebuffer backend: pixels decoded straight from the device's memory
//! with the geometry and channel layout that its driver reports.

use vstd::prelude::*;
use vstd::arithmetic::div_mod::lemma_fundamental_div_mod_converse;
use vstd::arithmetic::mul::lemma_mul_inequality;
use framebuffer::Framebuffer;
use crate::error::CaptureError;
use crate::format::{Channel, PixelFormat};
use crate::image::{CapturedImage, Layout, decoded_bytes, decode_buffer};

verus! {

/// What a framebuffer device reports of its geometry and pixel layout.
#[derive(Clone, Copy, Debug, PartialEq, Eq, Structural)]
pub struct DeviceInfo {
    /// Visible resolution in pixels.
    pub xres: u32,
    pub yres: u32,
    /// Horizontal offset added to every pixel's byte position.
    pub xoffset: u32,
    pub bits_per_pixel: u32,
    /// Bytes per scanline.
    pub line_length: u32,
    pub format: PixelFormat,
}

impl DeviceInfo {
    pub open spec fn bytes_per_pixel(self) -> int {
        self.bits_per_pixel as int / 8
    }

    /// Byte position of the pixel at column `x`, row `y`.
    pub open spec fn byte_offset(self, x: int, y: int) -> int {
        y * self.line_length + x * self.bytes_per_pixel() + self.xoffset
    }

    /// How many bytes of frame the visible pixels reach into.
    pub open spec fn frame_needed(self) -> int {
        if self.xres == 0 || self.yres == 0 {
            0
        } else {
            self.byte_offset(self.xres - 1, self.yres - 1) + self.bytes_per_pixel()
        }
    }

    /// Whether channel `c` lies inside one pixel.
    pub open spec fn holds_channel(self, c: Channel) -> bool {
        c.offset + c.length <= self.bits_per_pixel
    }

    /// A frame of `len` bytes can be decoded with this geometry: whole bytes
    /// per pixel, at most 64 bits, channels inside the pixel and apart, and
    /// every visible pixel inside the frame.
    pub open spec fn decodable(self, len: nat) -> bool {
        &&& self.bits_per_pixel % 8 == 0
        &&& 8 <= self.bits_per_pixel <= 64
        &&& self.holds_channel(self.format.red)
        &&& self.holds_channel(self.format.green)
        &&& self.holds_channel(self.format.blue)
        &&& self.holds_channel(self.format.alpha)
        &&& self.format.disjoint()
        &&& self.xres * self.yres * 4 <= usize::MAX
        &&& self.frame_needed() <= len
    }

    /// RGBA when the device has alpha bits, else RGB.
    pub open spec fn layout(self) -> Layout {
        if self.format.alpha.length == 0 {
            Layout::Rgb
        } else {
            Layout::Rgba
        }
    }
}

/// The little-endian value of the `n` bytes of `bytes` from `start` on.
pub open spec fn le_u64(bytes: Seq<u8>, start: int, n: nat) -> u64
    decreases n,
{
    if n == 0 {
        0
    } else {
        (le_u64(bytes, start + 1, (n - 1) as nat) << 8u64) | (bytes[start] as u64)
    }
}

/// The packed pixels of the visible screen, row-major.
pub open spec fn frame_pixels(info: DeviceInfo, frame: Seq<u8>) -> Seq<u64> {
    Seq::new(
        info.xres as nat * info.yres as nat,
        |q: int|
            le_u64(
                frame,
                info.byte_offset(q % info.xres as int, q / info.xres as int),
                info.bytes_per_pixel() as nat,
            ),
    )
}

/// `r` is what decoding `frame` with `info` gives: a failure exactly when the
/// frame cannot be decoded, else a bitmap of the device's resolution.
pub open spec fn frame_capture(
    info: DeviceInfo,
    frame: Seq<u8>,
    r: Result<CapturedImage, CaptureError>,
) -> bool {
    &&& r is Ok <==> info.decodable(frame.len())
    &&& !info.decodable(frame.len()) ==> r == Err::<CapturedImage, CaptureError>(
        CaptureError::CaptureFailure,
    )
    &&& r matches Ok(c) ==> {
        &&& c.width == info.xres
        &&& c.height == info.yres
        &&& c.layout == info.layout()
        &&& c.data@ == decoded_bytes(
            frame_pixels(info, frame),
            info.format,
            info.layout().channels(),
        )
        &&& c.wf()
    }
}

fn read_le(frame: &Vec<u8>, start: usize, n: usize) -> (r: u64)
    requires
        start + n <= frame@.len(),
    ensures
        r == le_u64(frame@, start as int, n as nat),
{
    let len = frame.len();
    let mut v: u64 = 0;
    let mut i: usize = n;
    while i > 0
        invariant
            start + n <= frame@.len(),
            len == frame@.len(),
            0 <= i <= n,
            v == le_u64(frame@, start + i, (n - i) as nat),
        decreases i,
    {
        i -= 1;
        v = (v << 8u64) | (frame[start + i] as u64);
    }
    v
}

fn channel_fits(c: Channel, bits: u32) -> (r: bool)
    ensures
        r == (c.offset + c.length <= bits),
{
    (c.offset as u64) + (c.length as u64) <= bits as u64
}

fn channels_apart(a: Channel, b: Channel) -> (r: bool)
    ensures
        r == a.disjoint(b),
{
    a.length == 0 || b.length == 0 || (a.offset as u64) + (a.length as u64) <= b.offset as u64
        || (b.offset as u64) + (b.length as u64) <= a.offset as u64
}

fn frame_needed(info: &DeviceInfo) -> (r: Option<u64>)
    requires
        8 <= info.bits_per_pixel <= 64,
    ensures
        r matches Some(v) ==> v == info.frame_needed(),
        r is None ==> info.frame_needed() > u64::MAX,
{
    if info.xres == 0 || info.yres == 0 {
        return Some(0);
    }
    let bpp = (info.bits_per_pixel / 8) as u64;
    let rows = (info.yres - 1) as u64;
    let line = info.line_length as u64;
    let cols = (info.xres - 1) as u64;
    assert(rows * line <= 0xffff_fffe_0000_0001u64) by (nonlinear_arith)
        requires rows <= 0xffff_ffffu64, line <= 0xffff_ffffu64;
    assert(cols * bpp <= 0x8_0000_0000u64) by (nonlinear_arith)
        requires cols <= 0xffff_ffffu64, bpp <= 8;
    let a = rows * line;
    let b = cols * bpp;
    match a.checked_add(b) {
        Some(s) => match s.checked_add(info.xoffset as u64) {
            Some(t) => t.checked_add(bpp),
            None => None,
        },
        None => None,
    }
}

/// Decodes the visible screen from a frame of device memory. Each pixel's
/// bytes start at `row * line_length + column * bytes_per_pixel + xoffset`,
/// are read as one little-endian value, and are decoded with the device's
/// channel layout. A geometry that the frame cannot serve is a capture
/// failure.
pub fn decode_frame(info: &DeviceInfo, frame: &Vec<u8>) -> (r: Result<CapturedImage, CaptureError>)
    ensures
        frame_capture(*info, frame@, r),
{
    let flen = frame.len();
    let bits = info.bits_per_pixel;
    if bits % 8 != 0 || bits < 8 || bits > 64 {
        return Err(CaptureError::CaptureFailure);
    }
    let f = info.format;
    if !channel_fits(f.red, bits) || !channel_fits(f.green, bits) || !channel_fits(f.blue, bits)
        || !channel_fits(f.alpha, bits) {
        return Err(CaptureError::CaptureFailure);
    }
    if !channels_apart(f.red, f.green) || !channels_apart(f.red, f.blue) || !channels_apart(
        f.red,
        f.alpha,
    ) || !channels_apart(f.green, f.blue) || !channels_apart(f.green, f.alpha)
        || !channels_apart(f.blue, f.alpha) {
        return Err(CaptureError::CaptureFailure);
    }
    let w = info.xres as u64;
    let h = info.yres as u64;
    assert(w * h <= 0xffff_fffe_0000_0001u64) by (nonlinear_arith)
        requires w <= 0xffff_ffffu64, h <= 0xffff_ffffu64;
    let count = w * h;
    assert(count == info.xres * info.yres);
    let quarter = usize::MAX / 4;
    if count > quarter as u64 {
        assert(count * 4 > usize::MAX) by (nonlinear_arith)
            requires count > quarter, quarter == usize::MAX / 4;
        return Err(CaptureError::CaptureFailure);
    }
    let needed = match frame_needed(info) {
        Some(v) => v,
        None => {
            assert(frame@.len() <= u64::MAX);
            return Err(CaptureError::CaptureFailure);
        },
    };
    if needed > frame.len() as u64 {
        return Err(CaptureError::CaptureFailure);
    }
    let bpp = (bits / 8) as usize;
    let stride = info.line_length as usize;
    let xoff = info.xoffset as usize;
    let xres = info.xres as usize;
    let yres = info.yres as usize;
    let ghost xi = xres as int;
    let ghost pixels = frame_pixels(*info, frame@);
    let mut packed: Vec<u64> = Vec::new();
    let mut y: usize = 0;
    while y < yres
        invariant
            info.decodable(frame@.len()),
            needed == info.frame_needed(),
            bpp == info.bytes_per_pixel(),
            stride == info.line_length,
            xoff == info.xoffset,
            xres == info.xres,
            yres == info.yres,
            xi == xres,
            flen == frame@.len(),
            pixels == frame_pixels(*info, frame@),
            0 <= y <= yres,
            packed@.len() == y * xi,
            forall|q: int| 0 <= q < packed@.len() ==> packed@[q] == #[trigger] pixels[q],
        decreases yres - y,
    {
        let mut x: usize = 0;
        while x < xres
            invariant
                info.decodable(frame@.len()),
                needed == info.frame_needed(),
                bpp == info.bytes_per_pixel(),
                stride == info.line_length,
                xoff == info.xoffset,
                xres == info.xres,
                yres == info.yres,
                xi == xres,
                flen == frame@.len(),
                pixels == frame_pixels(*info, frame@),
                0 <= y < yres,
                0 <= x <= xres,
                packed@.len() == y * xi + x,
                forall|q: int| 0 <= q < packed@.len() ==> packed@[q] == #[trigger] pixels[q],
            decreases xres - x,
        {
            proof {
                lemma_mul_inequality(y as int, yres - 1, stride as int);
                lemma_mul_inequality(x as int, xres - 1, bpp as int);
                lemma_fundamental_div_mod_converse(y * xi + x, xi, y as int, x as int);
                lemma_mul_inequality(y + 1, yres as int, xi);
                assert((y + 1) * xi == y * xi + xi) by (nonlinear_arith);
                assert(yres * xi == xres * yres) by (nonlinear_arith)
                    requires xi == xres;
                assert(y * stride <= needed);
                assert(x * bpp <= needed);
                assert(y * stride + x * bpp + xoff + bpp <= needed);
            }
            let off = y * stride + x * bpp + xoff;
            let px = read_le(frame, off, bpp);
            packed.push(px);
            x += 1;
        }
        proof {
            assert(y * xi + xi == (y + 1) * xi) by (nonlinear_arith);
        }
        y += 1;
    }
    assert(yres * xi == xres * yres) by (nonlinear_arith)
        requires xi == xres;
    assert(packed@ =~= pixels);
    let layout = if f.alpha.length == 0 {
        Layout::Rgb
    } else {
        Layout::Rgba
    };
    let data = decode_buffer(&packed, &f, layout);
    Ok(CapturedImage { width: info.xres, height: info.yres, layout, data })
}

#[verifier::external_type_specification]
#[verifier::external_body]
pub struct ExFramebuffer(Framebuffer);

/// Relies on the `var_screen_info` and `fix_screen_info` fields that
/// `framebuffer::Framebuffer::new` filled from the device: copies out the
/// geometry and channel layout that decoding reads.
#[verifier::external_body]
fn device_info(fb: &Framebuffer) -> (r: DeviceInfo) {
    let v = &fb.var_screen_info;
    DeviceInfo {
        xres: v.xres,
        yres: v.yres,
        xoffset: v.xoffset,
        bits_per_pixel: v.bits_per_pixel,
        line_length: fb.fix_screen_info.line_length,
        format: PixelFormat {
            red: Channel { offset: v.red.offset, length: v.red.length },
            green: Channel { offset: v.green.offset, length: v.green.length },
            blue: Channel { offset: v.blue.offset, length: v.blue.length },
            alpha: Channel { offset: v.transp.offset, length: v.transp.length },
        },
    }
}

/// Relies on `framebuffer::Framebuffer::read_frame`: a copy of the mapped
/// device memory as it is at the call.
#[verifier::external_body]
fn read_frame(fb: &Framebuffer) -> (r: Vec<u8>) {
    fb.read_frame().to_vec()
}

/// Captures from an opened framebuffer device. Its geometry is read once,
/// when the backend is made.
pub struct FrameBufferBackend {
    device: Framebuffer,
    info: DeviceInfo,
}

impl FrameBufferBackend {
    pub closed spec fn spec_info(&self) -> DeviceInfo {
        self.info
    }

    /// Takes an opened device and reads its geometry.
    pub fn new(device: Framebuffer) -> (r: Self) {
        let info = device_info(&device);
        FrameBufferBackend { device, info }
    }

    /// The geometry and layout that the device reported.
    pub fn info(&self) -> (r: DeviceInfo)
        ensures
            r == self.spec_info(),
    {
        self.info
    }

    pub fn width(&self) -> (r: u32)
        ensures
            r == self.spec_info().xres,
    {
        self.info.xres
    }

    pub fn height(&self) -> (r: u32)
        ensures
            r == self.spec_info().yres,
    {
        self.info.yres
    }

    pub fn dimensions(&self) -> (r: (u32, u32))
        ensures
            r == (self.spec_info().xres, self.spec_info().yres),
    {
        (self.info.xres, self.info.yres)
    }

    /// Captures the whole screen from the device memory as it is now.
    pub fn global_screenshot(&self) -> (r: Result<CapturedImage, CaptureError>)
        ensures
            exists|frame: Seq<u8>| frame_capture(self.spec_info(), frame, r),
            r matches Ok(c) ==> c.width == self.spec_info().xres && c.height
                == self.spec_info().yres,
    {
        let frame = read_frame(&self.device);
        let r = decode_frame(&self.info, &frame);
        assert(frame_capture(self.spec_info(), frame@, r));
        r
    }

    /// This backend captures whole screens only: a window is an invalid target.
    pub fn window_screenshot(&self, window_id: &str) -> (r: Result<CapturedImage, CaptureError>)
        ensures
            r == Err::<CapturedImage, CaptureError>(CaptureError::InvalidTarget),
    {
        Err(CaptureError::InvalidTarget)
    }

    /// Captures the whole screen when no window is named; a named window is an
    /// invalid target.
    pub fn screenshot(&self, window_id: Option<&str>) -> (r: Result<CapturedImage, CaptureError>)
        ensures
            window_id is Some ==> r == Err::<CapturedImage, CaptureError>(
                CaptureError::InvalidTarget,
            ),
            window_id is None ==> exists|frame: Seq<u8>| frame_capture(self.spec_info(), frame, r),
    {
        match window_id {
            Some(id) => self.window_screenshot(id),
            None => self.global_screenshot(),
        }
    }
}

} // verus!
