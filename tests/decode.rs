use coral::error::CaptureError;
use coral::fb::{decode_frame, DeviceInfo};
use coral::format::{channel_value, decode_pixel, Channel, PixelFormat};
use coral::image::{decode_buffer, CapturedImage, Layout};
use coral::xlib::{
    finish_capture, mask_channel, placed_mask, plan_capture, CapturePlan, CompositeOp,
    FetchedImage, SourceFormat, WindowGeometry, XLibMut,
};

fn ch(offset: u32, length: u32) -> Channel {
    Channel { offset, length }
}

fn argb32() -> PixelFormat {
    PixelFormat { red: ch(16, 8), green: ch(8, 8), blue: ch(0, 8), alpha: ch(24, 8) }
}

fn rgb565() -> PixelFormat {
    PixelFormat { red: ch(11, 5), green: ch(5, 6), blue: ch(0, 5), alpha: ch(0, 0) }
}

fn fetched(width: u32, height: u32, pixels: Vec<u64>) -> FetchedImage {
    FetchedImage {
        width,
        height,
        depth: 32,
        red_mask: 0x00ff_0000,
        green_mask: 0x0000_ff00,
        blue_mask: 0x0000_00ff,
        pixels,
    }
}

fn plan(width: u32, height: u32, source_has_alpha: bool) -> CapturePlan {
    CapturePlan {
        width,
        height,
        op: if source_has_alpha { CompositeOp::Over } else { CompositeOp::Src },
        source_has_alpha,
    }
}

#[test]
fn channel_value_extracts_bits() {
    assert_eq!(channel_value(0x8011_2233, ch(16, 8)), 0x11);
    assert_eq!(channel_value(0x8011_2233, ch(24, 8)), 0x80);
    assert_eq!(channel_value(0x8011_2233, ch(0, 0)), 0);
}

#[test]
fn channel_value_scales_narrow_and_wide_channels() {
    // five bits 0b11111 become 0b11111000
    assert_eq!(channel_value(0xf800, ch(11, 5)), 0xf8);
    // ten bits keep their top eight
    assert_eq!(channel_value(0x3ff << 20, ch(20, 10)), 0xff);
    assert_eq!(channel_value(0x204 << 20, ch(20, 10)), 0x81);
    // a whole 64-bit channel keeps its top byte
    assert_eq!(channel_value(0xab00_0000_0000_0000, ch(0, 64)), 0xab);
}

#[test]
fn decode_pixel_reads_every_channel() {
    assert_eq!(decode_pixel(0x8011_2233, &argb32()), [0x11, 0x22, 0x33, 0x80]);
}

#[test]
fn decode_pixel_without_alpha_is_opaque() {
    assert_eq!(decode_pixel(0xffff, &rgb565()), [0xf8, 0xfc, 0xf8, 255]);
    assert_eq!(decode_pixel(0, &rgb565()), [0, 0, 0, 255]);
}

#[test]
fn decode_buffer_lays_out_rgb_and_rgba() {
    let px = vec![0x8011_2233u64, 0x0044_5566];
    let rgba = decode_buffer(&px, &argb32(), Layout::Rgba);
    assert_eq!(rgba, vec![0x11, 0x22, 0x33, 0x80, 0x44, 0x55, 0x66, 0x00]);
    let rgb = decode_buffer(&px, &argb32(), Layout::Rgb);
    assert_eq!(rgb, vec![0x11, 0x22, 0x33, 0x44, 0x55, 0x66]);
    assert_eq!(decode_buffer(&Vec::new(), &argb32(), Layout::Rgba), Vec::<u8>::new());
}

#[test]
fn solid_color_in_a_narrow_format_is_kept_within_truncation() {
    // color (0xab, 0xcd, 0xef) stored as 5-6-5
    let (r, g, b) = (0xabu64, 0xcdu64, 0xefu64);
    let px = ((r >> 3) << 11) | ((g >> 2) << 5) | (b >> 3);
    let pixels = vec![px; 6];
    let out = decode_buffer(&pixels, &rgb565(), Layout::Rgba);
    for p in out.chunks(4) {
        assert!(p[0] <= 0xab && 0xab - p[0] < 8);
        assert!(p[1] <= 0xcd && 0xcd - p[1] < 4);
        assert!(p[2] <= 0xef && 0xef - p[2] < 8);
        assert_eq!(p[3], 255);
    }
    assert_eq!(&out[0..4], &[0xa8, 0xcc, 0xe8, 255]);
}

#[test]
fn mask_channel_finds_offset_and_length() {
    assert_eq!(mask_channel(0x00ff_0000), ch(16, 8));
    assert_eq!(mask_channel(0xf800), ch(11, 5));
    assert_eq!(mask_channel(0), ch(0, 0));
    assert_eq!(mask_channel(u64::MAX), ch(0, 64));
}

#[test]
fn placed_mask_shifts_into_position() {
    assert_eq!(placed_mask(0xff, 16), 0x00ff_0000);
    assert_eq!(placed_mask(0xff, 0), 0xff);
    assert_eq!(placed_mask(0xff, 64), 0);
}

#[test]
fn xlib_offsets_come_from_the_masks() {
    let img = XLibMut::new(fetched(1, 1, vec![0]));
    assert_eq!(img.red_offset(), 16);
    assert_eq!(img.green_offset(), 8);
    assert_eq!(img.blue_offset(), 0);
    assert_eq!(img.alpha_mask(), 0xff00_0000);
    assert_eq!(img.alpha_offset(), 24);
    assert_eq!(img.dimensions(), (1, 1));
}

#[test]
fn xlib_alpha_mask_stays_within_depth() {
    let mut f = fetched(1, 1, vec![0]);
    f.depth = 24;
    let img = XLibMut::new(f);
    assert_eq!(img.alpha_mask(), 0);
    assert_eq!(img.alpha_offset(), 64);
}

#[test]
fn xlib_handle_clones_share_the_value() {
    let a = XLibMut::new(fetched(2, 1, vec![1, 2]));
    let b = a.clone();
    assert!(std::ptr::eq(a.as_ref(), b.as_ref()));
    assert_eq!(b.as_ref().pixels, vec![1, 2]);
}

#[test]
fn plan_reports_each_failure() {
    let g = Some(WindowGeometry { width: 640, height: 480 });
    let opaque = Some(SourceFormat { direct: true, alpha_mask: 0 });
    assert_eq!(plan_capture(false, g, opaque), Err(CaptureError::UnsupportedExtension));
    assert_eq!(plan_capture(true, None, opaque), Err(CaptureError::InvalidTarget));
    assert_eq!(
        plan_capture(true, Some(WindowGeometry { width: 0, height: 480 }), opaque),
        Err(CaptureError::InvalidTarget)
    );
    assert_eq!(
        plan_capture(true, Some(WindowGeometry { width: 640, height: -1 }), opaque),
        Err(CaptureError::InvalidTarget)
    );
    assert_eq!(plan_capture(true, g, None), Err(CaptureError::CaptureFailure));
}

#[test]
fn plan_blends_only_sources_with_alpha() {
    let g = Some(WindowGeometry { width: 640, height: 480 });
    let p = plan_capture(true, g, Some(SourceFormat { direct: true, alpha_mask: 0xff })).unwrap();
    assert_eq!(p, plan(640, 480, true));
    let p = plan_capture(true, g, Some(SourceFormat { direct: true, alpha_mask: 0 })).unwrap();
    assert_eq!(p, plan(640, 480, false));
    let p = plan_capture(true, g, Some(SourceFormat { direct: false, alpha_mask: 0xff })).unwrap();
    assert_eq!(p.op, CompositeOp::Src);
}

#[test]
fn whole_screen_capture_has_the_planned_size() {
    let g = Some(WindowGeometry { width: 3, height: 2 });
    let p = plan_capture(true, g, Some(SourceFormat { direct: true, alpha_mask: 0 })).unwrap();
    let img = XLibMut::new(fetched(3, 2, vec![0xff12_3456; 6]));
    let c: CapturedImage = finish_capture(&p, &img).unwrap();
    assert_eq!((c.width, c.height, c.layout), (3, 2, Layout::Rgba));
    assert_eq!(c.data.len(), 3 * 2 * 4);
    assert_eq!(&c.data[0..4], &[0x12, 0x34, 0x56, 0xff]);
}

#[test]
fn capture_without_source_alpha_is_opaque() {
    // the alpha bits of the fetched pixels are zero, yet the capture is opaque
    let img = XLibMut::new(fetched(2, 1, vec![0x0000_00ff, 0x7f00_ff00]));
    let c = finish_capture(&plan(2, 1, false), &img).unwrap();
    assert_eq!(c.data, vec![0, 0, 0xff, 255, 0, 0xff, 0, 255]);
}

#[test]
fn capture_with_source_alpha_keeps_it() {
    let img = XLibMut::new(fetched(2, 1, vec![0x0000_00ff, 0x7f00_ff00]));
    let c = finish_capture(&plan(2, 1, true), &img).unwrap();
    assert_eq!(c.data, vec![0, 0, 0xff, 0, 0, 0xff, 0, 0x7f]);
}

#[test]
fn capture_of_mismatched_image_fails() {
    let img = XLibMut::new(fetched(2, 1, vec![0, 0]));
    assert_eq!(finish_capture(&plan(3, 1, false), &img).unwrap_err(), CaptureError::CaptureFailure);
    let short = XLibMut::new(fetched(2, 2, vec![0, 0, 0]));
    assert_eq!(
        finish_capture(&plan(2, 2, false), &short).unwrap_err(),
        CaptureError::CaptureFailure
    );
}

#[test]
fn repeated_captures_are_identical() {
    let img = XLibMut::new(fetched(2, 2, vec![0x8011_2233, 1, 2, 3]));
    let a = finish_capture(&plan(2, 2, true), &img).unwrap();
    let b = finish_capture(&plan(2, 2, true), &img.clone()).unwrap();
    assert_eq!(a.data, b.data);
    let info = fb_info(2, 2, 32, 8, argb32());
    let frame: Vec<u8> = (0u8..16).collect();
    assert_eq!(decode_frame(&info, &frame).unwrap().data, decode_frame(&info, &frame).unwrap().data);
}

fn fb_info(xres: u32, yres: u32, bits: u32, line: u32, format: PixelFormat) -> DeviceInfo {
    DeviceInfo { xres, yres, xoffset: 0, bits_per_pixel: bits, line_length: line, format }
}

#[test]
fn framebuffer_decodes_with_stride_and_device_channels() {
    // 2x2 at 32 bits, 12 bytes per line (4 of padding), little-endian BGRA bytes
    let mut info = fb_info(2, 2, 32, 12, argb32());
    info.format.alpha = ch(0, 0);
    let frame: Vec<u8> = vec![
        0x33, 0x22, 0x11, 0x00, 0x66, 0x55, 0x44, 0x00, 9, 9, 9, 9, //
        0x03, 0x02, 0x01, 0x00, 0x06, 0x05, 0x04, 0x00, 9, 9, 9, 9,
    ];
    let c = decode_frame(&info, &frame).unwrap();
    assert_eq!((c.width, c.height, c.layout), (2, 2, Layout::Rgb));
    assert_eq!(
        c.data,
        vec![0x11, 0x22, 0x33, 0x44, 0x55, 0x66, 0x01, 0x02, 0x03, 0x04, 0x05, 0x06]
    );
}

#[test]
fn framebuffer_with_alpha_gives_rgba() {
    let info = fb_info(1, 1, 32, 4, argb32());
    let c = decode_frame(&info, &vec![0x33, 0x22, 0x11, 0x80]).unwrap();
    assert_eq!(c.layout, Layout::Rgba);
    assert_eq!(c.data, vec![0x11, 0x22, 0x33, 0x80]);
}

#[test]
fn framebuffer_decodes_rgb565() {
    let info = fb_info(2, 1, 16, 4, rgb565());
    // white, then pure red
    let c = decode_frame(&info, &vec![0xff, 0xff, 0x00, 0xf8]).unwrap();
    assert_eq!(c.data, vec![0xf8, 0xfc, 0xf8, 0xf8, 0, 0]);
}

#[test]
fn framebuffer_applies_xoffset() {
    let mut info = fb_info(1, 1, 16, 4, rgb565());
    info.xoffset = 2;
    let c = decode_frame(&info, &vec![0, 0, 0x00, 0xf8]).unwrap();
    assert_eq!(c.data, vec![0xf8, 0, 0]);
}

#[test]
fn framebuffer_capture_has_the_device_resolution() {
    let info = fb_info(4, 3, 16, 8, rgb565());
    let c = decode_frame(&info, &vec![0; 24]).unwrap();
    assert_eq!((c.width, c.height), (4, 3));
    assert_eq!(c.data.len(), 4 * 3 * 3);
}

#[test]
fn framebuffer_rejects_undecodable_geometry() {
    let short = fb_info(2, 2, 32, 8, argb32());
    assert_eq!(decode_frame(&short, &vec![0; 15]).unwrap_err(), CaptureError::CaptureFailure);
    let odd_bits = fb_info(1, 1, 12, 2, rgb565());
    assert_eq!(decode_frame(&odd_bits, &vec![0; 2]).unwrap_err(), CaptureError::CaptureFailure);
    let wide_channel = fb_info(1, 1, 16, 2, argb32());
    assert_eq!(decode_frame(&wide_channel, &vec![0; 2]).unwrap_err(), CaptureError::CaptureFailure);
    let mut overlapping = argb32();
    overlapping.green = ch(12, 8);
    let info = fb_info(1, 1, 32, 4, overlapping);
    assert_eq!(decode_frame(&info, &vec![0; 4]).unwrap_err(), CaptureError::CaptureFailure);
}

#[test]
fn framebuffer_of_zero_size_is_empty() {
    let info = fb_info(0, 0, 32, 0, argb32());
    let c = decode_frame(&info, &Vec::new()).unwrap();
    assert_eq!((c.width, c.height), (0, 0));
    assert!(c.data.is_empty());
}

#[test]
fn xlib_handle_is_exclusive_only_when_alone() {
    let a = XLibMut::new(fetched(1, 1, vec![7]));
    let b = a.clone();
    let a = match a.try_unwrap() {
        Ok(_) => panic!("a shared handle must not give its value away"),
        Err(h) => h,
    };
    drop(b);
    let img = a.try_unwrap().ok().unwrap();
    assert_eq!(img.pixels, vec![7]);
}
