use uefi::proto::console::gop::{supported_gop_modes, Mode};
use uefi::result::Error;
use uefi::proto::console::gop::{
    BltCall, BltOp, BltPixel, BltRegion, GraphicsOutput, ModeInfo, PixelBitmask, PixelFormat,
};
use uefi::proto::console::serial::{transfer_result, ControlBits};
use uefi::proto::console::text::output::{
    chunk_written, color_attribute, plan_write_str, test_string_result, Color, OutputMode,
};
use uefi::result::{Completion, Status};

fn codes(c: &uefi::data_types::CStr16) -> Vec<u16> {
    c.to_u16_slice_with_nul()
}

#[test]
fn test_write_plan_crlf() {
    let plan = plan_write_str("a\nb");
    assert!(plan.complete);
    assert_eq!(plan.chunks.len(), 1);
    assert_eq!(codes(&plan.chunks[0]), [b'a' as u16, 13, 10, b'b' as u16, 0]);
}

#[test]
fn test_write_plan_empty_string_flushes_empty_chunk() {
    let plan = plan_write_str("");
    assert!(plan.complete);
    assert_eq!(plan.chunks.len(), 1);
    assert_eq!(codes(&plan.chunks[0]), [0]);
}

#[test]
fn test_write_plan_chunks_of_128() {
    let s: String = "x".repeat(300);
    let plan = plan_write_str(&s);
    assert!(plan.complete);
    assert_eq!(plan.chunks.len(), 3);
    assert_eq!(codes(&plan.chunks[0]).len(), 129);
    assert_eq!(codes(&plan.chunks[1]).len(), 129);
    assert_eq!(codes(&plan.chunks[2]).len(), 300 - 256 + 1);
    // Exactly 128 codes: a full chunk, then an empty one.
    let plan = plan_write_str(&"y".repeat(128));
    assert_eq!(plan.chunks.len(), 2);
    assert_eq!(codes(&plan.chunks[1]), [0]);
}

#[test]
fn test_write_plan_non_bmp_char() {
    // The character outside UCS-2 stops the write before the last flush.
    let mut s = "z".repeat(130);
    s.push('😀');
    s.push_str("tail");
    let plan = plan_write_str(&s);
    assert!(!plan.complete);
    assert_eq!(plan.chunks.len(), 1);
    assert_eq!(codes(&plan.chunks[0]).len(), 129);
    let plan = plan_write_str("😀");
    assert!(!plan.complete);
    assert!(plan.chunks.is_empty());
}

#[test]
fn test_write_plan_interior_nul() {
    let plan = plan_write_str("a\0b");
    assert!(!plan.complete);
    assert!(plan.chunks.is_empty());
}

#[test]
fn test_write_plan_unicode_codes() {
    let plan = plan_write_str("őэ╋");
    assert!(plan.complete);
    assert_eq!(codes(&plan.chunks[0]), [0x0151, 0x044D, 0x254B, 0]);
}

#[test]
fn test_chunk_written() {
    assert!(chunk_written(Status::SUCCESS()));
    assert!(!chunk_written(Status::WARN_UNKNOWN_GLYPH()));
    assert!(!chunk_written(Status::DEVICE_ERROR()));
}

#[test]
fn test_color_attribute() {
    assert_eq!(color_attribute(Color::White, Color::Blue), 0x1F);
    assert_eq!(color_attribute(Color::Black, Color::LightGray), 0x70);
    assert_eq!(Color::Yellow.value(), 14);
}

#[test]
fn test_test_string_result() {
    assert_eq!(
        test_string_result(Status::UNSUPPORTED()).ok().map(|c| c.split().1),
        Some(false)
    );
    assert_eq!(
        test_string_result(Status::SUCCESS()).ok().map(|c| c.split().1),
        Some(true)
    );
    let e = test_string_result(Status::DEVICE_ERROR()).unwrap_err();
    assert_eq!(e.status(), Status::DEVICE_ERROR());
}

#[test]
fn test_output_mode() {
    let m = OutputMode::new(1, 80, 50);
    assert_eq!((m.index(), m.columns(), m.rows()), (1, 80, 50));
}

fn gop(format: PixelFormat) -> GraphicsOutput {
    GraphicsOutput {
        max_mode: 2,
        mode: 0,
        info: ModeInfo {
            version: 0,
            hor_res: 640,
            ver_res: 480,
            format,
            mask: PixelBitmask { red: 0xff0000, green: 0xff00, blue: 0xff, reserved: 0 },
            stride: 640,
        },
        info_sz: 36,
        fb_address: 0x8000_0000,
        fb_size: 640 * 480 * 4,
    }
}

#[test]
fn test_blt_calls() {
    let g = gop(PixelFormat::Rgb);
    let fill = BltOp::VideoFill { color: BltPixel::new(1, 2, 3), dest: (10, 20), dims: (30, 40) };
    assert_eq!(
        g.blt(&fill),
        BltCall { operation: 0, source_x: 0, source_y: 0, dest_x: 10, dest_y: 20, width: 30, height: 40, delta: 0 }
    );
    let mut buffer = vec![BltPixel::new(0, 0, 0); 100];
    let op = BltOp::VideoToBltBuffer {
        buffer: &mut buffer,
        src: (1, 2),
        dest: BltRegion::SubRectangle { coords: (3, 4), px_stride: 10 },
        dims: (5, 6),
    };
    g.check_framebuffer_region((1, 2), (5, 6));
    g.check_blt_buffer_region(BltRegion::SubRectangle { coords: (3, 4), px_stride: 10 }, (5, 6), 100);
    assert_eq!(
        g.blt(&op),
        BltCall { operation: 1, source_x: 1, source_y: 2, dest_x: 3, dest_y: 4, width: 5, height: 6, delta: 40 }
    );
    let buffer = vec![BltPixel::new(0, 0, 0); 12];
    let op = BltOp::BufferToVideo { buffer: &buffer, src: BltRegion::Full, dest: (7, 8), dims: (4, 3) };
    assert_eq!(
        g.blt(&op),
        BltCall { operation: 2, source_x: 0, source_y: 0, dest_x: 7, dest_y: 8, width: 4, height: 3, delta: 0 }
    );
    let op = BltOp::VideoToVideo { src: (0, 0), dest: (100, 100), dims: (50, 50) };
    assert_eq!(
        g.blt(&op),
        BltCall { operation: 3, source_x: 0, source_y: 0, dest_x: 100, dest_y: 100, width: 50, height: 50, delta: 0 }
    );
}

#[test]
fn test_blt_region_checks() {
    // Regions in bounds pass the checks; the edges are included.
    let g = gop(PixelFormat::Bgr);
    g.check_framebuffer_region((600, 400), (40, 80));
    g.check_framebuffer_region((0, 0), (0, 0));
    g.check_blt_buffer_region(BltRegion::Full, (4, 3), 12);
    g.check_blt_buffer_region(BltRegion::SubRectangle { coords: (3, 4), px_stride: 10 }, (7, 6), 100);
}

#[test]
fn test_mode_info_and_frame_buffer() {
    let mut g = gop(PixelFormat::Bitmask);
    let info = g.current_mode_info();
    assert_eq!(info.resolution(), (640, 480));
    assert_eq!(info.stride(), 640);
    assert_eq!(info.pixel_format(), PixelFormat::Bitmask);
    assert_eq!(info.pixel_bitmask().unwrap().green, 0xff00);
    assert!(gop(PixelFormat::Rgb).info.pixel_bitmask().is_none());
    let mut fb = g.frame_buffer();
    assert_eq!(fb.size(), 640 * 480 * 4);
    assert_eq!(fb.as_mut_ptr(), 0x8000_0000);
}

#[test]
fn test_blt_pixel_from_u32() {
    let p = BltPixel::from(0x00AA_BBCC);
    assert_eq!((p.red, p.green, p.blue, p.reserved), (0xAA, 0xBB, 0xCC, 0));
    let p = BltPixel::from(0xFF12_3456);
    assert_eq!((p.red, p.green, p.blue), (0x12, 0x34, 0x56));
}

#[test]
fn test_serial_transfer_result() {
    assert_eq!(transfer_result(Status::SUCCESS(), 5).ok().map(|c| c.split().1), Some(5));
    assert_eq!(transfer_result(Status::TIMEOUT(), 3).ok().map(|c| c.split().1), Some(3));
    assert_eq!(transfer_result(Status::DEVICE_ERROR(), 3).unwrap_err().status(), Status::DEVICE_ERROR());
    assert_eq!(transfer_result(Status::WARN_WRITE_FAILURE(), 3).unwrap_err().status(), Status::WARN_WRITE_FAILURE());
}

#[test]
fn test_control_bits() {
    let settable = ControlBits::SETTABLE();
    assert_eq!(settable.bits(), 0x7003);
    assert!(settable.contains(ControlBits::REQUEST_TO_SEND()));
    assert!(!settable.contains(ControlBits::RING_INDICATE()));
    assert_eq!(ControlBits::from_bits_truncate(0xffff_ffff).bits(), 0x73f3);
    let _ = Completion::Success(());
}

#[test]
fn test_blt_regions_ok() {
    let g = gop(PixelFormat::Bgr);
    assert!(g.blt_regions_ok(&BltOp::VideoToVideo { src: (0, 0), dest: (600, 400), dims: (40, 80) }));
    assert!(!g.blt_regions_ok(&BltOp::VideoToVideo { src: (0, 0), dest: (600, 400), dims: (41, 80) }));
    assert!(!g.blt_regions_ok(&BltOp::VideoFill {
        color: BltPixel::new(1, 2, 3),
        dest: (usize::MAX, 0),
        dims: (1, 0),
    }));
    let buffer = vec![BltPixel::new(0, 0, 0); 11];
    assert!(!g.blt_regions_ok(&BltOp::BufferToVideo { buffer: &buffer, src: BltRegion::Full, dest: (0, 0), dims: (4, 3) }));
    let buffer = vec![BltPixel::new(0, 0, 0); 12];
    assert!(g.blt_regions_ok(&BltOp::BufferToVideo { buffer: &buffer, src: BltRegion::Full, dest: (0, 0), dims: (4, 3) }));
    let mut buffer = vec![BltPixel::new(0, 0, 0); 100];
    let sub = BltRegion::SubRectangle { coords: (3, 4), px_stride: 10 };
    assert!(!g.blt_regions_ok(&BltOp::VideoToBltBuffer { buffer: &mut buffer, src: (0, 0), dest: sub, dims: (8, 6) }));
}

#[test]
fn test_supported_gop_modes() {
    let info = gop(PixelFormat::Bgr).info;
    let queries = vec![
        Ok(Completion::Success(Mode::new(0, 36, info))),
        Err(Error::new(Status::UNSUPPORTED(), ())),
        Ok(Completion::Warning(Mode::new(2, 40, info), Status::WARN_STALE_DATA())),
    ];
    let modes = supported_gop_modes(&queries);
    assert_eq!(modes.iter().map(|m| (m.index(), m.info_size())).collect::<Vec<_>>(), vec![(0, 36), (2, 40)]);
    assert!(supported_gop_modes(&Vec::new()).is_empty());
}
