use aurora_kernel::framebuffer::{
    set_pixel_in, Color, Display, FrameBufferInfo, PixelFormat, Position,
};

fn info(format: PixelFormat, bytes_per_pixel: usize) -> FrameBufferInfo {
    FrameBufferInfo {
        byte_len: 4 * 3 * bytes_per_pixel,
        width: 3,
        height: 3,
        pixel_format: format,
        bytes_per_pixel,
        stride: 4,
    }
}

const ORANGE: Color = Color { red: 250, green: 120, blue: 7 };

#[test]
fn rgb_pixel_is_written_at_its_offset() {
    let info = info(PixelFormat::Rgb, 4);
    let mut buf = vec![0u8; info.byte_len];
    assert!(set_pixel_in(&mut buf, &info, Position { x: 2, y: 1 }, ORANGE));
    // (1 * 4 + 2) * 4 = 24
    let mut expected = vec![0u8; info.byte_len];
    expected[24..27].copy_from_slice(&[250, 120, 7]);
    assert_eq!(buf, expected);
}

#[test]
fn bgr_pixel_is_written_in_reverse() {
    let info = info(PixelFormat::Bgr, 3);
    let mut buf = vec![0xaau8; info.byte_len];
    assert!(set_pixel_in(&mut buf, &info, Position { x: 1, y: 0 }, ORANGE));
    assert_eq!(&buf[..8], &[0xaa, 0xaa, 0xaa, 7, 120, 250, 0xaa, 0xaa]);
}

#[test]
fn grey_pixel_is_the_sum_of_thirds() {
    let info = info(PixelFormat::U8, 1);
    let mut buf = vec![0u8; info.byte_len];
    assert!(set_pixel_in(&mut buf, &info, Position { x: 0, y: 2 }, ORANGE));
    // 250 / 3 + 120 / 3 + 7 / 3 = 83 + 40 + 2
    assert_eq!(buf[8], 125);
    assert!(set_pixel_in(&mut buf, &info, Position { x: 1, y: 2 }, Color { red: 255, green: 255, blue: 255 }));
    assert_eq!(buf[9], 255);
}

#[test]
fn pixel_outside_the_buffer_is_not_written() {
    let info = info(PixelFormat::Rgb, 4);
    let mut buf = vec![1u8; 26];
    // Offset 24: only two bytes are left.
    assert!(!set_pixel_in(&mut buf, &info, Position { x: 2, y: 1 }, ORANGE));
    assert!(!set_pixel_in(&mut buf, &info, Position { x: usize::MAX, y: usize::MAX }, ORANGE));
    assert_eq!(buf, vec![1u8; 26]);
    let mut buf = vec![1u8; 27];
    assert!(set_pixel_in(&mut buf, &info, Position { x: 2, y: 1 }, ORANGE));
    assert_eq!(&buf[24..], &[250, 120, 7]);
}

#[test]
fn unknown_format_is_not_written() {
    let info = info(PixelFormat::Unknown, 4);
    let mut buf = vec![0u8; info.byte_len];
    assert!(!set_pixel_in(&mut buf, &info, Position { x: 0, y: 0 }, ORANGE));
    assert_eq!(buf, vec![0u8; info.byte_len]);
}

#[test]
fn display_draws_only_on_the_screen() {
    let info = info(PixelFormat::Rgb, 4);
    let mut display = Display::new_from_buffer(info.byte_len, &info);
    assert_eq!(display.shadow(), &vec![0u8; 48]);
    assert_eq!(display.info(), info);
    display.draw_pixel(0, 0, ORANGE);
    display.draw_pixel(2, 2, ORANGE);
    // Column 3 lies within the stride but off the screen.
    display.draw_pixel(3, 0, ORANGE);
    display.draw_pixel(-1, 0, ORANGE);
    display.draw_pixel(0, -1, ORANGE);
    display.draw_pixel(0, 3, ORANGE);
    let mut expected = vec![0u8; 48];
    expected[0..3].copy_from_slice(&[250, 120, 7]);
    expected[40..43].copy_from_slice(&[250, 120, 7]);
    assert_eq!(display.shadow(), &expected);
    display.clear_buf();
    assert_eq!(display.shadow(), &vec![0u8; 48]);
}
