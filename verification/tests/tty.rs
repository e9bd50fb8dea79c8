use aurora_kernel::framebuffer::{Color, Display, FrameBufferInfo, PixelFormat};
use aurora_kernel::tty::{TTY, TTY_HEIGHT, TTY_WIDTH};
use font8x8::UnicodeFonts;

fn screen(width: usize, height: usize) -> Display {
    let info = FrameBufferInfo {
        byte_len: width * height,
        width,
        height,
        pixel_format: PixelFormat::U8,
        bytes_per_pixel: 1,
        stride: width,
    };
    Display::new_from_buffer(width * height, &info)
}

fn line(tty: &TTY, y: usize) -> String {
    (0..TTY_WIDTH).map(|x| tty.cell(x, y)).collect::<String>().trim_end().to_string()
}

const WHITE: Color = Color { red: 255, green: 255, blue: 255 };

#[test]
fn characters_go_to_the_cursor() {
    let mut tty = TTY::new(screen(8, 8));
    assert_eq!(tty.cursor(), (0, 0));
    assert_eq!(tty.cell(0, 0), ' ');
    assert!(!tty.write_char('h'));
    assert!(!tty.write_char('i'));
    assert_eq!(tty.cursor(), (2, 0));
    assert_eq!(line(&tty, 0), "hi");
    assert!(!tty.write_char('\n'));
    assert_eq!(tty.cursor(), (0, 1));
    assert!(!tty.write_str("there"));
    assert_eq!(line(&tty, 1), "there");
    assert_eq!(tty.cursor(), (5, 1));
}

#[test]
fn full_line_wraps_at_the_next_character() {
    let mut tty = TTY::new(screen(8, 8));
    tty.write_str(&"x".repeat(80));
    // The cursor stays behind the last column until the next character comes.
    assert_eq!(tty.cursor(), (80, 0));
    tty.write_char('y');
    assert_eq!(tty.cursor(), (1, 1));
    assert_eq!(tty.cell(0, 1), 'y');
    assert_eq!(tty.cell(79, 0), 'x');
}

#[test]
fn writing_below_the_last_line_scrolls_once() {
    let mut tty = TTY::new(screen(8, 8));
    for i in 0..25 {
        assert!(!tty.write_str(&format!("line {}\n", i)));
    }
    assert_eq!(tty.cursor(), (0, 25));
    assert_eq!(line(&tty, 0), "line 0");
    assert_eq!(line(&tty, 24), "line 24");
    assert!(tty.write_char('>'));
    assert_eq!(tty.cursor(), (1, 24));
    assert_eq!(line(&tty, 0), "line 1");
    assert_eq!(line(&tty, 23), "line 24");
    assert_eq!(line(&tty, 24), ">");
    assert!(!tty.write_char('!'));
    assert_eq!(line(&tty, 24), ">!");
}

#[test]
fn many_line_feeds_scroll_by_one_line_only() {
    let mut tty = TTY::new(screen(8, 8));
    tty.write_str("top");
    tty.write_str(&"\n".repeat(40));
    assert_eq!(tty.cursor(), (0, 40));
    assert!(tty.write_str("end"));
    assert_eq!(tty.cursor(), (3, TTY_HEIGHT - 1));
    assert_eq!(line(&tty, 24), "end");
    // The first line went out at the top; nothing else moved further.
    assert_eq!(line(&tty, 0), "");
}

#[test]
fn glyph_is_drawn_bit_by_bit() {
    let mut tty = TTY::new(screen(16, 16));
    tty.write_char('A');
    tty.render(1, WHITE);
    let glyph = font8x8::BASIC_FONTS.get('A').unwrap();
    let shadow = tty.display().shadow();
    for row in 0..8 {
        for bit in 0..8 {
            let lit = (glyph[row] >> bit) & 1 == 1;
            assert_eq!(shadow[row * 16 + bit], if lit { 255 } else { 0 }, "row {} bit {}", row, bit);
        }
    }
    // Blank cells draw nothing.
    assert!(shadow.iter().enumerate().all(|(i, b)| *b == 0 || (i % 16 < 8 && i / 16 < 8)));
    assert!(shadow.iter().any(|b| *b == 255));
}

#[test]
fn scale_draws_squares() {
    let mut tty = TTY::new(screen(64, 32));
    tty.write_str("AB");
    tty.render(2, Color { red: 30, green: 60, blue: 90 });
    let shadow = tty.display().shadow();
    for (cell, c) in ['A', 'B'].into_iter().enumerate() {
        let glyph = font8x8::BASIC_FONTS.get(c).unwrap();
        for y in 0..16 {
            for x in 0..16 {
                let lit = (glyph[y / 2] >> (x / 2)) & 1 == 1;
                assert_eq!(shadow[y * 64 + cell * 16 + x], if lit { 60 } else { 0 });
            }
        }
    }
}

#[test]
fn scrolling_redraws_the_display_without_the_new_character() {
    let mut tty = TTY::new(screen(32, 400));
    tty.write_char('A');
    tty.write_str(&"\n".repeat(25));
    // Line 0 holds the A; after scrolling it is gone and the display is blank
    // but for what the lines still hold, which is nothing.
    tty.render(2, WHITE);
    assert!(tty.display().shadow().iter().any(|b| *b != 0));
    assert!(tty.write_char('B'));
    assert!(tty.display().shadow().iter().all(|b| *b == 0));
    tty.render(2, WHITE);
    let shadow = tty.display().shadow();
    // The B stands in the last line: 24 * 16 pixels down.
    let glyph = font8x8::BASIC_FONTS.get('B').unwrap();
    for y in 0..16 {
        for x in 0..16 {
            let lit = (glyph[y / 2] >> (x / 2)) & 1 == 1;
            assert_eq!(shadow[(384 + y) * 32 + x], if lit { 255 } else { 0 });
        }
    }
    tty.clear_display();
    assert!(tty.display().shadow().iter().all(|b| *b == 0));
    assert_eq!(tty.cell(0, 24), 'B');
}

#[test]
fn characters_without_a_glyph_are_kept_but_not_drawn() {
    let mut tty = TTY::new(screen(16, 16));
    tty.write_char('é');
    assert_eq!(tty.cell(0, 0), 'é');
    tty.render(1, WHITE);
    assert!(tty.display().shadow().iter().all(|b| *b == 0));
}
