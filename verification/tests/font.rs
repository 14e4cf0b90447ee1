use orion_core::font::draw_char;
use orion_core::render::RecordingDisplay;

#[test]
fn draws_scaled_glyph_pixels() {
    let mut display = RecordingDisplay::new();
    draw_char(&mut display, 1, 2, '1', 0xffff, 2);
    assert!(display.commands().iter().any(|command| matches!(
        command,
        orion_core::render::DrawCommand::Fill { rect, color: 0xffff }
            if rect.w == 2 && rect.h == 2 && rect.x >= 1 && rect.y >= 2
    )));
}

use orion_core::font::{
    draw_centered_text, draw_char_aa, draw_text, draw_text_limited, draw_wrapped_text, TextBuffer,
};
use orion_core::render::{DrawCommand, Rect};

fn fills(display: &RecordingDisplay) -> Vec<Rect> {
    display
        .commands()
        .iter()
        .filter_map(|c| match c {
            DrawCommand::Fill { rect, .. } => Some(*rect),
            _ => None,
        })
        .collect()
}

#[test]
fn text_buffer_pads_numbers_and_cuts_at_capacity() {
    let mut buf = TextBuffer::<8>::new();
    assert!(buf.write_u32(7, 2));
    assert!(buf.push_byte(b':'));
    assert!(buf.write_u32(5, 2));
    assert_eq!(buf.as_str(), "07:05");
    assert!(!buf.write_str("abcd"));
    assert_eq!(buf.as_str(), "07:05abc");
    assert!(!buf.push_byte(b'x'));
    assert_eq!(buf.as_str(), "07:05abc");
}

#[test]
fn text_buffer_wide_numbers_are_not_cut_to_width() {
    let mut buf = TextBuffer::<16>::new();
    assert!(buf.write_u32(2025, 4));
    assert!(buf.write_u32(123, 1));
    assert!(buf.write_u32(0, 0));
    assert_eq!(buf.as_str(), "20251230");
}

#[test]
fn text_buffer_with_a_cut_character_reads_empty() {
    let mut buf = TextBuffer::<2>::new();
    assert!(!buf.write_str("aé"));
    assert_eq!(buf.as_str(), "");
}

#[test]
fn digit_one_has_its_column_pixels() {
    let mut display = RecordingDisplay::new();
    draw_char(&mut display, 0, 0, '1', 0xffff, 1);
    // '1' is 0x00, 0x42, 0x7F, 0x40, 0x00: 2 + 7 + 1 pixels.
    let rects = fills(&display);
    assert_eq!(rects.len(), 10);
    assert_eq!(rects[0], Rect { x: 1, y: 1, w: 1, h: 1 });
    assert_eq!(rects[1], Rect { x: 1, y: 6, w: 1, h: 1 });
    assert_eq!(rects[2], Rect { x: 2, y: 0, w: 1, h: 1 });
    assert_eq!(rects[9], Rect { x: 3, y: 6, w: 1, h: 1 });
}

#[test]
fn unknown_characters_draw_nothing() {
    let mut display = RecordingDisplay::new();
    draw_text(&mut display, 0, 0, "  ?", 0xffff, 1);
    assert!(display.commands().is_empty());
}

#[test]
fn text_advances_six_pixels_per_character_at_scale_one() {
    let mut one = RecordingDisplay::new();
    draw_text(&mut one, 10, 0, "I", 1, 1);
    let mut two = RecordingDisplay::new();
    draw_text(&mut two, 10, 0, "II", 1, 1);
    let first = fills(&one);
    let both = fills(&two);
    assert_eq!(both.len(), 2 * first.len());
    for (a, b) in first.iter().zip(both[first.len()..].iter()) {
        assert_eq!(b.x, a.x + 6);
        assert_eq!(b.y, a.y);
    }
}

#[test]
fn limited_text_stops_at_the_limit() {
    let mut limited = RecordingDisplay::new();
    draw_text_limited(&mut limited, 0, 0, "III", 1, 1, 2);
    let mut two = RecordingDisplay::new();
    draw_text(&mut two, 0, 0, "II", 1, 1);
    assert_eq!(limited.commands(), two.commands());
}

#[test]
fn centered_text_starts_half_the_spare_width_in() {
    let mut centered = RecordingDisplay::new();
    // "I" is 6 - 1 = 5 pixels wide; (25 - 5) / 2 = 10.
    draw_centered_text(&mut centered, 0, 0, 25, "I", 1, 1);
    let mut plain = RecordingDisplay::new();
    draw_text(&mut plain, 10, 0, "I", 1, 1);
    assert_eq!(centered.commands(), plain.commands());
}

#[test]
fn wrapped_text_breaks_at_the_last_space() {
    let mut wrapped = RecordingDisplay::new();
    draw_wrapped_text(&mut wrapped, 0, 0, "AB CD EF", 1, 1, 5, 3);
    let mut expected = RecordingDisplay::new();
    draw_text(&mut expected, 0, 0, "AB", 1, 1);
    draw_text(&mut expected, 0, 10, "CD", 1, 1);
    draw_text(&mut expected, 0, 20, "EF", 1, 1);
    assert_eq!(wrapped.commands(), expected.commands());
}

#[test]
fn wrapped_text_without_spaces_keeps_one_less_than_the_limit() {
    let mut wrapped = RecordingDisplay::new();
    draw_wrapped_text(&mut wrapped, 0, 0, "ABCDEFG", 1, 1, 4, 2);
    let mut expected = RecordingDisplay::new();
    draw_text(&mut expected, 0, 0, "ABC", 1, 1);
    draw_text(&mut expected, 0, 10, "DEF", 1, 1);
    assert_eq!(wrapped.commands(), expected.commands());
}

#[test]
fn smoothed_char_fills_one_pixel_rows_within_its_box() {
    let mut display = RecordingDisplay::new();
    draw_char_aa(&mut display, 0, 0, 'H', 0xffff, 0x0000, 2);
    let rects = fills(&display);
    assert!(!rects.is_empty());
    let mut row_widths = vec![0i16; 14];
    for r in &rects {
        assert_eq!(r.h, 1);
        assert!(r.y >= 0 && r.y < 14);
        row_widths[r.y as usize] += r.w;
    }
    // Every row is covered end to end, ten pixels wide.
    assert!(row_widths.iter().all(|&w| w == 10));
}
