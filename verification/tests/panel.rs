use orion_core::panel::{bitmap_bytes, chunk_lines, clip_to_screen};
use orion_core::render::Rect;

#[test]
fn clip_cuts_fill_to_screen() {
    assert_eq!(clip_to_screen(Rect { x: -10, y: -5, w: 30, h: 20 }), Some(Rect { x: 0, y: 0, w: 20, h: 15 }));
    assert_eq!(clip_to_screen(Rect { x: 300, y: 230, w: 50, h: 50 }), Some(Rect { x: 300, y: 230, w: 20, h: 10 }));
    assert_eq!(clip_to_screen(Rect { x: 320, y: 0, w: 10, h: 10 }), None);
    assert_eq!(clip_to_screen(Rect { x: -20, y: 0, w: 10, h: 10 }), None);
    assert_eq!(clip_to_screen(Rect { x: 0, y: 0, w: 320, h: 240 }), Some(Rect { x: 0, y: 0, w: 320, h: 240 }));
}

#[test]
fn chunks_fill_sixteen_full_lines() {
    assert_eq!(chunk_lines(320, 240), 16);
    assert_eq!(chunk_lines(320, 5), 5);
    assert_eq!(chunk_lines(10, 600), 512);
    assert_eq!(chunk_lines(30000, 3), 1);
}

#[test]
fn bitmap_must_fit_buffer_and_blob() {
    assert_eq!(bitmap_bytes(160, 104, 0, 40_000), Some(33_280));
    assert_eq!(bitmap_bytes(161, 104, 0, 40_000), None);
    assert_eq!(bitmap_bytes(10, 10, 39_900, 40_000), None);
    assert_eq!(bitmap_bytes(0, 10, 0, 40_000), None);
}
