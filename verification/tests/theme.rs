use orion_core::theme::{rgb565, rgb565_blend};
use orion_core::theme;

#[test]
fn rgb565_matches_cpp_byte_swap() {
    assert_eq!(rgb565(255, 0, 0), 0x00f8);
    assert_eq!(rgb565(0, 255, 0), 0xe007);
    assert_eq!(rgb565(0, 0, 255), 0x1f00);
}

#[test]
fn rgb565_blend_returns_bg_at_alpha_zero() {
    let bg = rgb565(10, 20, 30);
    let fg = rgb565(200, 210, 220);
    assert_eq!(rgb565_blend(bg, fg, 0), bg);
}

#[test]
fn rgb565_blend_returns_fg_at_alpha_four() {
    let bg = rgb565(10, 20, 30);
    let fg = rgb565(200, 210, 220);
    assert_eq!(rgb565_blend(bg, fg, 4), fg);
}

#[test]
fn rgb565_blend_interpolates() {
    let bg = rgb565(0, 0, 0);
    let fg = rgb565(255, 255, 255);
    let mid = rgb565_blend(bg, fg, 2);
    let mid_std = mid.rotate_right(8);
    let r = (mid_std >> 11) & 0x1F;
    let g = (mid_std >> 5) & 0x3F;
    let b = mid_std & 0x1F;
    assert!(r > 6 && r < 18);
    assert!(g > 14 && g < 50);
    assert!(b > 6 && b < 18);
}

#[test]
fn palette_constants_match_rgb565() {
    assert_eq!(theme::BG, rgb565(9, 12, 16));
    assert_eq!(theme::TEXT, rgb565(230, 237, 243));
    assert_eq!(theme::ACCENT, rgb565(88, 166, 255));
    assert_eq!(theme::OVERLAY, rgb565(31, 41, 55));
    assert_eq!(theme::APPLE_HIGHLIGHT, rgb565(255, 225, 220));
}
