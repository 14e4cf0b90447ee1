use vstd::prelude::*;

verus! {

/// A 16-bit value with its two bytes swapped.
pub open spec fn swap_bytes(c: u16) -> u16 {
    ((c % 256) * 256 + c / 256) as u16
}

/// An RGB color packed as 5-6-5 bits, in the display's byte order (high
/// byte last).
pub open spec fn spec_rgb565(r: u8, g: u8, b: u8) -> u16 {
    swap_bytes(((r / 8) * 2048 + (g / 4) * 32 + b / 8) as u16)
}

pub fn rgb565(r: u8, g: u8, b: u8) -> (c: u16)
    ensures
        c == spec_rgb565(r, g, b),
{
    let r5 = (r / 8) as u16;
    let g6 = (g / 4) as u16;
    let b5 = (b / 8) as u16;
    let color: u16 = r5 * 2048 + g6 * 32 + b5;
    swap(color)
}

fn swap(c: u16) -> (r: u16)
    ensures
        r == swap_bytes(c),
{
    (c % 256) * 256 + c / 256
}

/// One channel mixed `alpha` quarters of the way from `bg` to `fg`, rounded.
pub open spec fn mix(bg: int, fg: int, alpha: int) -> int {
    (bg * (4 - alpha) + fg * alpha + 2) / 4
}

fn mix_channel(bgc: u16, fgc: u16, t: u16) -> (r: u16)
    requires
        bgc < 64,
        fgc < 64,
        1 <= t <= 3,
    ensures
        r == mix(bgc as int, fgc as int, t as int),
        bgc < 32 && fgc < 32 ==> r < 32,
        r < 64,
{
    assert(bgc * (4 - t) + fgc * t + 2 <= 63 * 4 + 2) by (nonlinear_arith)
        requires bgc < 64, fgc < 64, 1 <= t <= 3;
    assert(bgc < 32 && fgc < 32 ==> bgc * (4 - t) + fgc * t + 2 <= 31 * 4 + 2) by (nonlinear_arith)
        requires 1 <= t <= 3;
    (bgc * (4 - t) + fgc * t + 2) / 4
}

/// Mixes two display colors: alpha 0 gives `bg`, 4 gives `fg`, and 1 to 3
/// mix each channel in quarters.
pub open spec fn spec_blend(bg: u16, fg: u16, alpha: u8) -> u16 {
    if alpha == 0 {
        bg
    } else if alpha == 4 {
        fg
    } else {
        let b = swap_bytes(bg) as int;
        let f = swap_bytes(fg) as int;
        let r = mix(b / 2048, f / 2048, alpha as int);
        let g = mix((b / 32) % 64, (f / 32) % 64, alpha as int);
        let bl = mix(b % 32, f % 32, alpha as int);
        swap_bytes((r * 2048 + g * 32 + bl) as u16)
    }
}

pub fn rgb565_blend(bg: u16, fg: u16, alpha: u8) -> (c: u16)
    requires
        alpha <= 4,
    ensures
        c == spec_blend(bg, fg, alpha),
{
    match alpha {
        0 => bg,
        4 => fg,
        a => {
            let b = swap(bg);
            let f = swap(fg);
            let t = a as u16;
            let r = mix_channel(b / 2048, f / 2048, t);
            let g = mix_channel((b / 32) % 64, (f / 32) % 64, t);
            let bl = mix_channel(b % 32, f % 32, t);
            swap(r * 2048 + g * 32 + bl)
        },
    }
}

/// `rgb565(9, 12, 16)`.
pub const BG: u16 = 0x6208;
/// `rgb565(21, 27, 35)`.
pub const HUD: u16 = 0xc410;
/// `rgb565(14, 19, 25)`.
pub const GRID: u16 = 0x8308;
/// `rgb565(230, 237, 243)`.
pub const TEXT: u16 = 0x7ee7;
/// `rgb565(139, 148, 158)`.
pub const MUTED: u16 = 0xb38c;
/// `rgb565(88, 166, 255)`.
pub const ACCENT: u16 = 0x3f5d;
/// `rgb565(46, 160, 67)`.
pub const GOOD: u16 = 0x082d;
/// `rgb565(218, 54, 51)`.
pub const BAD: u16 = 0xa6d9;
/// `rgb565(38, 166, 74)`.
pub const SNAKE: u16 = 0x2925;
/// `rgb565(18, 111, 48)`.
pub const SNAKE_MARK: u16 = 0x6613;
/// `rgb565(80, 200, 104)`.
pub const HEAD: u16 = 0x4d56;
/// `rgb565(26, 137, 61)`.
pub const HEAD_MARK: u16 = 0x471c;
/// `rgb565(3, 7, 10)`.
pub const EYE: u16 = 0x2100;
/// `rgb565(220, 20, 36)`.
pub const APPLE: u16 = 0xa4d8;
/// `rgb565(140, 12, 28)`.
pub const APPLE_DARK: u16 = 0x6388;
/// `rgb565(255, 225, 220)`.
pub const APPLE_HIGHLIGHT: u16 = 0x1bff;
/// `rgb565(112, 64, 28)`.
pub const STEM: u16 = 0x0372;
/// `rgb565(42, 170, 76)`.
pub const LEAF: u16 = 0x492d;
/// `rgb565(31, 41, 55)`.
pub const OVERLAY: u16 = 0x4619;

} // verus!
