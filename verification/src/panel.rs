use vstd::prelude::*;
use crate::render::Rect;

verus! {

/// Pixels in one fill buffer: sixteen screen lines.
pub const FILL_BUF_PIXELS: i16 = 5120;
/// Bytes in the bitmap buffer: the largest flag, two bytes a pixel.
pub const BITMAP_BUF_BYTES: usize = 33_280;

/// A fill cut to the 320 by 240 screen; `None` when nothing of it is on
/// screen.
pub open spec fn spec_clip(r: Rect) -> Option<Rect> {
    let x: int = if r.x < 0 { 0 } else { r.x as int };
    let w: int = if r.x < 0 { r.w + r.x } else { r.w as int };
    let y: int = if r.y < 0 { 0 } else { r.y as int };
    let h: int = if r.y < 0 { r.h + r.y } else { r.h as int };
    let w2: int = if x + w > 320 { 320 - x } else { w };
    let h2: int = if y + h > 240 { 240 - y } else { h };
    if w2 <= 0 || h2 <= 0 {
        None
    } else {
        Some(Rect { x: x as i16, y: y as i16, w: w2 as i16, h: h2 as i16 })
    }
}

pub fn clip_to_screen(rect: Rect) -> (r: Option<Rect>)
    ensures
        r == spec_clip(rect),
        r matches Some(c) ==> 0 <= c.x && c.x + c.w <= 320 && 0 <= c.y && c.y + c.h <= 240 && c.w > 0 && c.h > 0,
{
    let mut x: i32 = rect.x as i32;
    let mut y: i32 = rect.y as i32;
    let mut w: i32 = rect.w as i32;
    let mut h: i32 = rect.h as i32;
    if x < 0 {
        w += x;
        x = 0;
    }
    if y < 0 {
        h += y;
        y = 0;
    }
    if x + w > 320 {
        w = 320 - x;
    }
    if y + h > 240 {
        h = 240 - y;
    }
    if w <= 0 || h <= 0 {
        return None;
    }
    Some(Rect { x: x as i16, y: y as i16, w: w as i16, h: h as i16 })
}

/// How many lines of a fill `w` pixels wide go out at once: as many as a
/// fill buffer holds (at least one), and no more than are left.
pub open spec fn spec_chunk_lines(w: i16, remaining: i16) -> i16 {
    let per_buffer: int = if FILL_BUF_PIXELS / w < 1 { 1 } else { FILL_BUF_PIXELS / w };
    if remaining < per_buffer { remaining } else { per_buffer as i16 }
}

pub fn chunk_lines(w: i16, remaining: i16) -> (r: i16)
    requires
        w > 0,
        remaining > 0,
    ensures
        r == spec_chunk_lines(w, remaining),
        1 <= r <= remaining,
        r == 1 || r * w <= FILL_BUF_PIXELS,
{
    let per_buffer: i16 = if FILL_BUF_PIXELS / w < 1 { 1 } else { FILL_BUF_PIXELS / w };
    assert(per_buffer == 1 || per_buffer * w <= FILL_BUF_PIXELS) by (nonlinear_arith)
        requires
            w > 0,
            per_buffer == 1 || per_buffer == FILL_BUF_PIXELS / w,
    ;
    if remaining < per_buffer {
        assert(remaining * w <= per_buffer * w) by (nonlinear_arith)
            requires remaining < per_buffer, w > 0;
        remaining
    } else {
        per_buffer
    }
}

/// The bytes a bitmap needs, when it fits the buffer and lies within the
/// image blob; `None` otherwise (and for an empty bitmap).
pub open spec fn spec_bitmap_bytes(w: u16, h: u16, offset: u32, blob_len: usize) -> Option<usize> {
    let count: int = w * h * 2;
    if count == 0 || count > BITMAP_BUF_BYTES || offset + count > blob_len {
        None
    } else {
        Some(count as usize)
    }
}

pub fn bitmap_bytes(w: u16, h: u16, offset: u32, blob_len: usize) -> (r: Option<usize>)
    ensures
        r == spec_bitmap_bytes(w, h, offset, blob_len),
{
    assert(w * h <= 65535 * 65535) by (nonlinear_arith)
        requires w < 65536, h < 65536;
    let area: u64 = w as u64 * h as u64;
    let count: u64 = area * 2;
    if count == 0 || count > BITMAP_BUF_BYTES as u64 || offset as u64 + count > blob_len as u64 {
        return None;
    }
    Some(count as usize)
}

/// Lines sent in chunks add up to the whole fill: each chunk is at least a
/// line and at most what is left.
pub proof fn law_chunks_cover_fill(w: i16, remaining: i16)
    requires
        w > 0,
        remaining > 0,
    ensures
        1 <= spec_chunk_lines(w, remaining) <= remaining,
        remaining - spec_chunk_lines(w, remaining) < remaining,
{
}

} // verus!
