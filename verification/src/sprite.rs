use vstd::prelude::*;
use crate::render::{fill_at_cmds, DrawCommand};

verus! {

/// The Om Nom sprite: 18 by 18 pixels drawn as one-pixel-high spans.
pub const OM_NOM_W: i16 = 18;
pub const OM_NOM_H: i16 = 18;
/// How many spans the sprite has.
pub const OM_NOM_SPAN_COUNT: usize = 26;

#[derive(Debug, Clone, Copy, PartialEq, Eq, Structural)]
pub struct SpriteSpan {
    pub x: i16,
    pub y: i16,
    pub w: i16,
    pub palette: u8,
}

/// The sprite's colours: body, belly, outline, white, dark and mouth.
pub open spec fn spec_om_nom_palette(index: u8) -> u16 {
    if index == 0 {
        0x082e
    } else if index == 1 {
        0x0b4f
    } else if index == 2 {
        0x430a
    } else if index == 3 {
        0xfeff
    } else if index == 4 {
        0x4100
    } else {
        0x05d1
    }
}

/// The sprite's colours.
pub fn om_nom_palette(index: u8) -> (r: u16)
    requires
        index < 6,
    ensures
        r == spec_om_nom_palette(index),
{
    match index {
        0 => 0x082e,
        1 => 0x0b4f,
        2 => 0x430a,
        3 => 0xfeff,
        4 => 0x4100,
        _ => 0x05d1,
    }
}

/// The sprite's spans, top to bottom.
pub open spec fn om_nom_spans() -> Seq<SpriteSpan> {
    seq![
        SpriteSpan { x: 7, y: 0, w: 4, palette: 2 },
        SpriteSpan { x: 5, y: 1, w: 8, palette: 2 },
        SpriteSpan { x: 4, y: 2, w: 10, palette: 0 },
        SpriteSpan { x: 3, y: 3, w: 12, palette: 0 },
        SpriteSpan { x: 2, y: 4, w: 14, palette: 0 },
        SpriteSpan { x: 1, y: 5, w: 16, palette: 0 },
        SpriteSpan { x: 1, y: 6, w: 16, palette: 1 },
        SpriteSpan { x: 0, y: 7, w: 18, palette: 1 },
        SpriteSpan { x: 0, y: 8, w: 18, palette: 1 },
        SpriteSpan { x: 0, y: 9, w: 18, palette: 1 },
        SpriteSpan { x: 0, y: 10, w: 18, palette: 1 },
        SpriteSpan { x: 1, y: 11, w: 16, palette: 0 },
        SpriteSpan { x: 1, y: 12, w: 16, palette: 0 },
        SpriteSpan { x: 2, y: 13, w: 14, palette: 0 },
        SpriteSpan { x: 3, y: 14, w: 12, palette: 0 },
        SpriteSpan { x: 4, y: 15, w: 10, palette: 0 },
        SpriteSpan { x: 5, y: 16, w: 8, palette: 2 },
        SpriteSpan { x: 7, y: 17, w: 4, palette: 2 },
        SpriteSpan { x: 4, y: 6, w: 4, palette: 3 },
        SpriteSpan { x: 11, y: 6, w: 4, palette: 3 },
        SpriteSpan { x: 5, y: 7, w: 2, palette: 4 },
        SpriteSpan { x: 12, y: 7, w: 2, palette: 4 },
        SpriteSpan { x: 7, y: 10, w: 5, palette: 4 },
        SpriteSpan { x: 6, y: 11, w: 7, palette: 5 },
        SpriteSpan { x: 7, y: 12, w: 5, palette: 5 },
        SpriteSpan { x: 8, y: 13, w: 3, palette: 3 },
    ]
}

/// The first `n` spans of the sprite drawn with its top-left corner at
/// `x, y`, one fill each.
pub open spec fn om_nom_cmds(x: int, y: int, n: int) -> Seq<DrawCommand>
    decreases n,
{
    if n <= 0 {
        Seq::empty()
    } else {
        let span = om_nom_spans()[n - 1];
        om_nom_cmds(x, y, n - 1) + fill_at_cmds(x + span.x, y + span.y, span.w as int, 1, spec_om_nom_palette(span.palette))
    }
}

/// Span `index` of the sprite, top to bottom.
pub fn om_nom_span(index: usize) -> (r: SpriteSpan)
    requires
        index < OM_NOM_SPAN_COUNT,
    ensures
        r == om_nom_spans()[index as int],
        0 <= r.x < OM_NOM_W, 0 <= r.y < OM_NOM_H, 0 < r.w <= OM_NOM_W, r.palette < 6,
{
    match index {
        0 => SpriteSpan { x: 7, y: 0, w: 4, palette: 2 },
        1 => SpriteSpan { x: 5, y: 1, w: 8, palette: 2 },
        2 => SpriteSpan { x: 4, y: 2, w: 10, palette: 0 },
        3 => SpriteSpan { x: 3, y: 3, w: 12, palette: 0 },
        4 => SpriteSpan { x: 2, y: 4, w: 14, palette: 0 },
        5 => SpriteSpan { x: 1, y: 5, w: 16, palette: 0 },
        6 => SpriteSpan { x: 1, y: 6, w: 16, palette: 1 },
        7 => SpriteSpan { x: 0, y: 7, w: 18, palette: 1 },
        8 => SpriteSpan { x: 0, y: 8, w: 18, palette: 1 },
        9 => SpriteSpan { x: 0, y: 9, w: 18, palette: 1 },
        10 => SpriteSpan { x: 0, y: 10, w: 18, palette: 1 },
        11 => SpriteSpan { x: 1, y: 11, w: 16, palette: 0 },
        12 => SpriteSpan { x: 1, y: 12, w: 16, palette: 0 },
        13 => SpriteSpan { x: 2, y: 13, w: 14, palette: 0 },
        14 => SpriteSpan { x: 3, y: 14, w: 12, palette: 0 },
        15 => SpriteSpan { x: 4, y: 15, w: 10, palette: 0 },
        16 => SpriteSpan { x: 5, y: 16, w: 8, palette: 2 },
        17 => SpriteSpan { x: 7, y: 17, w: 4, palette: 2 },
        18 => SpriteSpan { x: 4, y: 6, w: 4, palette: 3 },
        19 => SpriteSpan { x: 11, y: 6, w: 4, palette: 3 },
        20 => SpriteSpan { x: 5, y: 7, w: 2, palette: 4 },
        21 => SpriteSpan { x: 12, y: 7, w: 2, palette: 4 },
        22 => SpriteSpan { x: 7, y: 10, w: 5, palette: 4 },
        23 => SpriteSpan { x: 6, y: 11, w: 7, palette: 5 },
        24 => SpriteSpan { x: 7, y: 12, w: 5, palette: 5 },
        _ => SpriteSpan { x: 8, y: 13, w: 3, palette: 3 },
    }
}

} // verus!
