use vstd::prelude::*;
use crate::font::{draw_text, text_cmds};
use crate::render::{fill_cmds, fill_rect, sent, DisplaySink, DrawCommand};
use crate::theme;

verus! {

broadcast use crate::render::lemma_sent_chain;

/// What `draw_option_row` sends.
pub open spec fn option_row_cmds(x: i16, y: i16, width: i16, label: Seq<char>, value: Seq<char>, selected: bool) -> Seq<DrawCommand> {
    fill_cmds(x, y, width, 30, if selected { theme::OVERLAY } else { theme::HUD })
        + (if selected { fill_cmds((x + 2) as i16, (y + 7) as i16, 4, 16, theme::ACCENT) } else { Seq::empty() })
        + (if label.len() == 0 {
            text_cmds((x + 26) as i16, (y + 9) as i16, value, theme::TEXT, 1)
        } else {
            text_cmds((x + 12) as i16, (y + 9) as i16, label, if selected { theme::TEXT } else { theme::MUTED }, 1)
                + text_cmds((x + 86) as i16, (y + 9) as i16, value, theme::TEXT, 1)
        })
}

fn draw_row_text<D: DisplaySink>(display: &mut D, x: i16, ty: i16, label: &str, value: &str, selected: bool)
    ensures
        sent(*old(display), *final(display), if label@.len() == 0 {
            text_cmds((x + 26) as i16, ty, value@, theme::TEXT, 1)
        } else {
            text_cmds((x + 12) as i16, ty, label@, if selected { theme::TEXT } else { theme::MUTED }, 1)
                + text_cmds((x + 86) as i16, ty, value@, theme::TEXT, 1)
        }),
{
    if label.is_empty() {
        #[verifier::truncate]
        let tx = (x as i32 + 26) as i16;
        draw_text(display, tx, ty, value, theme::TEXT, 1);
    } else {
        #[verifier::truncate]
        let lx = (x as i32 + 12) as i16;
        #[verifier::truncate]
        let vx = (x as i32 + 86) as i16;
        draw_text(display, lx, ty, label, if selected { theme::TEXT } else { theme::MUTED }, 1);
        draw_text(display, vx, ty, value, theme::TEXT, 1);
    }
}

/// A menu row 30 pixels high: highlighted with an accent bar when
/// selected; the label on the left and the value at 86 pixels, or the value
/// alone when there is no label.
pub fn draw_option_row<D: DisplaySink>(
    display: &mut D,
    x: i16,
    y: i16,
    width: i16,
    label: &str,
    value: &str,
    selected: bool,
)
    ensures
        sent(*old(display), *final(display), option_row_cmds(x, y, width, label@, value@, selected)),
{
    fill_rect(display, x, y, width, 30, if selected { theme::OVERLAY } else { theme::HUD });
    #[verifier::truncate]
    let ty = (y as i32 + 9) as i16;
    if selected {
        #[verifier::truncate]
        let ax = (x as i32 + 2) as i16;
        #[verifier::truncate]
        let ay = (y as i32 + 7) as i16;
        fill_rect(display, ax, ay, 4, 16, theme::ACCENT);
        draw_row_text(display, x, ty, label, value, selected);
    } else {
        draw_row_text(display, x, ty, label, value, selected);
        assert(fill_cmds(x, y, width, 30, theme::HUD) + Seq::<DrawCommand>::empty() =~= fill_cmds(x, y, width, 30, theme::HUD));
    }
}

/// What `draw_menu_button` sends.
pub open spec fn menu_button_cmds(x: i16, y: i16, selected: bool) -> Seq<DrawCommand> {
    fill_cmds(x, y, 104, 28, if selected { theme::ACCENT } else { theme::HUD })
        + fill_cmds((x + 12) as i16, (y + 8) as i16, 12, 2, theme::TEXT)
        + fill_cmds((x + 12) as i16, (y + 13) as i16, 12, 2, theme::TEXT)
        + fill_cmds((x + 12) as i16, (y + 18) as i16, 12, 2, theme::TEXT)
        + text_cmds((x + 36) as i16, (y + 10) as i16, "MENU"@, if selected { theme::BG } else { theme::TEXT }, 1)
}

/// The home screen's menu button: a bar with a three-line icon and "MENU".
pub fn draw_menu_button<D: DisplaySink>(display: &mut D, x: i16, y: i16, selected: bool)
    ensures
        sent(*old(display), *final(display), menu_button_cmds(x, y, selected)),
{
    fill_rect(display, x, y, 104, 28, if selected { theme::ACCENT } else { theme::HUD });
    #[verifier::truncate]
    let ix = (x as i32 + 12) as i16;
    #[verifier::truncate]
    let y1 = (y as i32 + 8) as i16;
    #[verifier::truncate]
    let y2 = (y as i32 + 13) as i16;
    #[verifier::truncate]
    let y3 = (y as i32 + 18) as i16;
    fill_rect(display, ix, y1, 12, 2, theme::TEXT);
    fill_rect(display, ix, y2, 12, 2, theme::TEXT);
    fill_rect(display, ix, y3, 12, 2, theme::TEXT);
    #[verifier::truncate]
    let tx = (x as i32 + 36) as i16;
    #[verifier::truncate]
    let ty = (y as i32 + 10) as i16;
    draw_text(display, tx, ty, "MENU", if selected { theme::BG } else { theme::TEXT }, 1);
}

} // verus!
