//! Text on the page surface: font families and the integer geometry of
//! the three text boxes (address bar, title, body).
use vstd::prelude::*;

verus! {

#[derive(Debug, Clone, Copy, PartialEq, Eq, Structural)]
pub enum TextFamily {
    SansSerif,
    Monospace,
    Serif,
}

/// Margin around the page text, in logical pixels.
pub const PAGE_MARGIN: u32 = 24;

/// Height of the address bar box.
pub const URL_HEIGHT: u32 = 32;

/// Height of the title box.
pub const TITLE_HEIGHT: u32 = 56;

/// Top of the body box: margin, address bar, title, margin.
pub const BODY_TOP: u32 = 136;

/// Width of each text box and height of the body box for a surface:
/// the surface less the margins, never below zero.
pub fn page_box_sizes(surface_width: u32, surface_height: u32) -> (r: (u32, u32))
    ensures
        r.0 == if surface_width >= 2 * PAGE_MARGIN {
            surface_width - 2 * PAGE_MARGIN
        } else {
            0
        },
        r.1 == if surface_height >= BODY_TOP + PAGE_MARGIN {
            surface_height - (BODY_TOP + PAGE_MARGIN)
        } else {
            0
        },
{
    (surface_width.saturating_sub(2 * PAGE_MARGIN), surface_height.saturating_sub(BODY_TOP + PAGE_MARGIN))
}

} // verus!
