//! Screen-geometry helpers for the host's rendering layer.

use vstd::prelude::*;

verus! {

/// Widens a terminal size reported as `(u16, u16)` to `(u32, u32)`.
pub fn convert_size_type(tuple: (u16, u16)) -> (wide: (u32, u32))
    ensures
        wide.0 == tuple.0 as u32,
        wide.1 == tuple.1 as u32,
{
    (tuple.0 as u32, tuple.1 as u32)
}

/// The screen rectangle of a centered popup.
pub struct PopupBorders {
    pub start_x: i32,
    pub start_y: i32,
    pub end_x: i32,
    pub end_y: i32,
}

/// Centers a `popup_width` × `popup_height` rectangle on a screen of
/// the given size.
pub fn calculate_popup_borders(height: i32, width: i32, popup_height: i32, popup_width: i32) -> (b:
    PopupBorders)
    requires
        0 <= height,
        0 <= width,
        0 <= popup_height,
        0 <= popup_width,
    ensures
        b.start_x == width / 2 - popup_width / 2,
        b.start_y == height / 2 - popup_height / 2,
        b.end_x == width / 2 + popup_width / 2,
        b.end_y == height / 2 + popup_height / 2,
{
    let x_center = width / 2;
    let y_center = height / 2;
    PopupBorders {
        start_x: x_center - popup_width / 2,
        start_y: y_center - popup_height / 2,
        end_x: x_center + popup_width / 2,
        end_y: y_center + popup_height / 2,
    }
}

} // verus!
