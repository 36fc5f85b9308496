//! Where the popups stand on the screen. Whatever the size of the screen,
//! every area that is handed out lies within it.

use vstd::prelude::*;

verus! {

/// A rectangle of the screen, in cells.
#[derive(Clone, Copy, Debug, PartialEq, Eq, Structural)]
pub struct Area {
    pub x: u16,
    pub y: u16,
    pub width: u16,
    pub height: u16,
}

/// The width, in cells, of the hint in the corner of the screen.
pub const CORNER_WIDTH: u16 = 20;

/// The smaller of two lengths.
pub open spec fn least(a: u16, b: u16) -> u16 {
    if a <= b {
        a
    } else {
        b
    }
}

/// The area lies within a screen of the given size.
pub open spec fn within(area: Area, width: u16, height: u16) -> bool {
    area.x + area.width <= width && area.y + area.height <= height
}

/// The inner area lies within the outer one.
pub open spec fn inside(inner: Area, outer: Area) -> bool {
    &&& outer.x <= inner.x
    &&& outer.y <= inner.y
    &&& inner.x + inner.width <= outer.x + outer.width
    &&& inner.y + inner.height <= outer.y + outer.height
}

/// A popup of the wanted size in the middle of a screen of the given size.
/// On a screen that is too small for it the popup is as large as the
/// screen.
pub open spec fn centered(width: u16, height: u16, wanted_width: u16, wanted_height: u16) -> Area {
    let popup_width = least(wanted_width, width);
    let popup_height = least(wanted_height, height);
    Area {
        x: ((width - popup_width) / 2) as u16,
        y: ((height - popup_height) / 2) as u16,
        width: popup_width,
        height: popup_height,
    }
}

/// Where the hints stand: a third of the screen wide, and ten rows more than
/// a third of the screen high or as high as the screen where that is less,
/// in the middle.
pub open spec fn hint_area(width: u16, height: u16) -> Area {
    centered(width, height, width / 3, (height / 3 + 10) as u16)
}

/// Where the popup for a playlist name stands: a quarter of the screen
/// wide, an eighth of the screen high, in the middle.
pub open spec fn name_area(width: u16, height: u16) -> Area {
    centered(width, height, width / 4, height / 8)
}

/// Where the typed name stands within its popup: two rows below the top,
/// with two rows left below. In a popup of fewer than four rows no row is
/// left for it, and it begins no lower than the popup ends.
pub open spec fn input_area(popup: Area) -> Area {
    let top = least(2, popup.height);
    Area {
        x: popup.x,
        y: if popup.y + top <= u16::MAX {
            (popup.y + top) as u16
        } else {
            u16::MAX
        },
        width: popup.width,
        height: (popup.height - least(4, popup.height)) as u16,
    }
}

/// Where the hint in the corner stands: in the last row of the screen, its
/// last twenty cells, or all of the row where the screen is narrower.
pub open spec fn corner_area(width: u16, height: u16) -> Area {
    let hint_width = least(CORNER_WIDTH, width);
    let hint_height = least(1, height);
    Area {
        x: (width - hint_width) as u16,
        y: (height - hint_height) as u16,
        width: hint_width,
        height: hint_height,
    }
}

fn smaller(a: u16, b: u16) -> (least_of: u16)
    ensures
        least_of == least(a, b),
{
    if a <= b {
        a
    } else {
        b
    }
}

fn centered_area(width: u16, height: u16, wanted_width: u16, wanted_height: u16) -> (area: Area)
    ensures
        area == centered(width, height, wanted_width, wanted_height),
        within(area, width, height),
{
    let popup_width: u16 = smaller(wanted_width, width);
    let popup_height: u16 = smaller(wanted_height, height);
    Area {
        x: (width - popup_width) / 2,
        y: (height - popup_height) / 2,
        width: popup_width,
        height: popup_height,
    }
}

/// Where the hints stand on a screen of the given size. The area lies
/// within the screen, however small the screen is.
pub fn hint_popup_area(width: u16, height: u16) -> (area: Area)
    ensures
        area == hint_area(width, height),
        within(area, width, height),
{
    centered_area(width, height, width / 3, height / 3 + 10)
}

/// Where the popup for a playlist name stands on a screen of the given
/// size. The area lies within the screen.
pub fn name_popup_area(width: u16, height: u16) -> (area: Area)
    ensures
        area == name_area(width, height),
        within(area, width, height),
{
    centered_area(width, height, width / 4, height / 8)
}

/// Where the typed name stands within its popup. The area lies within the
/// popup, for every popup that lies on a screen.
pub fn name_input_area(popup: Area) -> (area: Area)
    ensures
        area == input_area(popup),
        popup.y + popup.height <= u16::MAX ==> inside(area, popup),
{
    Area {
        x: popup.x,
        y: popup.y.saturating_add(smaller(2, popup.height)),
        width: popup.width,
        height: popup.height - smaller(4, popup.height),
    }
}

/// Where the hint in the corner stands on a screen of the given size. The
/// area lies within the screen.
pub fn corner_hint_area(width: u16, height: u16) -> (area: Area)
    ensures
        area == corner_area(width, height),
        within(area, width, height),
{
    let hint_width: u16 = smaller(CORNER_WIDTH, width);
    let hint_height: u16 = smaller(1, height);
    Area { x: width - hint_width, y: height - hint_height, width: hint_width, height: hint_height }
}

/// An area within an area that lies within a screen lies within the screen.
pub proof fn lemma_inside_within(inner: Area, outer: Area, width: u16, height: u16)
    requires
        inside(inner, outer),
        within(outer, width, height),
    ensures
        within(inner, width, height),
{
}

} // verus!
